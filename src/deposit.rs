use vstd::prelude::*;

use crate::account::{same_key, system_program_id, system_program_key, Account, Authority, TransferRequest};
use crate::address::{key_view, requested_vault, vault_address};
use crate::error::VaultError;

verus! {

/// The unsigned integer that eight bytes encode, least significant first.
pub open spec fn le_u64(b: Seq<u8>) -> int {
    b[0] + b[1] * 0x100 + b[2] * 0x1_0000 + b[3] * 0x100_0000 + b[4] * 0x1_0000_0000 + b[5]
        * 0x100_0000_0000 + b[6] * 0x1_0000_0000_0000 + b[7] * 0x100_0000_0000_0000
}

/// The outcome of checking a deposit's accounts, given the derivation result
/// `derived` for the owner and the claimed bump.
pub open spec fn deposit_accounts_spec(accounts: Seq<Account>, derived: Option<Seq<u8>>) -> Result<
    DepositAccounts,
    VaultError,
> {
    if accounts.len() != 3 {
        Err(VaultError::MissingAccounts)
    } else if !accounts[0].is_signer {
        Err(VaultError::NotSigner)
    } else if derived != Some(accounts[1].key@) {
        Err(VaultError::AddressMismatch)
    } else if accounts[1].owner@ != system_program_id() {
        Err(VaultError::WrongOwner)
    } else if accounts[1].lamports != 0 {
        Err(VaultError::NonEmptyVault)
    } else {
        Ok(DepositAccounts { owner: accounts[0], vault: accounts[1] })
    }
}

/// The outcome of parsing a deposit's parameter bytes `data` (bump, then the
/// amount in eight little-endian bytes) and checking its accounts.
pub open spec fn deposit_spec(data: Seq<u8>, accounts: Seq<Account>, derived: Option<Seq<u8>>) -> Result<
    Deposit,
    VaultError,
> {
    if data.len() != 9 {
        Err(VaultError::MalformedInput)
    } else {
        match deposit_accounts_spec(accounts, derived) {
            Err(e) => Err(e),
            Ok(a) => Ok(
                Deposit {
                    accounts: a,
                    instruction_datas: DepositInstructionData {
                        amount: le_u64(data.subrange(1, 9)) as u64,
                    },
                },
            ),
        }
    }
}

/// The accounts of a deposit: the signing owner and its empty vault.
#[derive(Clone, Copy, Debug, PartialEq, Eq)]
pub struct DepositAccounts {
    pub owner: Account,
    pub vault: Account,
}

impl DepositAccounts {
    /// Checks `accounts` (owner, vault, system program) against `derived`,
    /// the address that the owner and the claimed bump derive.
    pub fn check(accounts: &[Account], derived: Option<[u8; 32]>) -> (r: Result<Self, VaultError>)
        ensures
            r == deposit_accounts_spec(accounts@, key_view(derived)),
    {
        if accounts.len() != 3 {
            return Err(VaultError::MissingAccounts);
        }
        let owner = accounts[0];
        let vault = accounts[1];
        if !owner.is_signer {
            return Err(VaultError::NotSigner);
        }
        match derived {
            Some(k) => {
                if !same_key(&k, &vault.key) {
                    return Err(VaultError::AddressMismatch);
                }
            },
            None => {
                return Err(VaultError::AddressMismatch);
            },
        }
        let system = system_program_key();
        if !same_key(&vault.owner, &system) {
            return Err(VaultError::WrongOwner);
        }
        if vault.lamports != 0 {
            return Err(VaultError::NonEmptyVault);
        }
        Ok(DepositAccounts { owner, vault })
    }

    /// Checks `accounts` against the vault that the owner and `bump` derive
    /// under `program_id`.
    pub fn parse(bump: u8, accounts: &[Account], program_id: &[u8; 32]) -> (r: Result<Self, VaultError>)
        ensures
            r == deposit_accounts_spec(accounts@, requested_vault(accounts@, bump, program_id@)),
    {
        if accounts.len() != 3 {
            return Err(VaultError::MissingAccounts);
        }
        let derived = vault_address(&accounts[0].key, bump, program_id);
        DepositAccounts::check(accounts, derived)
    }
}

/// The parameters of a deposit past the bump.
#[derive(Clone, Copy, Debug, PartialEq, Eq)]
pub struct DepositInstructionData {
    /// The exact amount moved into the vault.
    pub amount: u64,
}

impl DepositInstructionData {
    /// Reads the amount from exactly eight little-endian bytes.
    pub fn parse(data: &[u8]) -> (r: Result<Self, VaultError>)
        ensures
            data@.len() == 8 ==> r == Ok::<Self, VaultError>(
                DepositInstructionData { amount: le_u64(data@) as u64 },
            ),
            data@.len() != 8 ==> r == Err::<Self, VaultError>(VaultError::MalformedInput),
    {
        if data.len() != 8 {
            return Err(VaultError::MalformedInput);
        }
        let amount: u64 = data[0] as u64 + data[1] as u64 * 0x100 + data[2] as u64 * 0x1_0000
            + data[3] as u64 * 0x100_0000 + data[4] as u64 * 0x1_0000_0000 + data[5] as u64
            * 0x100_0000_0000 + data[6] as u64 * 0x1_0000_0000_0000 + data[7] as u64
            * 0x100_0000_0000_0000;
        Ok(DepositInstructionData { amount })
    }
}

/// A checked deposit, ready to request its transfer.
#[derive(Clone, Copy, Debug, PartialEq, Eq)]
pub struct Deposit {
    pub accounts: DepositAccounts,
    pub instruction_datas: DepositInstructionData,
}

impl Deposit {
    /// The discriminator byte that routes a request to a deposit.
    pub const DISCRIMINATOR: u8 = 0;

    /// Parses `data` and checks `accounts` against `derived`, the address that
    /// the owner and the bump in `data` derive.
    pub fn check(data: &[u8], accounts: &[Account], derived: Option<[u8; 32]>) -> (r: Result<
        Self,
        VaultError,
    >)
        ensures
            r == deposit_spec(data@, accounts@, key_view(derived)),
    {
        if data.len() != 9 {
            return Err(VaultError::MalformedInput);
        }
        let accounts = DepositAccounts::check(accounts, derived)?;
        let (_, rest) = data.split_at(1);
        let instruction_datas = DepositInstructionData::parse(rest)?;
        Ok(Deposit { accounts, instruction_datas })
    }

    /// Parses `data` and checks `accounts` against the vault that the owner
    /// and the bump in `data` derive under `program_id`.
    pub fn parse(data: &[u8], accounts: &[Account], program_id: &[u8; 32]) -> (r: Result<
        Self,
        VaultError,
    >)
        ensures
            data@.len() != 9 ==> r == Err::<Self, VaultError>(VaultError::MalformedInput),
            data@.len() == 9 ==> r == deposit_spec(
                data@,
                accounts@,
                requested_vault(accounts@, data@[0], program_id@),
            ),
    {
        if data.len() != 9 {
            return Err(VaultError::MalformedInput);
        }
        if accounts.len() != 3 {
            return Err(VaultError::MissingAccounts);
        }
        let derived = vault_address(&accounts[0].key, data[0], program_id);
        Deposit::check(data, accounts, derived)
    }

    /// The payer, the receiver and the amount of the transfer a deposit makes.
    pub open spec fn transfer_spec(&self) -> (Seq<u8>, Seq<u8>, u64) {
        (self.accounts.owner.key@, self.accounts.vault.key@, self.instruction_datas.amount)
    }

    /// The transfer of the deposited amount from the owner, who signed, into
    /// the vault.
    pub fn process(&mut self) -> (r: TransferRequest)
        ensures
            *final(self) == *old(self),
            (r.from@, r.to@, r.lamports) == old(self).transfer_spec(),
            r.authority is Signer,
    {
        TransferRequest {
            from: self.accounts.owner.key,
            to: self.accounts.vault.key,
            lamports: self.instruction_datas.amount,
            authority: Authority::Signer,
        }
    }
}

} // verus!
