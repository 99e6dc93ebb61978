use vstd::prelude::*;

use crate::account::{
    key_bytes, same_key, system_program_id, system_program_key, Account, Authority,
    DerivedAuthorization, TransferRequest,
};
use crate::address::{key_view, requested_vault, seed, vault_address, vault_seeds};
use crate::error::VaultError;

verus! {

/// The outcome of checking a withdrawal's accounts, given the derivation
/// result `derived` for the owner and the claimed bump.
pub open spec fn withdraw_accounts_spec(accounts: Seq<Account>, derived: Option<Seq<u8>>) -> Result<
    WithdrawAccounts,
    VaultError,
> {
    if accounts.len() != 3 {
        Err(VaultError::MissingAccounts)
    } else if !accounts[0].is_signer {
        Err(VaultError::NotSigner)
    } else if derived != Some(accounts[1].key@) {
        Err(VaultError::AddressMismatch)
    } else if accounts[1].owner@ != system_program_id() {
        Err(VaultError::WrongOwner)
    } else {
        Ok(WithdrawAccounts { owner: accounts[0], vault: accounts[1] })
    }
}

/// The outcome of parsing a withdrawal's parameter bytes `data` (the bump
/// alone) and checking its accounts.
pub open spec fn withdraw_spec(data: Seq<u8>, accounts: Seq<Account>, derived: Option<Seq<u8>>) -> Result<
    Withdraw,
    VaultError,
> {
    if data.len() != 1 {
        Err(VaultError::MalformedInput)
    } else {
        match withdraw_accounts_spec(accounts, derived) {
            Err(e) => Err(e),
            Ok(a) => Ok(Withdraw { accounts: a, bump: data[0] }),
        }
    }
}

/// The accounts of a withdrawal: the signing owner and its vault.
#[derive(Clone, Copy, Debug, PartialEq, Eq)]
pub struct WithdrawAccounts {
    pub owner: Account,
    pub vault: Account,
}

impl WithdrawAccounts {
    /// Checks `accounts` (owner, vault, system program) against `derived`,
    /// the address that the owner and the claimed bump derive.
    pub fn check(accounts: &[Account], derived: Option<[u8; 32]>) -> (r: Result<Self, VaultError>)
        ensures
            r == withdraw_accounts_spec(accounts@, key_view(derived)),
    {
        if accounts.len() != 3 {
            return Err(VaultError::MissingAccounts);
        }
        let owner = accounts[0];
        let vault = accounts[1];
        if !owner.is_signer {
            return Err(VaultError::NotSigner);
        }
        match derived {
            Some(k) => {
                if !same_key(&k, &vault.key) {
                    return Err(VaultError::AddressMismatch);
                }
            },
            None => {
                return Err(VaultError::AddressMismatch);
            },
        }
        let system = system_program_key();
        if !same_key(&vault.owner, &system) {
            return Err(VaultError::WrongOwner);
        }
        Ok(WithdrawAccounts { owner, vault })
    }

    /// Checks `accounts` against the vault that the owner and `bump` derive
    /// under `program_id`.
    pub fn parse(bump: u8, accounts: &[Account], program_id: &[u8; 32]) -> (r: Result<Self, VaultError>)
        ensures
            r == withdraw_accounts_spec(accounts@, requested_vault(accounts@, bump, program_id@)),
    {
        if accounts.len() != 3 {
            return Err(VaultError::MissingAccounts);
        }
        let derived = vault_address(&accounts[0].key, bump, program_id);
        WithdrawAccounts::check(accounts, derived)
    }
}

/// A checked withdrawal, ready to request its transfer.
#[derive(Clone, Copy, Debug, PartialEq, Eq)]
pub struct Withdraw {
    pub accounts: WithdrawAccounts,
    pub bump: u8,
}

impl Withdraw {
    /// The discriminator byte that routes a request to a withdrawal.
    pub const DISCRIMINATOR: u8 = 1;

    /// Parses `data` and checks `accounts` against `derived`, the address that
    /// the owner and the bump in `data` derive.
    pub fn check(data: &[u8], accounts: &[Account], derived: Option<[u8; 32]>) -> (r: Result<
        Self,
        VaultError,
    >)
        ensures
            r == withdraw_spec(data@, accounts@, key_view(derived)),
    {
        if data.len() != 1 {
            return Err(VaultError::MalformedInput);
        }
        let accounts = WithdrawAccounts::check(accounts, derived)?;
        Ok(Withdraw { accounts, bump: data[0] })
    }

    /// Parses `data` and checks `accounts` against the vault that the owner
    /// and the bump in `data` derive under `program_id`.
    pub fn parse(data: &[u8], accounts: &[Account], program_id: &[u8; 32]) -> (r: Result<
        Self,
        VaultError,
    >)
        ensures
            data@.len() != 1 ==> r == Err::<Self, VaultError>(VaultError::MalformedInput),
            data@.len() == 1 ==> r == withdraw_spec(
                data@,
                accounts@,
                requested_vault(accounts@, data@[0], program_id@),
            ),
    {
        if data.len() != 1 {
            return Err(VaultError::MalformedInput);
        }
        if accounts.len() != 3 {
            return Err(VaultError::MissingAccounts);
        }
        let derived = vault_address(&accounts[0].key, data[0], program_id);
        Withdraw::check(data, accounts, derived)
    }

    /// The payer, the receiver and the amount of the transfer a withdrawal
    /// makes.
    pub open spec fn transfer_spec(&self) -> (Seq<u8>, Seq<u8>, u64) {
        (self.accounts.vault.key@, self.accounts.owner.key@, self.accounts.vault.lamports)
    }

    /// The transfer of the vault's whole balance back to the owner, signed for
    /// the vault by presenting the seeds it was derived from.
    pub fn process(&mut self) -> (r: TransferRequest)
        ensures
            *final(self) == *old(self),
            (r.from@, r.to@, r.lamports) == old(self).transfer_spec(),
            r.authority matches Authority::Derived(a) && a.seeds_view() == vault_seeds(
                old(self).accounts.owner.key@,
                old(self).bump,
            ),
    {
        let mut seeds: Vec<Vec<u8>> = Vec::new();
        let tag = seed();
        let mut tag_bytes: Vec<u8> = Vec::new();
        let mut i: usize = 0;
        while i < 5
            invariant
                0 <= i <= 5,
                tag@.len() == 5,
                tag_bytes@ =~= tag@.subrange(0, i as int),
            decreases 5 - i,
        {
            tag_bytes.push(tag[i]);
            i = i + 1;
        }
        assert(tag_bytes@ =~= tag@);
        let owner_bytes = key_bytes(&self.accounts.owner.key);
        let mut bump_bytes: Vec<u8> = Vec::new();
        bump_bytes.push(self.bump);
        assert(bump_bytes@ =~= seq![self.bump]);
        seeds.push(tag_bytes);
        seeds.push(owner_bytes);
        seeds.push(bump_bytes);
        let authority = DerivedAuthorization { seeds };
        assert(authority.seeds@ =~= seq![tag_bytes, owner_bytes, bump_bytes]);
        assert(authority.seeds_view() =~= vault_seeds(self.accounts.owner.key@, self.bump));
        TransferRequest {
            from: self.accounts.vault.key,
            to: self.accounts.owner.key,
            lamports: self.accounts.vault.lamports,
            authority: Authority::Derived(authority),
        }
    }
}

} // verus!
