use vstd::prelude::*;

use crate::account::{system_program_id, transferred, Account};
use crate::address::{program_address, vault_seeds};
use crate::deposit::{deposit_spec, le_u64};
use crate::error::VaultError;
use crate::withdraw::withdraw_spec;

verus! {

/// A deposit that passes its checks, followed by a withdrawal with the same
/// bump, returns the owner's balance to what it was and leaves the vault at
/// zero; the withdrawal moves exactly the deposited amount back.
pub proof fn lemma_deposit_then_withdraw(data: Seq<u8>, accounts: Seq<Account>, derived: Option<Seq<u8>>)
    requires
        deposit_spec(data, accounts, derived) is Ok,
        accounts[0].lamports >= le_u64(data.subrange(1, 9)),
    ensures
        ({
            let d = deposit_spec(data, accounts, derived)->Ok_0;
            let amount = d.transfer_spec().2;
            &&& d.transfer_spec().0 == accounts[0].key@
            &&& d.transfer_spec().1 == accounts[1].key@
            &&& transferred(accounts[0], accounts[1], amount) is Ok
            &&& {
                let owner = transferred(accounts[0], accounts[1], amount)->Ok_0.0;
                let vault = transferred(accounts[0], accounts[1], amount)->Ok_0.1;
                let w = withdraw_spec(seq![data[0]], seq![owner, vault, accounts[2]], derived);
                &&& w is Ok
                &&& w->Ok_0.transfer_spec() == (vault.key@, owner.key@, amount)
                &&& transferred(vault, owner, amount) is Ok
                &&& transferred(vault, owner, amount)->Ok_0.0.lamports == 0
                &&& transferred(vault, owner, amount)->Ok_0.1.lamports == accounts[0].lamports
            }
        }),
{
}

/// A withdrawal from a vault that holds nothing passes its checks whenever the
/// request is otherwise valid, and transfers zero.
pub proof fn lemma_withdraw_empty(data: Seq<u8>, accounts: Seq<Account>, derived: Option<Seq<u8>>)
    requires
        data.len() == 1,
        accounts.len() == 3,
        accounts[0].is_signer,
        derived == Some(accounts[1].key@),
        accounts[1].owner@ == system_program_id(),
        accounts[1].lamports == 0,
    ensures
        withdraw_spec(data, accounts, derived) is Ok,
        withdraw_spec(data, accounts, derived)->Ok_0.transfer_spec().2 == 0,
{
}

/// The vault derivation is a function of owner, bump and program: equal
/// inputs give equal results. Distinct owners or bumps hand the host distinct
/// seed lists.
pub proof fn lemma_derivation_deterministic(
    owner1: Seq<u8>,
    bump1: u8,
    owner2: Seq<u8>,
    bump2: u8,
    program_id: Seq<u8>,
)
    ensures
        owner1 == owner2 && bump1 == bump2 ==> program_address(vault_seeds(owner1, bump1), program_id)
            == program_address(vault_seeds(owner2, bump2), program_id),
        owner1 != owner2 || bump1 != bump2 ==> vault_seeds(owner1, bump1) != vault_seeds(owner2, bump2),
{
    if vault_seeds(owner1, bump1) == vault_seeds(owner2, bump2) {
        assert(vault_seeds(owner1, bump1)[1] == owner1);
        assert(vault_seeds(owner2, bump2)[1] == owner2);
        assert(vault_seeds(owner1, bump1)[2][0] == bump1);
        assert(vault_seeds(owner2, bump2)[2][0] == bump2);
    }
}

/// A signed deposit or withdrawal of well-formed length whose vault is not the
/// address derived from owner and bump fails with an address mismatch, whatever
/// the vault holds and whoever owns it.
pub proof fn lemma_wrong_vault_rejected(
    deposit_data: Seq<u8>,
    withdraw_data: Seq<u8>,
    accounts: Seq<Account>,
    derived: Option<Seq<u8>>,
)
    requires
        deposit_data.len() == 9,
        withdraw_data.len() == 1,
        accounts.len() == 3,
        accounts[0].is_signer,
        derived != Some(accounts[1].key@),
    ensures
        deposit_spec(deposit_data, accounts, derived) == Err::<crate::deposit::Deposit, VaultError>(
            VaultError::AddressMismatch,
        ),
        withdraw_spec(withdraw_data, accounts, derived) == Err::<crate::withdraw::Withdraw, VaultError>(
            VaultError::AddressMismatch,
        ),
{
}

/// A signed deposit of well-formed length into its own system-owned vault
/// fails with a non-empty vault error when the vault already holds a balance.
pub proof fn lemma_redeposit_rejected(data: Seq<u8>, accounts: Seq<Account>, derived: Option<Seq<u8>>)
    requires
        data.len() == 9,
        accounts.len() == 3,
        accounts[0].is_signer,
        derived == Some(accounts[1].key@),
        accounts[1].owner@ == system_program_id(),
        accounts[1].lamports != 0,
    ensures
        deposit_spec(data, accounts, derived) == Err::<crate::deposit::Deposit, VaultError>(
            VaultError::NonEmptyVault,
        ),
{
}

/// A deposit or withdrawal of well-formed length with three accounts whose
/// owner has not signed fails with a missing signature, whatever else it holds.
pub proof fn lemma_unsigned_rejected(
    deposit_data: Seq<u8>,
    withdraw_data: Seq<u8>,
    accounts: Seq<Account>,
    derived: Option<Seq<u8>>,
)
    requires
        deposit_data.len() == 9,
        withdraw_data.len() == 1,
        accounts.len() == 3,
        !accounts[0].is_signer,
    ensures
        deposit_spec(deposit_data, accounts, derived) == Err::<crate::deposit::Deposit, VaultError>(
            VaultError::NotSigner,
        ),
        withdraw_spec(withdraw_data, accounts, derived) == Err::<crate::withdraw::Withdraw, VaultError>(
            VaultError::NotSigner,
        ),
{
}

} // verus!
