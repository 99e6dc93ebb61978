use vstd::prelude::*;

verus! {

/// The domain tag mixed into every vault derivation: the bytes of "vault".
pub open spec fn vault_tag() -> Seq<u8> {
    seq![118u8, 97u8, 117u8, 108u8, 116u8]
}

/// The seed list from which the vault of `owner` with `bump` is derived.
pub open spec fn vault_seeds(owner: Seq<u8>, bump: u8) -> Seq<Seq<u8>> {
    seq![vault_tag(), owner, seq![bump]]
}

/// The program derived address of `seeds` under `program_id`, or `None`
/// where the host refuses the combination (the hash lands on the curve, or a
/// seed is too long).
pub uninterp spec fn program_address(seeds: Seq<Seq<u8>>, program_id: Seq<u8>) -> Option<Seq<u8>>;

/// The view of an optional key.
pub open spec fn key_view(k: Option<[u8; 32]>) -> Option<Seq<u8>> {
    match k {
        Some(a) => Some(a@),
        None => None,
    }
}

/// The derivation that a request with `accounts` and `bump` is checked
/// against: that of the first account's key, where there are three accounts.
pub open spec fn requested_vault(accounts: Seq<crate::account::Account>, bump: u8, program_id: Seq<u8>) -> Option<Seq<u8>> {
    if accounts.len() == 3 {
        program_address(vault_seeds(accounts[0].key@, bump), program_id)
    } else {
        None
    }
}

/// The domain tag as bytes.
pub fn seed() -> (r: [u8; 5])
    ensures
        r@ == vault_tag(),
{
    let r: [u8; 5] = [118u8, 97u8, 117u8, 108u8, 116u8];
    assert(r@ =~= vault_tag());
    r
}

/// Relies on pinocchio::pubkey::create_program_address: the runtime derives
/// the address of three seeds under a program id, a function of those bytes
/// alone. Off-chain builds of pinocchio cannot compute it and panic instead.
#[verifier::external_body]
fn create_program_address(tag: &[u8; 5], owner: &[u8; 32], bump: u8, program_id: &[u8; 32]) -> (r:
    Option<[u8; 32]>)
    ensures
        key_view(r) == program_address(seq![tag@, owner@, seq![bump]], program_id@),
{
    pinocchio::pubkey::create_program_address(&[tag, owner, &[bump]], program_id).ok()
}

/// The vault address of `owner` and `bump` under `program_id`, if the host
/// accepts that derivation.
pub fn vault_address(owner: &[u8; 32], bump: u8, program_id: &[u8; 32]) -> (r: Option<[u8; 32]>)
    ensures
        key_view(r) == program_address(vault_seeds(owner@, bump), program_id@),
{
    let tag = seed();
    create_program_address(&tag, owner, bump, program_id)
}

} // verus!
