use vstd::prelude::*;

use crate::error::VaultError;

verus! {

/// What the vault logic reads of one ledger account.
#[derive(Clone, Copy, Debug, PartialEq, Eq)]
pub struct Account {
    /// The account's address.
    pub key: [u8; 32],
    /// The program that owns the account.
    pub owner: [u8; 32],
    /// The account's native balance.
    pub lamports: u64,
    /// Whether the account signed the request.
    pub is_signer: bool,
}

/// The address of the system program, which holds plain balance accounts:
/// thirty-two zero bytes.
pub open spec fn system_program_id() -> Seq<u8> {
    Seq::new(32, |i: int| 0u8)
}

/// Relies on pinocchio_system::ID: the system program's address, declared
/// there as the base-58 text of thirty-two ones, that is thirty-two zero bytes.
#[verifier::external_body]
pub(crate) fn system_program_key() -> (r: [u8; 32])
    ensures
        r@ == system_program_id(),
{
    pinocchio_system::ID
}

/// Whether two addresses are the same.
pub(crate) fn same_key(a: &[u8; 32], b: &[u8; 32]) -> (r: bool)
    ensures
        r == (a@ == b@),
{
    let mut i: usize = 0;
    while i < 32
        invariant
            0 <= i <= 32,
            a@.len() == 32,
            b@.len() == 32,
            forall|j: int| 0 <= j < i ==> a@[j] == b@[j],
        decreases 32 - i,
    {
        if a[i] != b[i] {
            return false;
        }
        i = i + 1;
    }
    assert(a@ =~= b@);
    true
}

/// The bytes of an address as a vector.
pub(crate) fn key_bytes(k: &[u8; 32]) -> (r: Vec<u8>)
    ensures
        r@ == k@,
{
    let mut r: Vec<u8> = Vec::new();
    let mut i: usize = 0;
    while i < 32
        invariant
            0 <= i <= 32,
            k@.len() == 32,
            r@ =~= k@.subrange(0, i as int),
        decreases 32 - i,
    {
        r.push(k[i]);
        i = i + 1;
    }
    assert(r@ =~= k@);
    r
}

/// The seeds through which this program signs for an account that it derived.
#[derive(Debug)]
pub struct DerivedAuthorization {
    /// The seeds of the derivation, in order.
    pub seeds: Vec<Vec<u8>>,
}

impl DerivedAuthorization {
    /// The seeds as byte sequences.
    pub open spec fn seeds_view(&self) -> Seq<Seq<u8>> {
        self.seeds@.map_values(|s: Vec<u8>| s@)
    }
}

/// Who authorizes the debit of a transfer.
#[derive(Debug)]
pub enum Authority {
    /// The paying account signed the request itself.
    Signer,
    /// This program signs for the paying account by presenting its seeds.
    Derived(DerivedAuthorization),
}

/// A balance transfer that an operation asks the host ledger to make.
#[derive(Debug)]
pub struct TransferRequest {
    /// The paying account.
    pub from: [u8; 32],
    /// The receiving account.
    pub to: [u8; 32],
    /// The amount moved.
    pub lamports: u64,
    /// The authorization presented for the debit.
    pub authority: Authority,
}

/// The two accounts after a transfer of `amount` from `from` to `to`, or the
/// error the ledger reports.
pub open spec fn transferred(from: Account, to: Account, amount: u64) -> Result<(Account, Account), VaultError> {
    if from.lamports < amount {
        Err(VaultError::InsufficientBalance)
    } else {
        Ok((
            Account { lamports: (from.lamports - amount) as u64, ..from },
            Account { lamports: (to.lamports + amount) as u64, ..to },
        ))
    }
}

impl TransferRequest {
    /// Moves the requested amount between two ledger accounts, all or
    /// nothing, as the host ledger does once it has accepted the authority.
    pub fn apply(&self, from: &mut Account, to: &mut Account) -> (r: Result<(), VaultError>)
        requires
            old(from).key@ == self.from@,
            old(to).key@ == self.to@,
            old(to).lamports + self.lamports <= u64::MAX,
        ensures
            match transferred(*old(from), *old(to), self.lamports) {
                Ok(p) => r is Ok && *final(from) == p.0 && *final(to) == p.1,
                Err(e) => r == Err::<(), VaultError>(e) && *final(from) == *old(from) && *final(to)
                    == *old(to),
            },
    {
        if from.lamports < self.lamports {
            return Err(VaultError::InsufficientBalance);
        }
        from.lamports = from.lamports - self.lamports;
        to.lamports = to.lamports + self.lamports;
        Ok(())
    }
}

} // verus!
