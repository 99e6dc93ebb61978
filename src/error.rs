use vstd::prelude::*;

verus! {

/// Every way a deposit or a withdrawal can be refused.
#[derive(Clone, Copy, Debug, PartialEq, Eq, Structural)]
pub enum VaultError {
    /// The parameter bytes have the wrong length.
    MalformedInput,
    /// The account list does not hold exactly owner, vault and system program.
    MissingAccounts,
    /// The owner did not sign the request.
    NotSigner,
    /// The vault is not owned by the system program.
    WrongOwner,
    /// A deposit targets a vault that already holds a balance.
    NonEmptyVault,
    /// The supplied vault is not the address derived from owner and bump.
    AddressMismatch,
    /// A transfer would take more than the paying account holds.
    InsufficientBalance,
}

} // verus!
