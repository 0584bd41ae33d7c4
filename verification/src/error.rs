use vstd::prelude::*;

verus! {

/// Why an instruction is refused before its handler runs.
#[derive(Clone, Copy, Debug, PartialEq, Eq, Structural)]
pub enum ErrorCode {
    /// An account marked `mut` is not writable.
    ConstraintMut,
    /// A program account is not the program its type names.
    InvalidProgramId,
    /// A `constraint = ...` on an account does not hold.
    ConstraintRaw,
    /// An account's address is not the one its seeds derive.
    ConstraintSeeds,
    /// No bump seed makes the seeds derive an address.
    BumpSeedNotFound,
    /// The signing account did not sign.
    AccountNotSigner,
    /// An account to be created is already allocated.
    AccountAlreadyInUse,
    /// An account's data does not fit in the space allocated for it.
    AccountDidNotSerialize,
}

} // verus!
