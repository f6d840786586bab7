use vstd::prelude::*;

verus! {

/// Errors raised by the program itself.
#[derive(Clone, Copy, Debug, PartialEq, Eq, Structural)]
pub enum ErrorCode {
    /// The sealing computation did not complete successfully.
    AbortedComputation,
    /// No computation cluster is configured.
    ClusterNotSet,
}

/// Every way an instruction of this program can fail.
#[derive(Clone, Copy, Debug, PartialEq, Eq, Structural)]
pub enum ProgramError {
    /// An error of the program's own.
    Custom(ErrorCode),
    /// The account at the derived address is already allocated.
    AccountAlreadyInUse,
    /// The account data does not fit in the space reserved for it.
    AccountDidNotSerialize,
    /// An account does not sit at the address derived from its seeds.
    ConstraintSeeds,
}

} // verus!
