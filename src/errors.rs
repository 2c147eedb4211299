use vstd::prelude::*;

verus! {

/// Every way an operation of the library can be refused. A refused
/// operation leaves all records as they were.
#[derive(Clone, Copy, Debug, PartialEq, Eq, Structural)]
pub enum CustomError {
    /// The owner's token balance does not cover the deposit.
    InvalidTokenAmount,
    /// The deposit is below the namespace minimum (and is no pure extension).
    InvalidLockupAmount,
    /// A requested or stored timestamp breaks the lockup's time rules.
    InvalidTimestamp,
    /// The lockup that would result does not satisfy its invariant.
    InvalidLockup,
    /// A vote names a choice outside the proposal's choices.
    InvalidChoice,
    /// The owner has already voted on this proposal.
    DuplicateVote,
    /// An intermediate or final value does not fit its integer type.
    ArithmeticOverflow,
}

} // verus!
