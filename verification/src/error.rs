use vstd::prelude::*;

verus! {

/// Failure kinds surfaced to the caller. Every failure is detected before any
/// mutation, so a handler that returns one of these leaves all records unchanged.
#[derive(Clone, Copy, Debug, PartialEq, Eq)]
pub enum ProgramError {
    /// The supplied 128-bit identifier does not carry the required version tag.
    InvalidIdentifier,
    /// A date-ordering or deadline-range bound was violated.
    InvalidEndDate,
    /// The caller's spendable stake is below the configured event price.
    StakeTooLow,
    /// The caller is not authorized for the attempted transition.
    AuthorityMismatch,
    /// An update was attempted at or after the event's start date.
    EventAlreadyStarted,
    /// Completion was attempted at or before the event's end date.
    EventIsNotOver,
}

} // verus!
