use vstd::prelude::*;

verus! {

/// The single structured error each operation reports when a validation
/// step fails; every failure aborts the whole operation with no partial
/// effect.
#[derive(Clone, Copy, Debug, PartialEq, Eq, Structural)]
pub enum VotingError {
    /// Poll creation was given an over-long question or a window whose
    /// start does not strictly precede its end.
    InvalidConfiguration,
    /// The operation ran at a time outside the poll's authorized window.
    NotInTimeWindow,
    /// A vote was attempted before the poll was started.
    NotActive,
    /// The poll was asked to start a second time.
    AlreadyActive,
    /// The caller's identity does not match the identity the operation
    /// is gated on.
    Unauthorized,
    /// The voter holds no pass in the poll's token class.
    NoPass,
    /// The voter's record already has its has-voted flag set.
    AlreadyVoted,
    /// A counter increment would exceed the maximum representable value.
    ArithmeticOverflow,
    /// A voter state already exists for the (poll, voter) pair.
    DuplicateRegistration,
    /// A poll already exists under the chosen poll id.
    DuplicatePoll,
}

} // verus!
