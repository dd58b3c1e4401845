use vstd::prelude::*;

verus! {

/// Why a transition was rejected. A rejected transition changes no record.
#[derive(Clone, Copy, Debug, PartialEq, Eq, Structural)]
pub enum VotingError {
    /// The poll was closed by its authority before.
    PollAlreadyClosed,
    /// The poll is closed and takes no more votes.
    PollClosed,
    /// The poll's validity window has elapsed.
    PollExpired,
    /// The chosen option is not one of the poll's slots.
    InvalidOptionIndex,
    /// An expiry that does not lie in the future. No transition reports it:
    /// the validity window is fixed.
    InvalidExpiry,
    /// The requester is not the poll's authority.
    UnauthorizedAccess,
    /// A vote of this voter on this poll is on record, or the record handed
    /// in is not the one that belongs to this voter and poll.
    AlreadyVoted,
    /// The title does not fit its buffer.
    TitleTooLong,
    /// The description does not fit its buffer.
    DescriptionTooLong,
    /// An option's text does not fit its buffer.
    OptionTooLong,
    /// The number of options differs from the number of slots.
    OptionCountMismatch,
}

} // verus!
