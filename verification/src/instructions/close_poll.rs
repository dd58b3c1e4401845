use crate::errors::VotingError;
use crate::states::{Identity, Poll};
use vstd::prelude::*;

verus! {

/// What the closing of a poll works on.
#[derive(Clone, Copy, Debug, PartialEq, Eq)]
pub struct ClosePoll {
    /// The poll to be closed.
    pub poll: Poll,
    /// Who asks for the poll to be closed.
    pub authority: Identity,
}

impl Poll {
    /// This poll, closed.
    pub open spec fn closed(self) -> Poll {
        Poll { is_poll_closed: true, ..self }
    }
}

impl ClosePoll {
    /// Why the poll cannot be closed, or `None` if it can: the requester is
    /// not its authority, or else it is closed already. Whether the poll has
    /// expired plays no part.
    pub open spec fn close_error(&self) -> Option<VotingError> {
        if self.poll.authority != self.authority {
            Some(VotingError::UnauthorizedAccess)
        } else if self.poll.is_poll_closed {
            Some(VotingError::PollAlreadyClosed)
        } else {
            None
        }
    }

    /// `self` after the poll was closed.
    pub open spec fn closed(self) -> ClosePoll {
        ClosePoll { poll: self.poll.closed(), ..self }
    }
}

/// Closes the poll for its authority. Nothing but the closed flag changes,
/// and on an error nothing changes.
pub fn close_poll(ctx: &mut ClosePoll) -> (result: Result<(), VotingError>)
    ensures
        match old(ctx).close_error() {
            Some(error) => result == Err::<(), VotingError>(error) && *final(ctx) == *old(ctx),
            None => result == Ok::<(), VotingError>(()) && *final(ctx) == old(ctx).closed(),
        },
        result is Err ==> *final(ctx) == *old(ctx),
        final(ctx).poll.is_poll_closed == (old(ctx).poll.is_poll_closed || result is Ok),
        old(ctx).poll.tally_consistent() ==> final(ctx).poll.tally_consistent(),
        old(ctx).poll.wf() ==> final(ctx).poll.wf(),
{
    if ctx.poll.authority != ctx.authority {
        return Err(VotingError::UnauthorizedAccess);
    }
    if ctx.poll.is_poll_closed {
        return Err(VotingError::PollAlreadyClosed);
    }
    ctx.poll.is_poll_closed = true;
    Ok(())
}

} // verus!
