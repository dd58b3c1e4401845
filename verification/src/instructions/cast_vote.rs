use crate::derivation::{derive_vote_record_key, key_bytes, vote_record_address};
use crate::errors::VotingError;
use crate::states::{lemma_sum_of_update, sum_of, Identity, Poll, VoteRecord, OPTIONS_COUNT};
use vstd::prelude::*;

verus! {

/// What the casting of a vote works on.
#[derive(Clone, Copy, Debug, PartialEq, Eq)]
pub struct CastVote {
    /// The poll voted on.
    pub poll: Poll,
    /// The key under which the poll is stored.
    pub poll_key: Identity,
    /// The record that was looked up for this voter and poll: blank if the
    /// voter has not voted on the poll.
    pub vote_record: VoteRecord,
    /// The key under which that record was looked up.
    pub vote_record_key: Identity,
    /// Who votes.
    pub voter: Identity,
    /// The program under whose name keys are derived.
    pub program_id: Identity,
}

impl Poll {
    /// Whether the counters that a vote for `option_index` raises are below
    /// their greatest value.
    pub open spec fn spec_has_room(&self, option_index: u8) -> bool {
        option_index < OPTIONS_COUNT ==> self.votes[option_index as int] < u64::MAX
            && self.total_votes < u64::MAX
    }

    /// This poll with one more vote for option `i`.
    pub open spec fn with_vote(self, i: int) -> Poll {
        Poll {
            votes: vstd::array::spec_array_update(self.votes, i, (self.votes[i] + 1) as u64),
            total_votes: (self.total_votes + 1) as u64,
            ..self
        }
    }

    /// Whether the counters that a vote for `option_index` raises are below
    /// their greatest value.
    #[verifier::when_used_as_spec(spec_has_room)]
    pub fn has_room(&self, option_index: u8) -> (b: bool)
        ensures
            b == self.spec_has_room(option_index),
    {
        if (option_index as usize) < OPTIONS_COUNT {
            self.votes[option_index as usize] < u64::MAX && self.total_votes < u64::MAX
        } else {
            true
        }
    }

    /// One more vote raises the option's counter and the total by one each,
    /// leaves the rest of the poll as it was, and keeps the invariant.
    pub proof fn lemma_with_vote(self, i: int)
        requires
            0 <= i < OPTIONS_COUNT,
            self.votes[i] < u64::MAX,
            self.total_votes < u64::MAX,
        ensures
            self.with_vote(i).votes@ == self.votes@.update(i, (self.votes[i] + 1) as u64),
            self.with_vote(i).total_votes == self.total_votes + 1,
            sum_of(self.with_vote(i).votes@) == sum_of(self.votes@) + 1,
            self.tally_consistent() ==> self.with_vote(i).tally_consistent(),
            self.wf() ==> self.with_vote(i).wf(),
    {
        lemma_sum_of_update(self.votes@, i, (self.votes[i] + 1) as u64);
    }
}

impl CastVote {
    /// Why the vote cannot be cast, or `None` if it can: the first of these
    /// that holds. `derived` is the key derived for this voter and poll.
    ///
    /// A vote is on record already; the record was looked up under a key
    /// other than the derived one (or there is no derived key); the poll is
    /// closed; it has expired; the option is none of its slots.
    pub open spec fn vote_error(
        &self,
        derived: Option<(Seq<u8>, u8)>,
        option_index: u8,
        now: i64,
    ) -> Option<VotingError> {
        if !self.vote_record.voter.is_null() {
            Some(VotingError::AlreadyVoted)
        } else if !(derived matches Some((key, _)) && key == self.vote_record_key@) {
            Some(VotingError::AlreadyVoted)
        } else if self.poll.is_poll_closed {
            Some(VotingError::PollClosed)
        } else if now >= self.poll.expiry {
            Some(VotingError::PollExpired)
        } else if option_index >= OPTIONS_COUNT {
            Some(VotingError::InvalidOptionIndex)
        } else {
            None
        }
    }

    /// `self` after the vote was cast: the record filled in, the option's
    /// counter and the total raised by one.
    pub open spec fn with_vote(self, option_index: u8, bump: u8) -> CastVote {
        CastVote {
            poll: self.poll.with_vote(option_index as int),
            vote_record: VoteRecord {
                voter: self.voter,
                poll: self.poll_key,
                option_index,
                bump,
            },
            ..self
        }
    }
}

impl CastVote {
    /// Runs the checks of a vote, in their order, and changes nothing.
    /// `derived` is the key derived for this voter and poll, with its bump
    /// seed.
    pub fn check(&self, derived: Option<(Identity, u8)>, option_index: u8, now: i64) -> (error:
        Option<VotingError>)
        ensures
            error == self.vote_error(key_bytes(derived), option_index, now),
    {
        if self.vote_record.is_cast() {
            return Some(VotingError::AlreadyVoted);
        }
        match derived {
            Some((key, _)) => {
                if key != self.vote_record_key {
                    proof {
                        if key@ == self.vote_record_key@ {
                            Identity::lemma_view_determines(key, self.vote_record_key);
                        }
                    }
                    return Some(VotingError::AlreadyVoted);
                }
            },
            None => {
                return Some(VotingError::AlreadyVoted);
            },
        }
        if self.poll.is_poll_closed {
            return Some(VotingError::PollClosed);
        }
        if now >= self.poll.expiry {
            return Some(VotingError::PollExpired);
        }
        if option_index as usize >= OPTIONS_COUNT {
            return Some(VotingError::InvalidOptionIndex);
        }
        None
    }
}

/// Casts the vote, given the key and the bump seed that were derived for this
/// voter and poll: runs the checks in their order and, if all pass, fills in
/// the record and counts the vote. On an error nothing changes.
///
/// A vote that passes the checks needs counters below their greatest value.
pub fn record_vote(
    ctx: &mut CastVote,
    derived: Option<(Identity, u8)>,
    option_index: u8,
    now: i64,
) -> (result: Result<(), VotingError>)
    requires
        old(ctx).vote_error(key_bytes(derived), option_index, now) is None ==> old(
            ctx,
        ).poll.has_room(option_index),
    ensures
        match old(ctx).vote_error(key_bytes(derived), option_index, now) {
            Some(error) => result == Err::<(), VotingError>(error) && *final(ctx) == *old(ctx),
            None => result == Ok::<(), VotingError>(()) && *final(ctx) == old(ctx).with_vote(
                option_index,
                derived.unwrap().1,
            ),
        },
        result is Err ==> *final(ctx) == *old(ctx),
        old(ctx).poll.tally_consistent() ==> final(ctx).poll.tally_consistent(),
        old(ctx).poll.wf() ==> final(ctx).poll.wf(),
        old(ctx).vote_record.is_cast() ==> result == Err::<(), VotingError>(
            VotingError::AlreadyVoted,
        ),
        option_index >= OPTIONS_COUNT ==> result is Err,
        now >= old(ctx).poll.expiry ==> result is Err,
        old(ctx).poll.is_poll_closed ==> result is Err,
{
    match ctx.check(derived, option_index, now) {
        Some(error) => Err(error),
        None => {
            proof {
                ctx.poll.lemma_with_vote(option_index as int);
            }
            ctx.vote_record = VoteRecord {
                voter: ctx.voter,
                poll: ctx.poll_key,
                option_index,
                bump: derived.unwrap().1,
            };
            ctx.poll.votes[option_index as usize] = ctx.poll.votes[option_index as usize] + 1;
            ctx.poll.total_votes = ctx.poll.total_votes + 1;
            assert(ctx.poll.votes =~= old(ctx).poll.with_vote(option_index as int).votes);
            Ok(())
        },
    }
}

/// Casts `ctx.voter`'s vote for option `option_index` at time `now`.
///
/// The checks run in this order, and the first that fails decides the error:
/// a vote is on the record already (`AlreadyVoted`); the record was looked up
/// under a key other than the one derived from the poll's key and the voter
/// (`AlreadyVoted`); the poll is closed (`PollClosed`); `now` is not before
/// its expiry (`PollExpired`); the option is none of its slots
/// (`InvalidOptionIndex`). If all pass, the record is filled in and the
/// option's counter and the total are raised by one. On an error nothing
/// changes.
///
/// A vote that passes the checks needs counters below their greatest value;
/// where the caller cannot know that, call [`try_cast_vote`].
pub fn cast_vote(ctx: &mut CastVote, option_index: u8, now: i64) -> (result: Result<
    (),
    VotingError,
>)
    requires
        old(ctx).vote_error(
            vote_record_address(old(ctx).program_id, old(ctx).poll_key, old(ctx).voter),
            option_index,
            now,
        ) is None ==> old(ctx).poll.has_room(option_index),
    ensures
        match old(ctx).vote_error(
            vote_record_address(old(ctx).program_id, old(ctx).poll_key, old(ctx).voter),
            option_index,
            now,
        ) {
            Some(error) => result == Err::<(), VotingError>(error) && *final(ctx) == *old(ctx),
            None => result == Ok::<(), VotingError>(()) && *final(ctx) == old(ctx).with_vote(
                option_index,
                vote_record_address(
                    old(ctx).program_id,
                    old(ctx).poll_key,
                    old(ctx).voter,
                ).unwrap().1,
            ),
        },
        result is Err ==> *final(ctx) == *old(ctx),
        old(ctx).poll.tally_consistent() ==> final(ctx).poll.tally_consistent(),
        old(ctx).poll.wf() ==> final(ctx).poll.wf(),
        old(ctx).vote_record.is_cast() ==> result == Err::<(), VotingError>(
            VotingError::AlreadyVoted,
        ),
        option_index >= OPTIONS_COUNT ==> result is Err,
        now >= old(ctx).poll.expiry ==> result is Err,
        old(ctx).poll.is_poll_closed ==> result is Err,
{
    let derived = derive_vote_record_key(&ctx.program_id, &ctx.poll_key, &ctx.voter);
    record_vote(ctx, derived, option_index, now)
}

/// Casts the vote as [`cast_vote`] does, unless it passes every check and a
/// counter that it would raise is at its greatest value: then it returns
/// `None` and changes nothing.
pub fn try_cast_vote(ctx: &mut CastVote, option_index: u8, now: i64) -> (result: Option<
    Result<(), VotingError>,
>)
    ensures
        match old(ctx).vote_error(
            vote_record_address(old(ctx).program_id, old(ctx).poll_key, old(ctx).voter),
            option_index,
            now,
        ) {
            Some(error) => result == Some(Err::<(), VotingError>(error)) && *final(ctx) == *old(
                ctx,
            ),
            None => if old(ctx).poll.has_room(option_index) {
                result == Some(Ok::<(), VotingError>(())) && *final(ctx) == old(ctx).with_vote(
                    option_index,
                    vote_record_address(
                        old(ctx).program_id,
                        old(ctx).poll_key,
                        old(ctx).voter,
                    ).unwrap().1,
                )
            } else {
                result is None && *final(ctx) == *old(ctx)
            },
        },
        !(result matches Some(Ok(_))) ==> *final(ctx) == *old(ctx),
        old(ctx).poll.tally_consistent() ==> final(ctx).poll.tally_consistent(),
        old(ctx).poll.wf() ==> final(ctx).poll.wf(),
{
    let derived = derive_vote_record_key(&ctx.program_id, &ctx.poll_key, &ctx.voter);
    if ctx.check(derived, option_index, now).is_none() && !ctx.poll.has_room(option_index) {
        None
    } else {
        Some(cast_vote(ctx, option_index, now))
    }
}

} // verus!
