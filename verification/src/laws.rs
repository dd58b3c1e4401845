//! What holds of the transitions, whatever they are applied to.

use crate::errors::VotingError;
use crate::instructions::cast_vote::CastVote;
use crate::instructions::close_poll::ClosePoll;
use crate::instructions::initialize_poll::input_error;
use crate::states::{
    lemma_sum_of_bounds, sum_of, Identity, Poll, PollView, DESCRIPTION_LENGTH, OPTIONS_COUNT, OPTION_LENGTH,
    TITLE_LENGTH,
};
use vstd::prelude::*;

verus! {

/// A poll that was just opened has no votes: its total is zero and so is the
/// sum of its counters.
pub proof fn law_opened_poll_has_no_votes(
    poll: Poll,
    authority: Identity,
    title: Seq<u8>,
    description: Seq<u8>,
    options: Seq<Seq<u8>>,
    expiry: int,
    bump: u8,
)
    requires
        poll.is_opened_with(authority, title, description, options, expiry, bump),
    ensures
        poll.total_votes == 0,
        sum_of(poll.votes@) == 0,
        poll@.total_votes == 0,
        forall|i: int| 0 <= i < OPTIONS_COUNT ==> poll@.votes[i] == 0,
{
    poll.lemma_opened(authority, title, description, options, expiry, bump);
}

/// The total of a poll is the sum of its counters from the day it is opened
/// and after every vote and every closing.
pub proof fn law_total_is_sum_of_votes(
    poll: Poll,
    authority: Identity,
    title: Seq<u8>,
    description: Seq<u8>,
    options: Seq<Seq<u8>>,
    expiry: int,
    bump: u8,
    option_index: u8,
)
    ensures
        poll.is_opened_with(authority, title, description, options, expiry, bump)
            ==> poll.tally_consistent(),
        poll.tally_consistent() && option_index < OPTIONS_COUNT && poll.has_room(option_index)
            ==> poll.with_vote(option_index as int).tally_consistent(),
        poll.tally_consistent() ==> poll.closed().tally_consistent(),
{
    if poll.is_opened_with(authority, title, description, options, expiry, bump) {
        poll.lemma_opened(authority, title, description, options, expiry, bump);
    }
    if option_index < OPTIONS_COUNT && poll.has_room(option_index) {
        poll.lemma_with_vote(option_index as int);
    }
}

/// A vote for an option that is none of the poll's slots fails: with
/// `InvalidOptionIndex` where no earlier check fails, and with the error of
/// the first earlier check that does, else. No counter changes.
pub proof fn law_invalid_option_is_rejected(
    ctx: CastVote,
    derived: Option<(Seq<u8>, u8)>,
    option_index: u8,
    now: i64,
)
    requires
        option_index >= OPTIONS_COUNT,
    ensures
        ctx.vote_error(derived, option_index, now) is Some,
        ctx.vote_error(derived, option_index, now) == Some(VotingError::InvalidOptionIndex) <==> (
        !ctx.vote_record.is_cast() && (derived matches Some((key, _)) && key
            == ctx.vote_record_key@) && !ctx.poll.is_poll_closed && now < ctx.poll.expiry),
{
}

/// A vote at or after the poll's expiry fails, whether or not the poll was
/// ever closed and whatever option it names: with `PollExpired` where the
/// record is blank, was looked up under its derived key, and the poll is not
/// closed.
pub proof fn law_expired_poll_takes_no_votes(
    ctx: CastVote,
    derived: Option<(Seq<u8>, u8)>,
    option_index: u8,
    now: i64,
)
    requires
        now >= ctx.poll.expiry,
    ensures
        ctx.vote_error(derived, option_index, now) is Some,
        ctx.vote_error(derived, option_index, now) == Some(VotingError::PollExpired) <==> (
        !ctx.vote_record.is_cast() && (derived matches Some((key, _)) && key
            == ctx.vote_record_key@) && !ctx.poll.is_poll_closed),
{
}

/// A closed poll takes no votes either.
pub proof fn law_closed_poll_takes_no_votes(
    ctx: CastVote,
    derived: Option<(Seq<u8>, u8)>,
    option_index: u8,
    now: i64,
)
    requires
        ctx.poll.is_poll_closed,
    ensures
        ctx.vote_error(derived, option_index, now) is Some,
        ctx.vote_error(derived, option_index, now) == Some(VotingError::PollClosed) <==> (
        !ctx.vote_record.is_cast() && (derived matches Some((key, _)) && key
            == ctx.vote_record_key@)),
{
}

/// Only the authority closes a poll, and only once: anyone else is refused
/// with `UnauthorizedAccess`, and after the authority has closed the poll its
/// next request is refused with `PollAlreadyClosed`. That the poll has
/// expired stops nobody from closing it.
pub proof fn law_poll_closes_once(ctx: ClosePoll)
    ensures
        ctx.authority != ctx.poll.authority ==> ctx.close_error() == Some(
            VotingError::UnauthorizedAccess,
        ),
        ctx.close_error() is None ==> ctx.closed().close_error() == Some(
            VotingError::PollAlreadyClosed,
        ),
        ctx.close_error() is None <==> ctx.authority == ctx.poll.authority
            && !ctx.poll.is_poll_closed,
        ctx.close_error() is None ==> ctx.closed().poll.is_poll_closed,
{
}

/// Texts are taken exactly as long as they fit their buffers: up to the
/// capacity they are accepted, and from one byte over it they are rejected.
pub proof fn law_texts_fit_or_are_rejected(
    title: Seq<u8>,
    description: Seq<u8>,
    options: Seq<Seq<u8>>,
)
    ensures
        input_error(title, description, options) is None <==> (title.len() <= TITLE_LENGTH
            && description.len() <= DESCRIPTION_LENGTH && options.len() == OPTIONS_COUNT
            && forall|i: int| 0 <= i < options.len() ==> (#[trigger] options[i]).len() <= OPTION_LENGTH),
        title.len() > TITLE_LENGTH ==> input_error(title, description, options) == Some(
            VotingError::TitleTooLong,
        ),
        title.len() <= TITLE_LENGTH && description.len() > DESCRIPTION_LENGTH ==> input_error(
            title,
            description,
            options,
        ) == Some(VotingError::DescriptionTooLong),
{
}

/// What was written when a poll was opened is read back from it unchanged:
/// its title, its description and each option, byte for byte, whatever their
/// lengths up to the capacity of their buffers.
pub proof fn law_texts_read_back(
    poll: Poll,
    authority: Identity,
    title: Seq<u8>,
    description: Seq<u8>,
    options: Seq<Seq<u8>>,
    expiry: int,
    bump: u8,
)
    requires
        poll.is_opened_with(authority, title, description, options, expiry, bump),
        options.len() == OPTIONS_COUNT,
    ensures
        poll.title_text() == title,
        poll.description_text() == description,
        forall|i: int| 0 <= i < OPTIONS_COUNT ==> #[trigger] poll.option_text(i) == options[i],
        poll@ == (PollView {
            authority: authority@,
            title,
            description,
            options,
            votes: Seq::new(OPTIONS_COUNT as nat, |i: int| 0nat),
            total_votes: 0,
            expiry,
            is_closed: false,
        }),
{
    poll.lemma_opened(authority, title, description, options, expiry, bump);
    assert(poll@.options =~= options);
    assert(poll@.votes =~= Seq::new(OPTIONS_COUNT as nat, |i: int| 0nat));
}

/// Two polls opened with the same values are the same poll: nothing of a
/// record is left open when it is written.
pub proof fn law_opened_poll_is_determined(
    first: Poll,
    second: Poll,
    authority: Identity,
    title: Seq<u8>,
    description: Seq<u8>,
    options: Seq<Seq<u8>>,
    expiry: int,
    bump: u8,
)
    requires
        first.is_opened_with(authority, title, description, options, expiry, bump),
        second.is_opened_with(authority, title, description, options, expiry, bump),
    ensures
        first == second,
{
    assert(first.title =~= second.title);
    assert(first.description =~= second.description);
    assert(first.option_lengths =~= second.option_lengths);
    assert(first.votes =~= second.votes);
    assert forall|i: int| 0 <= i < OPTIONS_COUNT implies first.options[i] == second.options[i] by {
        assert(crate::states::is_zero_padded(first.options[i]@, options[i]));
        assert(crate::states::is_zero_padded(second.options[i]@, options[i]));
        assert(first.options[i] =~= second.options[i]);
    }
    assert(first.options =~= second.options);
}

/// A vote changes the poll's counters and nothing else of what the poll
/// says; a closing changes the closed flag and nothing else.
pub proof fn law_transitions_change_only_their_part(poll: Poll, option_index: u8)
    requires
        option_index < OPTIONS_COUNT,
        poll.has_room(option_index),
    ensures
        poll.with_vote(option_index as int)@ == (PollView {
            votes: poll@.votes.update(
                option_index as int,
                poll@.votes[option_index as int] + 1,
            ),
            total_votes: poll@.total_votes + 1,
            ..poll@
        }),
        poll.closed()@ == (PollView { is_closed: true, ..poll@ }),
{
    poll.lemma_with_vote(option_index as int);
    let voted = poll.with_vote(option_index as int);
    assert(voted@.votes =~= poll@.votes.update(
        option_index as int,
        poll@.votes[option_index as int] + 1,
    ));
    assert(voted@.options =~= poll@.options);
    assert(poll.closed()@.options =~= poll@.options);
    assert(poll.closed()@.votes =~= poll@.votes);
}

/// A poll only grows: a vote lowers no counter and a closing touches none,
/// the closed flag is never taken back, and the expiry stays what it was when
/// the poll was opened.
pub proof fn law_poll_only_grows(poll: Poll, option_index: u8)
    requires
        option_index < OPTIONS_COUNT,
        poll.has_room(option_index),
    ensures
        forall|i: int|
            0 <= i < OPTIONS_COUNT ==> poll.votes[i] <= #[trigger] poll.with_vote(
                option_index as int,
            ).votes[i],
        poll.total_votes <= poll.with_vote(option_index as int).total_votes,
        poll.with_vote(option_index as int).is_poll_closed == poll.is_poll_closed,
        poll.with_vote(option_index as int).expiry == poll.expiry,
        poll.closed().votes == poll.votes,
        poll.closed().total_votes == poll.total_votes,
        poll.closed().is_poll_closed,
        poll.closed().expiry == poll.expiry,
{
    poll.lemma_with_vote(option_index as int);
}

/// While the total is the sum of the counters, no counter exceeds it.
pub proof fn law_no_counter_exceeds_the_total(poll: Poll, i: int)
    requires
        poll.tally_consistent(),
        0 <= i < OPTIONS_COUNT,
    ensures
        poll.votes[i] <= poll.total_votes,
{
    lemma_sum_of_bounds(poll.votes@, i);
}

} // verus!
