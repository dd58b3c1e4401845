//! Histories of votes.
//!
//! The vote records live in a store that this library does not own: each
//! call of [`cast_vote`](crate::instructions::cast_vote::cast_vote) is handed
//! the record found under some key and, where it succeeds, hands back the
//! record to be kept under that key. This module states what holds of every
//! sequence of such calls against one store, whatever polls they name, in
//! whatever order, and under whatever keys the records were looked up.

use crate::derivation::vote_record_address;
use crate::errors::VotingError;
use crate::instructions::cast_vote::CastVote;
use crate::states::{Identity, Poll, VoteRecord};
use vstd::prelude::*;

verus! {

/// One call of `cast_vote`: the poll as it is at the time of the call, the
/// key it is stored under, who votes, the key under which the vote record is
/// looked up, the option and the time.
pub struct VoteCall {
    pub poll: Poll,
    pub poll_key: Identity,
    pub voter: Identity,
    pub vote_record_key: Identity,
    pub option_index: u8,
    pub now: i64,
}

/// The record that the store holds under `key`: blank where none was written.
pub open spec fn record_at(records: Map<Identity, VoteRecord>, key: Identity) -> VoteRecord {
    if records.dom().contains(key) {
        records[key]
    } else {
        VoteRecord::blank()
    }
}

/// What `call` works on when it is made against `records`.
pub open spec fn context_of(
    records: Map<Identity, VoteRecord>,
    program_id: Identity,
    call: VoteCall,
) -> CastVote {
    CastVote {
        poll: call.poll,
        poll_key: call.poll_key,
        vote_record: record_at(records, call.vote_record_key),
        vote_record_key: call.vote_record_key,
        voter: call.voter,
        program_id,
    }
}

/// The error with which `call` fails against `records`, or `None` if it
/// succeeds.
pub open spec fn call_error(
    records: Map<Identity, VoteRecord>,
    program_id: Identity,
    call: VoteCall,
) -> Option<VotingError> {
    context_of(records, program_id, call).vote_error(
        vote_record_address(program_id, call.poll_key, call.voter),
        call.option_index,
        call.now,
    )
}

/// The store after `call`: with the record it wrote, if it succeeded, and as
/// it was, if it failed.
pub open spec fn after_call(
    records: Map<Identity, VoteRecord>,
    program_id: Identity,
    call: VoteCall,
) -> Map<Identity, VoteRecord> {
    if call_error(records, program_id, call) is None {
        records.insert(
            call.vote_record_key,
            context_of(records, program_id, call).with_vote(
                call.option_index,
                vote_record_address(program_id, call.poll_key, call.voter).unwrap().1,
            ).vote_record,
        )
    } else {
        records
    }
}

/// The store after `calls`, made one after the other.
pub open spec fn after_calls(
    records: Map<Identity, VoteRecord>,
    program_id: Identity,
    calls: Seq<VoteCall>,
) -> Map<Identity, VoteRecord>
    decreases calls.len(),
{
    if calls.len() == 0 {
        records
    } else {
        after_call(after_calls(records, program_id, calls.drop_last()), program_id, calls.last())
    }
}

/// The error with which the call at position `i` of `calls` fails, or `None`
/// if it succeeds.
pub open spec fn error_of(
    records: Map<Identity, VoteRecord>,
    program_id: Identity,
    calls: Seq<VoteCall>,
    i: int,
) -> Option<VotingError> {
    call_error(after_calls(records, program_id, calls.take(i)), program_id, calls[i])
}

/// A call changes no record on which a vote is written.
pub proof fn lemma_receipt_is_permanent(
    records: Map<Identity, VoteRecord>,
    program_id: Identity,
    call: VoteCall,
    key: Identity,
)
    requires
        record_at(records, key).is_cast(),
    ensures
        record_at(after_call(records, program_id, call), key) == record_at(records, key),
{
}

/// After the call at position `i` has succeeded for a voter other than the
/// null identity, the record under the key of that call names the voter, and
/// does so after every later call.
pub proof fn lemma_receipt_stays(
    records: Map<Identity, VoteRecord>,
    program_id: Identity,
    calls: Seq<VoteCall>,
    i: int,
    n: int,
)
    requires
        0 <= i < n <= calls.len(),
        error_of(records, program_id, calls, i) is None,
        !calls[i].voter.is_null(),
    ensures
        record_at(
            after_calls(records, program_id, calls.take(n)),
            calls[i].vote_record_key,
        ).voter == calls[i].voter,
    decreases n - i,
{
    let before = after_calls(records, program_id, calls.take(n - 1));
    assert(calls.take(n).drop_last() =~= calls.take(n - 1));
    assert(calls.take(n).last() == calls[n - 1]);
    if n > i + 1 {
        lemma_receipt_stays(records, program_id, calls, i, n - 1);
        lemma_receipt_is_permanent(before, program_id, calls[n - 1], calls[i].vote_record_key);
    }
}

/// Of all calls for one voter on one poll at most one succeeds: once one
/// has, every later one fails with `AlreadyVoted`, whatever calls lie between
/// them, whatever state the poll is in, and under whatever key the record is
/// looked up. The null identity, which marks a blank record, is no voter.
pub proof fn law_one_vote_per_voter(
    records: Map<Identity, VoteRecord>,
    program_id: Identity,
    calls: Seq<VoteCall>,
    i: int,
    j: int,
)
    requires
        0 <= i < j < calls.len(),
        calls[i].poll_key == calls[j].poll_key,
        calls[i].voter == calls[j].voter,
        !calls[i].voter.is_null(),
        error_of(records, program_id, calls, i) is None,
    ensures
        error_of(records, program_id, calls, j) == Some(VotingError::AlreadyVoted),
{
    lemma_receipt_stays(records, program_id, calls, i, j);
    if calls[j].vote_record_key@ == calls[i].vote_record_key@ {
        Identity::lemma_view_determines(calls[j].vote_record_key, calls[i].vote_record_key);
    }
}

/// No two calls for one voter on one poll both succeed.
pub proof fn law_at_most_one_vote_counts(
    records: Map<Identity, VoteRecord>,
    program_id: Identity,
    calls: Seq<VoteCall>,
    i: int,
    j: int,
)
    requires
        0 <= i < calls.len(),
        0 <= j < calls.len(),
        i != j,
        calls[i].poll_key == calls[j].poll_key,
        calls[i].voter == calls[j].voter,
        !calls[i].voter.is_null(),
    ensures
        !(error_of(records, program_id, calls, i) is None && error_of(
            records,
            program_id,
            calls,
            j,
        ) is None),
{
    if error_of(records, program_id, calls, i) is None && error_of(records, program_id, calls, j)
        is None {
        if i < j {
            law_one_vote_per_voter(records, program_id, calls, i, j);
        } else {
            law_one_vote_per_voter(records, program_id, calls, j, i);
        }
    }
}

} // verus!
