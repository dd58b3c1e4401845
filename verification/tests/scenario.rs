use std::collections::HashMap;
use voting_system::derivation::{derive_poll_key, derive_vote_record_key};
use voting_system::errors::VotingError;
use voting_system::instructions::cast_vote::{try_cast_vote, CastVote};
use voting_system::instructions::close_poll::{close_poll, ClosePoll};
use voting_system::instructions::initialize_poll::{try_initialize_poll, InitializePoll};
use voting_system::states::{Identity, Poll, VoteRecord};

const NOW: i64 = 1_700_000_000;

fn id(byte: u8) -> Identity {
    Identity::new([byte; 32])
}

fn program() -> Identity {
    id(200)
}

fn open_lunch_poll(authority: Identity) -> (Identity, Poll) {
    let mut ctx = InitializePoll { poll: Poll::default(), authority, program_id: program() };
    let key = try_initialize_poll(
        &mut ctx,
        "Lunch?".to_string(),
        "Where do we eat today?".to_string(),
        vec!["Pizza".to_string(), "Sushi".to_string(), "Tacos".to_string(), "Salad".to_string()],
        NOW,
    )
    .expect("a key is derived")
    .expect("the texts fit");
    (key, ctx.poll)
}

/// A store of vote records, blank where nothing was written.
struct Store {
    poll_key: Identity,
    poll: Poll,
    records: HashMap<[u8; 32], VoteRecord>,
}

impl Store {
    fn vote(&mut self, voter: Identity, option_index: u8, now: i64) -> Result<(), VotingError> {
        let (record_key, _) =
            derive_vote_record_key(&program(), &self.poll_key, &voter).expect("a key is derived");
        let record = self.records.get(&record_key.bytes).copied().unwrap_or_default();
        let mut ctx = CastVote {
            poll: self.poll,
            poll_key: self.poll_key,
            vote_record: record,
            vote_record_key: record_key,
            voter,
            program_id: program(),
        };
        let result = try_cast_vote(&mut ctx, option_index, now).expect("the counters have room");
        self.poll = ctx.poll;
        if ctx.vote_record != VoteRecord::default() {
            self.records.insert(record_key.bytes, ctx.vote_record);
        }
        result
    }

    fn close(&mut self, requester: Identity) -> Result<(), VotingError> {
        let mut ctx = ClosePoll { poll: self.poll, authority: requester };
        let result = close_poll(&mut ctx);
        self.poll = ctx.poll;
        result
    }
}

fn lunch_store(authority: Identity) -> Store {
    let (poll_key, poll) = open_lunch_poll(authority);
    Store { poll_key, poll, records: HashMap::new() }
}

#[test]
fn lunch_poll_from_opening_to_closing() {
    let authority = id(1);
    let voter_v = id(2);
    let voter_w = id(3);
    let mut store = lunch_store(authority);

    assert_eq!(store.vote(voter_v, 1, NOW + 10), Ok(()));
    assert_eq!(store.poll.votes, [0, 1, 0, 0]);
    assert_eq!(store.poll.total_votes, 1);

    assert_eq!(store.vote(voter_v, 2, NOW + 20), Err(VotingError::AlreadyVoted));
    assert_eq!(store.poll.votes, [0, 1, 0, 0]);
    assert_eq!(store.poll.total_votes, 1);

    assert_eq!(store.close(authority), Ok(()));
    assert!(store.poll.is_poll_closed);

    assert_eq!(store.vote(voter_w, 0, NOW + 30), Err(VotingError::PollClosed));
    assert_eq!(store.poll.votes, [0, 1, 0, 0]);
    assert_eq!(store.poll.total_votes, 1);
}

#[test]
fn the_poll_key_is_the_one_derived_from_title_and_authority() {
    let authority = id(1);
    let (key, poll) = open_lunch_poll(authority);
    let (derived, bump) = derive_poll_key(&program(), &authority, "Lunch?").unwrap();
    assert_eq!(key, derived);
    assert_eq!(poll.bump, bump);
}

#[test]
fn every_voter_counts_once_whatever_the_order() {
    let authority = id(1);
    let mut store = lunch_store(authority);
    let voters = [id(10), id(11), id(12), id(13), id(14)];

    assert_eq!(store.vote(voters[0], 0, NOW + 1), Ok(()));
    assert_eq!(store.vote(voters[1], 3, NOW + 2), Ok(()));
    assert_eq!(store.vote(voters[0], 0, NOW + 3), Err(VotingError::AlreadyVoted));
    assert_eq!(store.vote(voters[2], 3, NOW + 4), Ok(()));
    assert_eq!(store.vote(voters[1], 1, NOW + 5), Err(VotingError::AlreadyVoted));
    assert_eq!(store.vote(voters[3], 2, NOW + 6), Ok(()));
    assert_eq!(store.vote(voters[0], 3, NOW + 7), Err(VotingError::AlreadyVoted));
    assert_eq!(store.vote(voters[4], 3, NOW + 8), Ok(()));
    assert_eq!(store.vote(voters[4], 3, NOW + 9), Err(VotingError::AlreadyVoted));

    assert_eq!(store.poll.votes, [1, 0, 1, 3]);
    assert_eq!(store.poll.total_votes, 5);
    assert_eq!(store.records.len(), 5);
}

#[test]
fn the_total_is_the_sum_of_the_counters_at_every_step() {
    let authority = id(1);
    let mut store = lunch_store(authority);
    assert!(store.poll.is_well_formed());
    assert_eq!(store.poll.total_votes, store.poll.votes.iter().sum::<u64>());
    let mut voted = [false; 20];
    let mut counted = [0u64; 4];
    for n in 0..40u8 {
        let (who, option) = (usize::from(n / 2), n % 5);
        let result = store.vote(id(50 + n / 2), option, NOW + i64::from(n));
        let expected = if voted[who] {
            Err(VotingError::AlreadyVoted)
        } else if option == 4 {
            Err(VotingError::InvalidOptionIndex)
        } else {
            voted[who] = true;
            counted[usize::from(option)] += 1;
            Ok(())
        };
        assert_eq!(result, expected);
        assert_eq!(store.poll.votes, counted);
        assert_eq!(store.poll.total_votes, store.poll.votes.iter().sum::<u64>());
        assert!(store.poll.is_well_formed());
    }
    assert_eq!(store.close(authority), Ok(()));
    assert_eq!(store.poll.total_votes, store.poll.votes.iter().sum::<u64>());
    assert_eq!(store.poll.total_votes, 20);
}

#[test]
fn a_voter_votes_on_two_polls() {
    let authority = id(1);
    let voter = id(2);
    let mut lunch = lunch_store(authority);
    let mut other = lunch_store(id(9));
    assert_ne!(lunch.poll_key, other.poll_key);
    assert_eq!(lunch.vote(voter, 0, NOW), Ok(()));
    assert_eq!(other.vote(voter, 1, NOW), Ok(()));
    assert_eq!(lunch.vote(voter, 0, NOW), Err(VotingError::AlreadyVoted));
    assert_eq!(other.vote(voter, 1, NOW), Err(VotingError::AlreadyVoted));
    assert_eq!(lunch.poll.votes, [1, 0, 0, 0]);
    assert_eq!(other.poll.votes, [0, 1, 0, 0]);
}
