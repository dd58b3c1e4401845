use voting_system::derivation::derive_vote_record_key;
use voting_system::errors::VotingError;
use voting_system::instructions::cast_vote::{cast_vote, record_vote, try_cast_vote, CastVote};
use voting_system::states::{Identity, Poll, VoteRecord};

fn id(byte: u8) -> Identity {
    Identity::new([byte; 32])
}

fn open_poll_until(expiry: i64) -> Poll {
    let mut poll = Poll::default();
    poll.authority = id(1);
    poll.expiry = expiry;
    poll
}

/// A context in which every check passes for options 0 to 3 before time 1000.
fn ready() -> CastVote {
    let (poll_key, voter, program_id) = (id(7), id(2), id(200));
    let (vote_record_key, _) = derive_vote_record_key(&program_id, &poll_key, &voter).unwrap();
    CastVote {
        poll: open_poll_until(1000),
        poll_key,
        vote_record: VoteRecord::default(),
        vote_record_key,
        voter,
        program_id,
    }
}

#[test]
fn a_vote_is_counted_and_its_receipt_written() {
    let mut ctx = ready();
    let before = ctx;
    let (_, bump) = derive_vote_record_key(&ctx.program_id, &ctx.poll_key, &ctx.voter).unwrap();
    assert_eq!(cast_vote(&mut ctx, 2, 999), Ok(()));
    assert_eq!(ctx.poll.votes, [0, 0, 1, 0]);
    assert_eq!(ctx.poll.total_votes, 1);
    assert_eq!(
        ctx.vote_record,
        VoteRecord { voter: before.voter, poll: before.poll_key, option_index: 2, bump }
    );
    assert!(ctx.vote_record.is_cast());
    // Nothing else has changed.
    let mut expected = before;
    expected.poll.votes = [0, 0, 1, 0];
    expected.poll.total_votes = 1;
    expected.vote_record = ctx.vote_record;
    assert_eq!(ctx, expected);
}

#[test]
fn each_option_has_its_own_counter() {
    for option in 0..4u8 {
        let mut ctx = ready();
        ctx.poll.votes = [10, 20, 30, 40];
        ctx.poll.total_votes = 100;
        assert_eq!(cast_vote(&mut ctx, option, 0), Ok(()));
        let mut expected = [10, 20, 30, 40];
        expected[usize::from(option)] += 1;
        assert_eq!(ctx.poll.votes, expected);
        assert_eq!(ctx.poll.total_votes, 101);
        assert_eq!(ctx.vote_record.option_index, option);
    }
}

#[test]
fn a_second_vote_on_the_same_record_is_refused() {
    let mut ctx = ready();
    assert_eq!(cast_vote(&mut ctx, 1, 10), Ok(()));
    let after_first = ctx;
    assert_eq!(cast_vote(&mut ctx, 1, 11), Err(VotingError::AlreadyVoted));
    assert_eq!(ctx, after_first);
    assert_eq!(cast_vote(&mut ctx, 3, 12), Err(VotingError::AlreadyVoted));
    assert_eq!(ctx, after_first);
}

#[test]
fn a_record_under_another_key_is_refused() {
    let mut ctx = ready();
    ctx.vote_record_key = id(99);
    let before = ctx;
    assert_eq!(cast_vote(&mut ctx, 1, 10), Err(VotingError::AlreadyVoted));
    assert_eq!(ctx, before);

    // The key of another voter's record on the same poll.
    let mut ctx = ready();
    let (other, _) = derive_vote_record_key(&ctx.program_id, &ctx.poll_key, &id(3)).unwrap();
    ctx.vote_record_key = other;
    let before = ctx;
    assert_eq!(cast_vote(&mut ctx, 1, 10), Err(VotingError::AlreadyVoted));
    assert_eq!(ctx, before);

    // The key of this voter's record on another poll.
    let mut ctx = ready();
    let (other, _) = derive_vote_record_key(&ctx.program_id, &id(8), &ctx.voter).unwrap();
    ctx.vote_record_key = other;
    assert_eq!(cast_vote(&mut ctx, 1, 10), Err(VotingError::AlreadyVoted));

    // The key that another program derives.
    let mut ctx = ready();
    let (other, _) = derive_vote_record_key(&id(201), &ctx.poll_key, &ctx.voter).unwrap();
    ctx.vote_record_key = other;
    assert_eq!(cast_vote(&mut ctx, 1, 10), Err(VotingError::AlreadyVoted));
}

#[test]
fn a_closed_poll_takes_no_votes() {
    let mut ctx = ready();
    ctx.poll.is_poll_closed = true;
    let before = ctx;
    assert_eq!(cast_vote(&mut ctx, 1, 10), Err(VotingError::PollClosed));
    assert_eq!(ctx, before);
}

#[test]
fn an_expired_poll_takes_no_votes() {
    for now in [1000, 1001, i64::MAX] {
        let mut ctx = ready();
        let before = ctx;
        assert_eq!(cast_vote(&mut ctx, 1, now), Err(VotingError::PollExpired));
        assert_eq!(ctx, before);
        assert!(!ctx.poll.is_poll_closed);
    }
    let mut ctx = ready();
    assert_eq!(cast_vote(&mut ctx, 1, 999), Ok(()));
    let mut ctx = ready();
    assert_eq!(cast_vote(&mut ctx, 1, i64::MIN), Ok(()));
}

#[test]
fn an_option_that_is_no_slot_is_refused() {
    for option in [4u8, 5, 100, 255] {
        let mut ctx = ready();
        ctx.poll.votes = [1, 2, 3, 4];
        ctx.poll.total_votes = 10;
        let before = ctx;
        assert_eq!(cast_vote(&mut ctx, option, 10), Err(VotingError::InvalidOptionIndex));
        assert_eq!(ctx.poll.votes, [1, 2, 3, 4]);
        assert_eq!(ctx.poll.total_votes, 10);
        assert_eq!(ctx, before);
    }
}

#[test]
fn the_first_check_that_fails_decides_the_error() {
    // Everything is amiss: the receipt wins.
    let mut ctx = ready();
    ctx.vote_record.voter = id(2);
    ctx.vote_record_key = id(99);
    ctx.poll.is_poll_closed = true;
    assert_eq!(cast_vote(&mut ctx, 9, 5000), Err(VotingError::AlreadyVoted));

    // Blank record under a wrong key, poll closed and expired, no such slot.
    let mut ctx = ready();
    ctx.vote_record_key = id(99);
    ctx.poll.is_poll_closed = true;
    assert_eq!(cast_vote(&mut ctx, 9, 5000), Err(VotingError::AlreadyVoted));

    // Closed and expired, no such slot.
    let mut ctx = ready();
    ctx.poll.is_poll_closed = true;
    assert_eq!(cast_vote(&mut ctx, 9, 5000), Err(VotingError::PollClosed));

    // Expired, no such slot.
    let mut ctx = ready();
    assert_eq!(cast_vote(&mut ctx, 9, 5000), Err(VotingError::PollExpired));

    // No such slot.
    let mut ctx = ready();
    assert_eq!(cast_vote(&mut ctx, 9, 5), Err(VotingError::InvalidOptionIndex));
}

#[test]
fn a_record_of_any_voter_blocks_the_vote() {
    // What is on the record decides, not who asks.
    let mut ctx = ready();
    ctx.vote_record = VoteRecord { voter: id(42), poll: id(43), option_index: 0, bump: 1 };
    let before = ctx;
    assert_eq!(cast_vote(&mut ctx, 1, 10), Err(VotingError::AlreadyVoted));
    assert_eq!(ctx, before);

    // One byte that is not zero makes a voter.
    let mut bytes = [0u8; 32];
    bytes[31] = 1;
    let mut ctx = ready();
    ctx.vote_record.voter = Identity::new(bytes);
    assert_eq!(cast_vote(&mut ctx, 1, 10), Err(VotingError::AlreadyVoted));
}

#[test]
fn record_vote_works_on_the_key_it_is_given() {
    let key = id(60);
    let mut ctx = ready();
    ctx.vote_record_key = key;
    let before = ctx;
    assert_eq!(record_vote(&mut ctx, Some((key, 250)), 0, 10), Ok(()));
    assert_eq!(ctx.poll.votes, [1, 0, 0, 0]);
    assert_eq!(ctx.poll.total_votes, 1);
    assert_eq!(
        ctx.vote_record,
        VoteRecord { voter: before.voter, poll: before.poll_key, option_index: 0, bump: 250 }
    );

    let mut ctx = before;
    assert_eq!(record_vote(&mut ctx, Some((id(61), 250)), 0, 10), Err(VotingError::AlreadyVoted));
    assert_eq!(ctx, before);

    let mut ctx = before;
    assert_eq!(record_vote(&mut ctx, None, 0, 10), Err(VotingError::AlreadyVoted));
    assert_eq!(ctx, before);

    let mut ctx = before;
    ctx.poll.is_poll_closed = true;
    assert_eq!(record_vote(&mut ctx, Some((key, 250)), 0, 10), Err(VotingError::PollClosed));
    let mut ctx = before;
    assert_eq!(record_vote(&mut ctx, Some((key, 250)), 0, 1000), Err(VotingError::PollExpired));
    let mut ctx = before;
    assert_eq!(
        record_vote(&mut ctx, Some((key, 250)), 4, 10),
        Err(VotingError::InvalidOptionIndex)
    );
}

#[test]
fn counters_count_up_to_their_greatest_value() {
    let mut ctx = ready();
    ctx.poll.votes = [0, u64::MAX - 1, 0, 0];
    ctx.poll.total_votes = u64::MAX - 1;
    assert!(ctx.poll.has_room(1));
    assert_eq!(cast_vote(&mut ctx, 1, 10), Ok(()));
    assert_eq!(ctx.poll.votes, [0, u64::MAX, 0, 0]);
    assert_eq!(ctx.poll.total_votes, u64::MAX);
    assert!(!ctx.poll.has_room(0));
    assert!(!ctx.poll.has_room(1));
    assert!(ctx.poll.has_room(4));
    assert!(ctx.poll.is_well_formed());
}

#[test]
fn a_full_counter_stops_only_a_vote_that_would_count() {
    let mut full = ready();
    full.poll.votes = [u64::MAX, 7, 0, 0];
    full.poll.total_votes = 7;

    // A vote for the full option cannot be counted.
    let mut ctx = full;
    assert_eq!(try_cast_vote(&mut ctx, 0, 10), None);
    assert_eq!(ctx, full);

    // A vote for another option can.
    let mut ctx = full;
    assert_eq!(try_cast_vote(&mut ctx, 1, 10), Some(Ok(())));
    assert_eq!(ctx.poll.votes, [u64::MAX, 8, 0, 0]);
    assert_eq!(ctx.poll.total_votes, 8);

    // A full total stops every vote that would count.
    let mut ctx = full;
    ctx.poll.total_votes = u64::MAX;
    assert_eq!(try_cast_vote(&mut ctx, 1, 10), None);

    // A vote that fails a check is refused with its error as ever.
    let mut ctx = full;
    ctx.poll.total_votes = u64::MAX;
    let before = ctx;
    assert_eq!(try_cast_vote(&mut ctx, 0, 1000), Some(Err(VotingError::PollExpired)));
    assert_eq!(cast_vote(&mut ctx, 0, 1000), Err(VotingError::PollExpired));
    assert_eq!(try_cast_vote(&mut ctx, 4, 10), Some(Err(VotingError::InvalidOptionIndex)));
    assert_eq!(cast_vote(&mut ctx, 4, 10), Err(VotingError::InvalidOptionIndex));
    ctx.poll.is_poll_closed = true;
    assert_eq!(try_cast_vote(&mut ctx, 0, 10), Some(Err(VotingError::PollClosed)));
    ctx.vote_record_key = id(99);
    assert_eq!(try_cast_vote(&mut ctx, 0, 10), Some(Err(VotingError::AlreadyVoted)));
    ctx.vote_record.voter = id(5);
    assert_eq!(try_cast_vote(&mut ctx, 0, 10), Some(Err(VotingError::AlreadyVoted)));
    assert_eq!(ctx.poll.votes, before.poll.votes);
    assert_eq!(ctx.poll.total_votes, before.poll.total_votes);
}

#[test]
fn both_ways_of_voting_agree() {
    for (option, now) in [(0u8, 10i64), (3, 999), (4, 10), (0, 1000)] {
        let mut first = ready();
        let mut second = ready();
        let a = cast_vote(&mut first, option, now);
        let b = try_cast_vote(&mut second, option, now);
        assert_eq!(Some(a), b);
        assert_eq!(first, second);
    }
}

#[test]
fn the_checks_alone_change_nothing() {
    let ctx = ready();
    let derived = derive_vote_record_key(&ctx.program_id, &ctx.poll_key, &ctx.voter);
    assert_eq!(ctx.check(derived, 0, 10), None);
    assert_eq!(ctx.check(derived, 3, 999), None);
    assert_eq!(ctx.check(derived, 4, 10), Some(VotingError::InvalidOptionIndex));
    assert_eq!(ctx.check(derived, 0, 1000), Some(VotingError::PollExpired));
    assert_eq!(ctx.check(None, 0, 10), Some(VotingError::AlreadyVoted));
    assert_eq!(ctx.check(Some((id(99), 255)), 0, 10), Some(VotingError::AlreadyVoted));
    let mut closed = ctx;
    closed.poll.is_poll_closed = true;
    assert_eq!(closed.check(derived, 0, 10), Some(VotingError::PollClosed));
    let mut voted = ctx;
    voted.vote_record.voter = ctx.voter;
    assert_eq!(voted.check(derived, 0, 10), Some(VotingError::AlreadyVoted));
}
