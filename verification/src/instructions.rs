//! The three transitions: opening a poll, casting a vote, closing a poll.

pub mod cast_vote;
pub mod close_poll;
pub mod initialize_poll;
