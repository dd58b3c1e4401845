//! A poll ledger: an authority opens a poll with four text options and a fixed
//! validity window, every voter casts at most one vote for one option, and the
//! authority may close the poll before it expires.
//!
//! The records ([`states::Poll`], [`states::VoteRecord`]) are fixed-size, the
//! keys under which they are stored are derived from what they stand for
//! ([`derivation`]), and every transition ([`instructions`]) either applies in
//! full or leaves every record as it was. What holds of the transitions on
//! every input is stated and proved in [`laws`], and what holds of every
//! sequence of votes in [`history`].

pub mod derivation;
pub mod errors;
pub mod history;
pub mod instructions;
pub mod laws;
pub mod states;
