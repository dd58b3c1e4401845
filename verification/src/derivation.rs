//! Derivation of the keys under which records are stored.
//!
//! A record's key is not chosen by whoever stores it: it is computed from what
//! the record stands for, so that the same poll or the same vote always lies
//! at the same place, and a record handed in under another key can be told
//! apart.

use crate::states::{Identity, POLL_SEED, VOTE_RECORD_SEED};
use vstd::prelude::*;
use vstd::string::StringSliceAdditionalSpecFns;

verus! {

/// The program address that `seeds` and `program_id` derive, with the bump
/// seed that gave it, or `None` where there is none.
pub uninterp spec fn program_address(seeds: Seq<Seq<u8>>, program_id: Seq<u8>) -> Option<
    (Seq<u8>, u8),
>;

/// A derived key and its bump seed, with the key as its bytes.
pub open spec fn key_bytes(found: Option<(Identity, u8)>) -> Option<(Seq<u8>, u8)> {
    match found {
        Some((key, bump)) => Some((key@, bump)),
        None => None,
    }
}

/// The seeds of a poll's key: its title, the poll salt, its authority.
pub open spec fn poll_seeds(authority: Identity, title: Seq<u8>) -> Seq<Seq<u8>> {
    seq![title, POLL_SEED.spec_bytes(), authority@]
}

/// The seeds of a vote record's key: the vote salt, the poll's key, the voter.
pub open spec fn vote_record_seeds(poll_key: Identity, voter: Identity) -> Seq<Seq<u8>> {
    seq![VOTE_RECORD_SEED.spec_bytes(), poll_key@, voter@]
}

/// The key of the poll that `authority` opens under `title`, and its bump
/// seed.
pub open spec fn poll_address(program_id: Identity, authority: Identity, title: Seq<u8>) -> Option<
    (Seq<u8>, u8),
> {
    program_address(poll_seeds(authority, title), program_id@)
}

/// The key of the record of `voter`'s vote on the poll stored at `poll_key`,
/// and its bump seed.
pub open spec fn vote_record_address(
    program_id: Identity,
    poll_key: Identity,
    voter: Identity,
) -> Option<(Seq<u8>, u8)> {
    program_address(vote_record_seeds(poll_key, voter), program_id@)
}

/// Calls `Pubkey::try_find_program_address` of `anchor_lang` on three seeds.
///
/// Trusted: that the call is a function of the seeds and the program id
/// alone, which `program_address` names. The search hashes the seeds, a bump
/// seed, the program id and a fixed marker, and keeps the first bump seed,
/// counting down from 255, whose hash is no point of the curve; it gives
/// `None` where a seed is longer than 32 bytes or no bump seed is left.
#[verifier::external_body]
fn find_program_address(
    first: &[u8],
    second: &[u8],
    third: &[u8],
    program_id: &Identity,
) -> (found: Option<(Identity, u8)>)
    ensures
        key_bytes(found) == program_address(seq![first@, second@, third@], program_id@),
{
    let program = anchor_lang::prelude::Pubkey::new_from_array(program_id.bytes);
    match anchor_lang::prelude::Pubkey::try_find_program_address(
        &[first, second, third],
        &program,
    ) {
        Some((key, bump)) => Some((Identity { bytes: key.to_bytes() }, bump)),
        None => None,
    }
}

/// Derives the key of the poll that `authority` opens under `title`.
pub fn derive_poll_key(program_id: &Identity, authority: &Identity, title: &str) -> (found: Option<
    (Identity, u8),
>)
    ensures
        key_bytes(found) == poll_address(*program_id, *authority, title.spec_bytes()),
{
    find_program_address(title.as_bytes(), POLL_SEED.as_bytes(), &authority.bytes, program_id)
}

/// Derives the key of the record of `voter`'s vote on the poll stored at
/// `poll_key`.
pub fn derive_vote_record_key(program_id: &Identity, poll_key: &Identity, voter: &Identity) -> (found:
    Option<(Identity, u8)>)
    ensures
        key_bytes(found) == vote_record_address(*program_id, *poll_key, *voter),
{
    find_program_address(VOTE_RECORD_SEED.as_bytes(), &poll_key.bytes, &voter.bytes, program_id)
}

} // verus!
