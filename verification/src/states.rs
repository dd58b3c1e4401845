use vstd::prelude::*;
use vstd::slice::{slice_subrange, slice_to_vec};

verus! {

/// Capacity in bytes of a poll's title buffer.
pub const TITLE_LENGTH: usize = 32;

/// Capacity in bytes of a poll's description buffer.
pub const DESCRIPTION_LENGTH: usize = 500;

/// Capacity in bytes of each option buffer.
pub const OPTION_LENGTH: usize = 32;

/// Number of option slots of a poll.
pub const OPTIONS_COUNT: usize = 4;

/// Width in bytes of an identity.
pub const IDENTITY_LENGTH: usize = 32;

/// Seconds for which a poll takes votes, counted from its creation.
pub const VALIDITY_WINDOW: i64 = 86400;

/// Salt of the derivation of a poll's key.
pub const POLL_SEED: &'static str = "POLL_SEED";

/// Salt of the derivation of a vote record's key.
pub const VOTE_RECORD_SEED: &'static str = "VOTE_SEED";

/// A fixed-width opaque identifier: a voter, an authority, a program, or the
/// key under which a record is stored.
#[derive(Clone, Copy, Debug, Eq, Hash)]
pub struct Identity {
    pub bytes: [u8; IDENTITY_LENGTH],
}

impl View for Identity {
    type V = Seq<u8>;

    open spec fn view(&self) -> Seq<u8> {
        self.bytes@
    }
}

impl PartialEq for Identity {
    fn eq(&self, other: &Self) -> (r: bool) {
        let mut i: usize = 0;
        while i < IDENTITY_LENGTH
            invariant
                i <= IDENTITY_LENGTH,
                forall|j: int| 0 <= j < i ==> self.bytes[j] == other.bytes[j],
            decreases IDENTITY_LENGTH - i,
        {
            if self.bytes[i] != other.bytes[i] {
                return false;
            }
            i = i + 1;
        }
        assert(self.bytes =~= other.bytes);
        true
    }
}

impl vstd::std_specs::cmp::PartialEqSpecImpl for Identity {
    open spec fn obeys_eq_spec() -> bool {
        true
    }

    open spec fn eq_spec(&self, other: &Self) -> bool {
        *self == *other
    }
}

impl Identity {
    /// The reserved identity, all of whose bytes are zero. It stands for
    /// "nobody": a vote record that holds it as voter is blank.
    pub open spec fn null() -> Identity {
        Identity { bytes: [0u8; IDENTITY_LENGTH] }
    }

    /// Whether this is the reserved null identity.
    pub open spec fn spec_is_null(&self) -> bool {
        *self == Identity::null()
    }

    /// The identity with the given bytes.
    pub fn new(bytes: [u8; IDENTITY_LENGTH]) -> (id: Identity)
        ensures
            id.bytes == bytes,
    {
        Identity { bytes }
    }

    /// Whether this is the reserved null identity.
    #[verifier::when_used_as_spec(spec_is_null)]
    pub fn is_null(&self) -> (b: bool)
        ensures
            b == self.spec_is_null(),
    {
        let mut i: usize = 0;
        while i < IDENTITY_LENGTH
            invariant
                i <= IDENTITY_LENGTH,
                forall|j: int| 0 <= j < i ==> self.bytes[j] == 0,
            decreases IDENTITY_LENGTH - i,
        {
            if self.bytes[i] != 0 {
                assert(Identity::null().bytes[i as int] == 0);
                return false;
            }
            i = i + 1;
        }
        assert(self.bytes =~= Identity::null().bytes);
        true
    }

    /// Two identities with the same bytes are the same identity.
    pub proof fn lemma_view_determines(a: Identity, b: Identity)
        requires
            a@ == b@,
        ensures
            a == b,
    {
        assert(a.bytes =~= b.bytes);
    }
}

impl Default for Identity {
    /// The reserved null identity.
    fn default() -> (id: Identity)
        ensures
            id == Identity::null(),
    {
        Identity { bytes: [0u8; IDENTITY_LENGTH] }
    }
}

/// The sum of a sequence of counters.
pub open spec fn sum_of(counts: Seq<u64>) -> int
    decreases counts.len(),
{
    if counts.len() == 0 {
        0
    } else {
        sum_of(counts.drop_last()) + counts.last()
    }
}

/// Replacing one counter changes the sum by the difference between the new
/// value and the old.
pub proof fn lemma_sum_of_update(counts: Seq<u64>, i: int, value: u64)
    requires
        0 <= i < counts.len(),
    ensures
        sum_of(counts.update(i, value)) == sum_of(counts) - counts[i] + value,
    decreases counts.len(),
{
    let updated = counts.update(i, value);
    if i == counts.len() - 1 {
        assert(updated.drop_last() =~= counts.drop_last());
    } else {
        lemma_sum_of_update(counts.drop_last(), i, value);
        assert(updated.drop_last() =~= counts.drop_last().update(i, value));
    }
}

/// A sequence of zero counters sums to zero.
pub proof fn lemma_sum_of_zeros(counts: Seq<u64>)
    requires
        forall|i: int| 0 <= i < counts.len() ==> counts[i] == 0,
    ensures
        sum_of(counts) == 0,
    decreases counts.len(),
{
    if counts.len() > 0 {
        lemma_sum_of_zeros(counts.drop_last());
    }
}

/// No counter exceeds the sum.
pub proof fn lemma_sum_of_bounds(counts: Seq<u64>, i: int)
    requires
        0 <= i < counts.len(),
    ensures
        0 <= counts[i] <= sum_of(counts),
    decreases counts.len(),
{
    lemma_sum_of_nonnegative(counts.drop_last());
    if i < counts.len() - 1 {
        lemma_sum_of_bounds(counts.drop_last(), i);
    }
}

/// A sum of counters is not negative.
pub proof fn lemma_sum_of_nonnegative(counts: Seq<u64>)
    ensures
        0 <= sum_of(counts),
    decreases counts.len(),
{
    if counts.len() > 0 {
        lemma_sum_of_nonnegative(counts.drop_last());
    }
}

/// Whether `buffer` holds `text` from its start and zero bytes after it.
pub open spec fn is_zero_padded(buffer: Seq<u8>, text: Seq<u8>) -> bool {
    &&& text.len() <= buffer.len()
    &&& forall|i: int| 0 <= i < text.len() ==> buffer[i] == text[i]
    &&& forall|i: int| text.len() <= i < buffer.len() ==> buffer[i] == 0
}

/// A poll: who may close it, what it asks, its four options, the votes that
/// each option has, when it expires and whether it was closed.
///
/// Each text lies at the start of a buffer of fixed size. The length field
/// beside the buffer says how many bytes of it are text; what follows them is
/// never read.
#[derive(Clone, Copy, Debug, PartialEq, Eq)]
pub struct Poll {
    /// Who created the poll and may close it.
    pub authority: Identity,
    /// The buffer of the title.
    pub title: [u8; TITLE_LENGTH],
    /// How many bytes of `title` are the title.
    pub title_length: u8,
    /// The buffer of the description.
    pub description: [u8; DESCRIPTION_LENGTH],
    /// How many bytes of `description` are the description.
    pub description_length: u16,
    /// The buffers of the options, one for each slot.
    pub options: [[u8; OPTION_LENGTH]; OPTIONS_COUNT],
    /// How many bytes of each of `options` are the option's text.
    pub option_lengths: [u8; OPTIONS_COUNT],
    /// The votes of each option.
    pub votes: [u64; OPTIONS_COUNT],
    /// The votes of all options together.
    pub total_votes: u64,
    /// The time, in seconds, from which the poll takes no more votes.
    pub expiry: i64,
    /// Whether the authority has closed the poll. Once set, it stays set.
    pub is_poll_closed: bool,
    /// The salt with which the poll's key was derived.
    pub bump: u8,
}

/// What a poll says, without the layout of its buffers.
pub struct PollView {
    pub authority: Seq<u8>,
    pub title: Seq<u8>,
    pub description: Seq<u8>,
    pub options: Seq<Seq<u8>>,
    pub votes: Seq<nat>,
    pub total_votes: nat,
    pub expiry: int,
    pub is_closed: bool,
}

impl View for Poll {
    type V = PollView;

    open spec fn view(&self) -> PollView {
        PollView {
            authority: self.authority@,
            title: self.title_text(),
            description: self.description_text(),
            options: Seq::new(OPTIONS_COUNT as nat, |i: int| self.option_text(i)),
            votes: Seq::new(OPTIONS_COUNT as nat, |i: int| self.votes[i] as nat),
            total_votes: self.total_votes as nat,
            expiry: self.expiry as int,
            is_closed: self.is_poll_closed,
        }
    }
}

impl Poll {
    /// Size in bytes of a stored poll: the sum of the widths of its fields,
    /// in their order.
    pub const LEN: usize = IDENTITY_LENGTH + TITLE_LENGTH + 1 + DESCRIPTION_LENGTH + 2
        + (OPTION_LENGTH * OPTIONS_COUNT) + OPTIONS_COUNT + (8 * OPTIONS_COUNT) + 8 + 8 + 1 + 1;

    /// The title: the part of its buffer that the length field covers.
    pub open spec fn title_text(&self) -> Seq<u8> {
        self.title@.take(self.title_length as int)
    }

    /// The description: the part of its buffer that the length field covers.
    pub open spec fn description_text(&self) -> Seq<u8> {
        self.description@.take(self.description_length as int)
    }

    /// The text of option `i`: the part of its buffer that its length field
    /// covers.
    pub open spec fn option_text(&self, i: int) -> Seq<u8> {
        self.options[i]@.take(self.option_lengths[i] as int)
    }

    /// Whether every length field stays within its buffer.
    pub open spec fn texts_fit(&self) -> bool {
        &&& self.title_length <= TITLE_LENGTH
        &&& self.description_length <= DESCRIPTION_LENGTH
        &&& forall|i: int| 0 <= i < OPTIONS_COUNT ==> self.option_lengths[i] <= OPTION_LENGTH
    }

    /// Whether the total is the sum of the options' votes.
    pub open spec fn tally_consistent(&self) -> bool {
        self.total_votes == sum_of(self.votes@)
    }

    /// The invariant of a poll: its texts fit their buffers and its total is
    /// the sum of its options' votes.
    pub open spec fn wf(&self) -> bool {
        self.texts_fit() && self.tally_consistent()
    }

    /// Reads the title.
    pub fn title_bytes(&self) -> (text: Vec<u8>)
        requires
            self.title_length <= TITLE_LENGTH,
        ensures
            text@ == self.title_text(),
    {
        slice_to_vec(slice_subrange(self.title.as_slice(), 0, self.title_length as usize))
    }

    /// Reads the description.
    pub fn description_bytes(&self) -> (text: Vec<u8>)
        requires
            self.description_length <= DESCRIPTION_LENGTH,
        ensures
            text@ == self.description_text(),
    {
        slice_to_vec(
            slice_subrange(self.description.as_slice(), 0, self.description_length as usize),
        )
    }

    /// Reads the text of option `i`.
    pub fn option_bytes(&self, i: usize) -> (text: Vec<u8>)
        requires
            i < OPTIONS_COUNT,
            self.option_lengths[i as int] <= OPTION_LENGTH,
        ensures
            text@ == self.option_text(i as int),
    {
        slice_to_vec(
            slice_subrange(self.options[i].as_slice(), 0, self.option_lengths[i] as usize),
        )
    }

    /// Checks the invariant.
    pub fn is_well_formed(&self) -> (b: bool)
        ensures
            b == self.wf(),
    {
        if self.title_length as usize > TITLE_LENGTH {
            return false;
        }
        if self.description_length as usize > DESCRIPTION_LENGTH {
            return false;
        }
        let mut sum: u128 = 0;
        let mut i: usize = 0;
        while i < OPTIONS_COUNT
            invariant
                i <= OPTIONS_COUNT,
                self.title_length <= TITLE_LENGTH,
                self.description_length <= DESCRIPTION_LENGTH,
                forall|j: int| 0 <= j < i ==> self.option_lengths[j] <= OPTION_LENGTH,
                sum == sum_of(self.votes@.take(i as int)),
                sum <= i * u64::MAX,
            decreases OPTIONS_COUNT - i,
        {
            if self.option_lengths[i] as usize > OPTION_LENGTH {
                return false;
            }
            assert(self.votes@.take(i + 1).drop_last() =~= self.votes@.take(i as int));
            sum = sum + self.votes[i] as u128;
            i = i + 1;
        }
        assert(self.votes@.take(OPTIONS_COUNT as int) =~= self.votes@);
        sum == self.total_votes as u128
    }

    /// The poll of which nothing has been written: every byte zero.
    pub open spec fn blank() -> Poll {
        Poll {
            authority: Identity::null(),
            title: [0u8; TITLE_LENGTH],
            title_length: 0,
            description: [0u8; DESCRIPTION_LENGTH],
            description_length: 0,
            options: [[0u8; OPTION_LENGTH]; OPTIONS_COUNT],
            option_lengths: [0u8; OPTIONS_COUNT],
            votes: [0u64; OPTIONS_COUNT],
            total_votes: 0,
            expiry: 0,
            is_poll_closed: false,
            bump: 0,
        }
    }
}

impl Default for Poll {
    /// The blank poll.
    fn default() -> (poll: Poll)
        ensures
            poll == Poll::blank(),
    {
        Poll {
            authority: Identity::default(),
            title: [0u8; TITLE_LENGTH],
            title_length: 0,
            description: [0u8; DESCRIPTION_LENGTH],
            description_length: 0,
            options: [[0u8; OPTION_LENGTH]; OPTIONS_COUNT],
            option_lengths: [0u8; OPTIONS_COUNT],
            votes: [0u64; OPTIONS_COUNT],
            total_votes: 0,
            expiry: 0,
            is_poll_closed: false,
            bump: 0,
        }
    }
}

/// The receipt of one voter's vote on one poll. It is written once and never
/// changed: while its voter is the null identity it is blank, and no vote is
/// on record.
#[derive(Clone, Copy, Debug, PartialEq, Eq)]
pub struct VoteRecord {
    /// Who voted.
    pub voter: Identity,
    /// The key of the poll that the vote belongs to.
    pub poll: Identity,
    /// The option chosen.
    pub option_index: u8,
    /// The salt with which the record's key was derived.
    pub bump: u8,
}

impl VoteRecord {
    /// Size in bytes of a stored vote record: the sum of the widths of its
    /// fields.
    pub const LEN: usize = IDENTITY_LENGTH + IDENTITY_LENGTH + 1 + 1;

    /// The record of which nothing has been written: every byte zero.
    pub open spec fn blank() -> VoteRecord {
        VoteRecord { voter: Identity::null(), poll: Identity::null(), option_index: 0, bump: 0 }
    }

    /// Whether a vote is on record.
    pub open spec fn spec_is_cast(&self) -> bool {
        !self.voter.is_null()
    }

    /// Whether a vote is on record.
    #[verifier::when_used_as_spec(spec_is_cast)]
    pub fn is_cast(&self) -> (b: bool)
        ensures
            b == self.spec_is_cast(),
    {
        !self.voter.is_null()
    }
}

impl Default for VoteRecord {
    /// The blank record.
    fn default() -> (record: VoteRecord)
        ensures
            record == VoteRecord::blank(),
    {
        VoteRecord {
            voter: Identity::default(),
            poll: Identity::default(),
            option_index: 0,
            bump: 0,
        }
    }
}

} // verus!
