use crate::derivation::{derive_poll_key, poll_address};
use crate::errors::VotingError;
use crate::states::{
    is_zero_padded, lemma_sum_of_zeros, sum_of, Identity, Poll, DESCRIPTION_LENGTH,
    OPTIONS_COUNT, OPTION_LENGTH, TITLE_LENGTH, VALIDITY_WINDOW,
};
use vstd::prelude::*;
use vstd::string::StringSliceAdditionalSpecFns;
use vstd::utf8::encode_utf8;

verus! {

/// What the opening of a poll works on.
#[derive(Clone, Copy, Debug, PartialEq, Eq)]
pub struct InitializePoll {
    /// The record that the poll is written to.
    pub poll: Poll,
    /// Who opens the poll.
    pub authority: Identity,
    /// The program under whose name keys are derived.
    pub program_id: Identity,
}

/// The bytes of each of `options`.
pub open spec fn option_texts(options: Seq<String>) -> Seq<Seq<u8>> {
    Seq::new(options.len(), |i: int| encode_utf8(options[i]@))
}

/// Why a poll with these texts cannot be opened, or `None` if it can: the
/// first of title, description, number of options and options that is amiss.
pub open spec fn input_error(
    title: Seq<u8>,
    description: Seq<u8>,
    options: Seq<Seq<u8>>,
) -> Option<VotingError> {
    if title.len() > TITLE_LENGTH {
        Some(VotingError::TitleTooLong)
    } else if description.len() > DESCRIPTION_LENGTH {
        Some(VotingError::DescriptionTooLong)
    } else if options.len() != OPTIONS_COUNT {
        Some(VotingError::OptionCountMismatch)
    } else if exists|i: int| 0 <= i < options.len() && (#[trigger] options[i]).len() > OPTION_LENGTH {
        Some(VotingError::OptionTooLong)
    } else {
        None
    }
}

impl Poll {
    /// Whether this is the poll as it is when it has just been opened: the
    /// texts at the start of their buffers with zero bytes after them, no
    /// votes, not closed. With four `options` no field is left open.
    pub open spec fn is_opened_with(
        &self,
        authority: Identity,
        title: Seq<u8>,
        description: Seq<u8>,
        options: Seq<Seq<u8>>,
        expiry: int,
        bump: u8,
    ) -> bool {
        &&& self.authority == authority
        &&& self.title_length == title.len()
        &&& is_zero_padded(self.title@, title)
        &&& self.description_length == description.len()
        &&& is_zero_padded(self.description@, description)
        &&& forall|i: int|
            0 <= i < OPTIONS_COUNT ==> #[trigger] self.option_lengths[i] == options[i].len()
        &&& forall|i: int|
            0 <= i < OPTIONS_COUNT ==> is_zero_padded(#[trigger] self.options[i]@, options[i])
        &&& forall|i: int| 0 <= i < OPTIONS_COUNT ==> self.votes[i] == 0
        &&& self.total_votes == 0
        &&& self.expiry == expiry
        &&& !self.is_poll_closed
        &&& self.bump == bump
    }

    /// Whether the poll reads as these texts: each of them is what its length
    /// field covers of its buffer.
    pub open spec fn holds_texts(
        &self,
        title: Seq<u8>,
        description: Seq<u8>,
        options: Seq<Seq<u8>>,
    ) -> bool {
        &&& self.title_text() == title
        &&& self.description_text() == description
        &&& forall|i: int| 0 <= i < OPTIONS_COUNT ==> #[trigger] self.option_text(i) == options[i]
    }

    /// A poll as it was opened meets the invariant, counts no vote, and
    /// reads as the texts it was opened with.
    pub proof fn lemma_opened(
        self,
        authority: Identity,
        title: Seq<u8>,
        description: Seq<u8>,
        options: Seq<Seq<u8>>,
        expiry: int,
        bump: u8,
    )
        requires
            self.is_opened_with(authority, title, description, options, expiry, bump),
        ensures
            self.wf(),
            self.total_votes == 0,
            sum_of(self.votes@) == 0,
            self.holds_texts(title, description, options),
    {
        lemma_sum_of_zeros(self.votes@);
        assert(self.title_text() =~= title);
        assert(self.description_text() =~= description);
        assert forall|i: int| 0 <= i < OPTIONS_COUNT implies #[trigger] self.option_text(i)
            == options[i] by {
            assert(is_zero_padded(self.options[i]@, options[i]));
            assert(self.option_text(i) =~= options[i]);
        }
        assert forall|i: int| 0 <= i < OPTIONS_COUNT implies self.option_lengths[i]
            <= OPTION_LENGTH by {
            assert(is_zero_padded(self.options[i]@, options[i]));
        }
    }
}

impl InitializePoll {
    /// Whether `post` is `self` after the poll was opened at `now` with these
    /// texts and this bump seed.
    pub open spec fn opened(
        &self,
        post: InitializePoll,
        title: Seq<u8>,
        description: Seq<u8>,
        options: Seq<Seq<u8>>,
        now: i64,
        bump: u8,
    ) -> bool {
        &&& post.authority == self.authority
        &&& post.program_id == self.program_id
        &&& post.poll.is_opened_with(
            self.authority,
            title,
            description,
            options,
            now + VALIDITY_WINDOW,
            bump,
        )
    }
}

/// The buffer that holds `text` at its start and zero bytes after it.
fn zero_padded<const N: usize>(text: &[u8]) -> (buffer: [u8; N])
    requires
        text@.len() <= N,
    ensures
        is_zero_padded(buffer@, text@),
{
    let mut buffer = [0u8; N];
    let mut i: usize = 0;
    while i < text.len()
        invariant
            i <= text@.len() <= N,
            forall|j: int| 0 <= j < i ==> buffer[j] == text[j],
            forall|j: int| i <= j < N ==> buffer[j] == 0,
        decreases text@.len() - i,
    {
        buffer[i] = text[i];
        i = i + 1;
    }
    buffer
}

/// Checks the texts of a poll against the sizes of their buffers.
pub fn validate_poll_input(title: &str, description: &str, options: &Vec<String>) -> (result:
    Result<(), VotingError>)
    ensures
        result == match input_error(
            title.spec_bytes(),
            description.spec_bytes(),
            option_texts(options@),
        ) {
            Some(error) => Err::<(), VotingError>(error),
            None => Ok(()),
        },
{
    if title.as_bytes().len() > TITLE_LENGTH {
        return Err(VotingError::TitleTooLong);
    }
    if description.as_bytes().len() > DESCRIPTION_LENGTH {
        return Err(VotingError::DescriptionTooLong);
    }
    if options.len() != OPTIONS_COUNT {
        return Err(VotingError::OptionCountMismatch);
    }
    let ghost texts = option_texts(options@);
    let mut i: usize = 0;
    while i < OPTIONS_COUNT
        invariant
            i <= OPTIONS_COUNT,
            options@.len() == OPTIONS_COUNT,
            texts == option_texts(options@),
            title.spec_bytes().len() <= TITLE_LENGTH,
            description.spec_bytes().len() <= DESCRIPTION_LENGTH,
            forall|j: int| 0 <= j < i ==> (#[trigger] texts[j]).len() <= OPTION_LENGTH,
        decreases OPTIONS_COUNT - i,
    {
        if options[i].as_str().as_bytes().len() > OPTION_LENGTH {
            assert(texts[i as int].len() > OPTION_LENGTH);
            return Err(VotingError::OptionTooLong);
        }
        i = i + 1;
    }
    Ok(())
}

/// Writes the poll that `ctx.authority` opens at `now` with texts that fit.
fn write_poll(
    ctx: &mut InitializePoll,
    title: &str,
    description: &str,
    options: &Vec<String>,
    now: i64,
    bump: u8,
)
    requires
        input_error(title.spec_bytes(), description.spec_bytes(), option_texts(options@))
            is None,
        now + VALIDITY_WINDOW <= i64::MAX,
    ensures
        old(ctx).opened(
            *final(ctx),
            title.spec_bytes(),
            description.spec_bytes(),
            option_texts(options@),
            now,
            bump,
        ),
        final(ctx).poll.total_votes == 0 && sum_of(final(ctx).poll.votes@) == 0,
        final(ctx).poll.wf(),
        final(ctx).poll.holds_texts(
            title.spec_bytes(),
            description.spec_bytes(),
            option_texts(options@),
        ),
{
    let ghost texts = option_texts(options@);
    let mut option_buffers = [[0u8; OPTION_LENGTH]; OPTIONS_COUNT];
    let mut option_lengths = [0u8; OPTIONS_COUNT];
    let mut i: usize = 0;
    while i < OPTIONS_COUNT
        invariant
            i <= OPTIONS_COUNT,
            options@.len() == OPTIONS_COUNT,
            texts == option_texts(options@),
            forall|j: int| 0 <= j < OPTIONS_COUNT ==> (#[trigger] texts[j]).len() <= OPTION_LENGTH,
            forall|j: int| 0 <= j < i ==> #[trigger] option_lengths[j] == texts[j].len(),
            forall|j: int| 0 <= j < i ==> is_zero_padded(#[trigger] option_buffers[j]@, texts[j]),
        decreases OPTIONS_COUNT - i,
    {
        let text = options[i].as_str().as_bytes();
        assert(text@ == texts[i as int]);
        option_buffers[i] = zero_padded(text);
        option_lengths[i] = text.len() as u8;
        i = i + 1;
    }
    ctx.poll = Poll {
        authority: ctx.authority,
        title: zero_padded(title.as_bytes()),
        title_length: title.as_bytes().len() as u8,
        description: zero_padded(description.as_bytes()),
        description_length: description.as_bytes().len() as u16,
        options: option_buffers,
        option_lengths,
        votes: [0u64; OPTIONS_COUNT],
        total_votes: 0,
        expiry: now + VALIDITY_WINDOW,
        is_poll_closed: false,
        bump,
    };
    proof {
        ctx.poll.lemma_opened(
            ctx.authority,
            title.spec_bytes(),
            description.spec_bytes(),
            texts,
            now + VALIDITY_WINDOW,
            bump,
        );
    }
}

/// Opens the poll under a key and a bump seed that the caller has derived:
/// checks the texts, then writes the whole record, with no votes and an
/// expiry one validity window after `now`, and returns the key. On an error
/// nothing is written.
///
/// Texts that fit need an expiry that is no later than the greatest time.
pub fn open_poll(
    ctx: &mut InitializePoll,
    title: &str,
    description: &str,
    options: &Vec<String>,
    now: i64,
    key: Identity,
    bump: u8,
) -> (result: Result<Identity, VotingError>)
    requires
        input_error(title.spec_bytes(), description.spec_bytes(), option_texts(options@))
            is None ==> now + VALIDITY_WINDOW <= i64::MAX,
    ensures
        match input_error(title.spec_bytes(), description.spec_bytes(), option_texts(options@)) {
            Some(error) => result == Err::<Identity, VotingError>(error) && *final(ctx) == *old(
                ctx,
            ),
            None => result == Ok::<Identity, VotingError>(key) && old(ctx).opened(
                *final(ctx),
                title.spec_bytes(),
                description.spec_bytes(),
                option_texts(options@),
                now,
                bump,
            ),
        },
        result is Err ==> *final(ctx) == *old(ctx),
        result is Ok ==> final(ctx).poll.total_votes == 0 && sum_of(final(ctx).poll.votes@) == 0,
        result is Ok ==> final(ctx).poll.wf(),
        result is Ok ==> final(ctx).poll.holds_texts(
            title.spec_bytes(),
            description.spec_bytes(),
            option_texts(options@),
        ),
{
    match validate_poll_input(title, description, options) {
        Err(error) => Err(error),
        Ok(()) => {
            write_poll(ctx, title, description, options, now, bump);
            Ok(key)
        },
    }
}

/// Opens a poll: checks the texts, derives the poll's key from its title and
/// its authority, writes the whole record, with no votes and an expiry one
/// validity window after `now`, and returns the key. On an error nothing is
/// written.
///
/// Texts that fit need a key that can be derived from them and an expiry
/// that is no later than the greatest time; where the caller cannot know
/// that, call [`try_initialize_poll`].
pub fn initialize_poll(
    ctx: &mut InitializePoll,
    title: String,
    description: String,
    options: Vec<String>,
    now: i64,
) -> (result: Result<Identity, VotingError>)
    requires
        input_error(encode_utf8(title@), encode_utf8(description@), option_texts(options@))
            is None ==> now + VALIDITY_WINDOW <= i64::MAX && poll_address(
            old(ctx).program_id,
            old(ctx).authority,
            encode_utf8(title@),
        ) is Some,
    ensures
        match input_error(encode_utf8(title@), encode_utf8(description@), option_texts(options@)) {
            Some(error) => result == Err::<Identity, VotingError>(error) && *final(ctx) == *old(
                ctx,
            ),
            None => result is Ok && poll_address(
                old(ctx).program_id,
                old(ctx).authority,
                encode_utf8(title@),
            ) == Some((result.unwrap()@, final(ctx).poll.bump)) && old(ctx).opened(
                *final(ctx),
                encode_utf8(title@),
                encode_utf8(description@),
                option_texts(options@),
                now,
                final(ctx).poll.bump,
            ),
        },
        result is Err ==> *final(ctx) == *old(ctx),
        result is Ok ==> final(ctx).poll.total_votes == 0 && sum_of(final(ctx).poll.votes@) == 0,
        result is Ok ==> final(ctx).poll.wf(),
        result is Ok ==> final(ctx).poll.holds_texts(
            encode_utf8(title@),
            encode_utf8(description@),
            option_texts(options@),
        ),
{
    match validate_poll_input(title.as_str(), description.as_str(), &options) {
        Err(error) => Err(error),
        Ok(()) => {
            let (key, bump) = derive_poll_key(
                &ctx.program_id,
                &ctx.authority,
                title.as_str(),
            ).unwrap();
            open_poll(ctx, title.as_str(), description.as_str(), &options, now, key, bump)
        },
    }
}

/// Opens a poll as [`initialize_poll`] does, unless the texts fit and either
/// they derive no key or the expiry would lie beyond the greatest time: then
/// it returns `None` and writes nothing.
pub fn try_initialize_poll(
    ctx: &mut InitializePoll,
    title: String,
    description: String,
    options: Vec<String>,
    now: i64,
) -> (result: Option<Result<Identity, VotingError>>)
    ensures
        match input_error(encode_utf8(title@), encode_utf8(description@), option_texts(options@)) {
            Some(error) => result == Some(Err::<Identity, VotingError>(error)) && *final(ctx)
                == *old(ctx),
            None => if now + VALIDITY_WINDOW <= i64::MAX && poll_address(
                old(ctx).program_id,
                old(ctx).authority,
                encode_utf8(title@),
            ) is Some {
                result matches Some(Ok(key)) && poll_address(
                    old(ctx).program_id,
                    old(ctx).authority,
                    encode_utf8(title@),
                ) == Some((key@, final(ctx).poll.bump)) && old(ctx).opened(
                    *final(ctx),
                    encode_utf8(title@),
                    encode_utf8(description@),
                    option_texts(options@),
                    now,
                    final(ctx).poll.bump,
                )
            } else {
                result is None && *final(ctx) == *old(ctx)
            },
        },
        !(result matches Some(Ok(_))) ==> *final(ctx) == *old(ctx),
        result matches Some(Ok(_)) ==> final(ctx).poll.total_votes == 0 && sum_of(
            final(ctx).poll.votes@,
        ) == 0,
        result matches Some(Ok(_)) ==> final(ctx).poll.wf(),
        result matches Some(Ok(_)) ==> final(ctx).poll.holds_texts(
            encode_utf8(title@),
            encode_utf8(description@),
            option_texts(options@),
        ),
{
    let valid = validate_poll_input(title.as_str(), description.as_str(), &options).is_ok();
    if valid && (now > i64::MAX - VALIDITY_WINDOW || derive_poll_key(
        &ctx.program_id,
        &ctx.authority,
        title.as_str(),
    ).is_none()) {
        None
    } else {
        Some(initialize_poll(ctx, title, description, options, now))
    }
}

} // verus!
