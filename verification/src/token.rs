//! Claim tokens: fresh random fencing values.

use crate::text::{optional_bytes, same_bytes};
use vstd::prelude::*;

verus! {

#[verifier::external_type_specification]
#[verifier::external_body]
pub struct ExEntropyError(getrandom::Error);

/// What a source yielded when it was asked for bytes: the bytes, or its failure.
pub open spec fn outcome(result: Result<(), getrandom::Error>, bytes: Seq<u8>) -> Result<
    Seq<u8>,
    getrandom::Error,
> {
    match result {
        Ok(()) => Ok(bytes),
        Err(error) => Err(error),
    }
}

/// What a source yielded in a row.
pub type Draws = Seq<Result<Seq<u8>, getrandom::Error>>;

/// The buffers that a source was handed in a row.
pub type Requests = Seq<Seq<u8>>;

/// A source of random bytes.
pub trait EntropySource {
    /// Everything that the source has yielded so far, in order.
    spec fn draws(&self) -> Draws;

    /// The buffers that the source was handed so far, in order, as they were
    /// before it wrote to them.
    spec fn requests(&self) -> Requests;

    /// Overwrites `output` with random bytes, or fails. Either way this is the
    /// next draw.
    fn fill(&mut self, output: &mut [u8]) -> (result: Result<(), getrandom::Error>)
        ensures
            final(output)@.len() == old(output)@.len(),
            final(self).requests() == old(self).requests().push(old(output)@),
            final(self).draws() == old(self).draws().push(outcome(result, final(output)@)),
    ;
}

/// The operating system's random number source, with a record of its draws.
pub struct OsEntropy {
    drawn: Ghost<Draws>,
    requested: Ghost<Requests>,
}

impl OsEntropy {
    /// A source that was not asked for bytes yet.
    pub fn new() -> (source: OsEntropy)
        ensures
            source.draws() == Seq::<Result<Seq<u8>, getrandom::Error>>::empty(),
            source.requests() == Seq::<Seq<u8>>::empty(),
    {
        OsEntropy { drawn: Ghost(Seq::empty()), requested: Ghost(Seq::empty()) }
    }
}

/// `getrandom::fill`: overwrites the slice with random bytes, or fails. Only the
/// length of the slice is claimed, for the bytes are random.
#[verifier::external_body]
fn random_bytes(output: &mut [u8]) -> (result: Result<(), getrandom::Error>)
    ensures
        final(output)@.len() == old(output)@.len(),
{
    getrandom::fill(output)
}

impl EntropySource for OsEntropy {
    closed spec fn draws(&self) -> Draws {
        self.drawn@
    }

    closed spec fn requests(&self) -> Requests {
        self.requested@
    }

    fn fill(&mut self, output: &mut [u8]) -> (result: Result<(), getrandom::Error>) {
        self.requested = Ghost(self.requested@.push(output@));
        let result = random_bytes(output);
        self.drawn = Ghost(self.drawn@.push(outcome(result, output@)));
        result
    }
}

/// `getrandom::Error::UNEXPECTED`: the error for a source that misbehaves.
#[verifier::external_body]
fn unexpected() -> (error: getrandom::Error) {
    getrandom::Error::UNEXPECTED
}

/// Whether a token differs from the previous one and from those in use.
pub open spec fn is_fresh(token: Seq<u8>, previous: Option<Seq<u8>>, used: Seq<[u8; 16]>) -> bool {
    &&& previous != Some(token)
    &&& forall|i: int| 0 <= i < used.len() ==> (#[trigger] used[i])@ != token
}

/// Whether a draw yielded bytes that cannot be the token.
pub open spec fn is_stale(
    draw: Result<Seq<u8>, getrandom::Error>,
    previous: Option<Seq<u8>>,
    used: Seq<[u8; 16]>,
) -> bool {
    draw matches Ok(bytes) && !is_fresh(bytes, previous, used)
}

/// Whether these draws are a search for a fresh token with that result: all but
/// the last are stale, and the last is the token or the failure. A search whose
/// draws are all stale fails only when a 64-bit counter has run out.
pub open spec fn is_search(
    draws: Draws,
    previous: Option<Seq<u8>>,
    used: Seq<[u8; 16]>,
    result: Result<Seq<u8>, getrandom::Error>,
) -> bool {
    &&& draws.len() > 0
    &&& forall|i: int| 0 <= i < draws.len() - 1 ==> is_stale(#[trigger] draws[i], previous, used)
    &&& match result {
        Ok(token) => draws.last() == result && is_fresh(token, previous, used),
        Err(_) => {
            ||| draws.last() == result
            ||| is_stale(draws.last(), previous, used) && draws.len() == u64::MAX
        },
    }
}

/// The draws of a source since an earlier moment.
pub open spec fn draws_since(
    before: Draws,
    after: Draws,
) -> Draws {
    after.skip(before.len() as int)
}

/// Whether a series of searches that made these draws ended in that failure.
pub open spec fn ends_in_failure(
    draws: Draws,
    error: getrandom::Error,
) -> bool {
    &&& draws.len() > 0
    &&& draws.last() == Err::<Seq<u8>, getrandom::Error>(error) || draws.len() >= u64::MAX
}

/// What was drawn since a moment stays drawn when more is drawn: the draws since
/// then are those up to a later moment, then those since that moment.
pub proof fn later_draws_are_kept(
    before: Draws,
    middle: Draws,
    after: Draws,
)
    requires
        before.is_prefix_of(middle),
        middle.is_prefix_of(after),
    ensures
        before.is_prefix_of(after),
        draws_since(before, after) == draws_since(before, middle) + draws_since(middle, after),
        forall|draw: Result<Seq<u8>, getrandom::Error>| #[trigger]
            draws_since(before, middle).contains(draw) ==> draws_since(before, after).contains(
                draw,
            ),
        draws_since(middle, after).len() > 0 ==> {
            &&& draws_since(before, after).last() == draws_since(middle, after).last()
            &&& draws_since(before, after).contains(draws_since(middle, after).last())
        },
{
    let first = draws_since(before, middle);
    let rest = draws_since(middle, after);
    assert(draws_since(before, after) == first + rest);
    assert forall|draw: Result<Seq<u8>, getrandom::Error>| #[trigger]
        first.contains(draw) implies (first + rest).contains(draw) by {
        let i = choose|i: int| 0 <= i < first.len() && first[i] == draw;
        assert((first + rest)[i] == draw);
    }
    if rest.len() > 0 {
        let whole = first + rest;
        assert(whole[whole.len() - 1] == rest.last());
    }
}

/// What one draw of random bytes leads to.
#[derive(Debug)]
pub enum Draw {
    /// The bytes are a fresh token.
    Fresh,
    /// The bytes were seen before: draw again.
    Stale,
    /// The source failed.
    Failed(getrandom::Error),
}

/// Judges one draw: a failure of the source ends the search, and only bytes that
/// differ from the previous token and from all tokens in use are accepted.
pub fn judge_draw(
    drawn: Result<(), getrandom::Error>,
    token: &[u8; 16],
    previous: &Option<Vec<u8>>,
    used: &Vec<[u8; 16]>,
) -> (draw: Draw)
    ensures
        match drawn {
            Err(error) => draw == Draw::Failed(error),
            Ok(()) => if is_fresh(token@, optional_bytes(*previous), used@) {
                draw is Fresh
            } else {
                draw is Stale
            },
        },
{
    if let Err(error) = drawn {
        return Draw::Failed(error);
    }
    if let Some(bytes) = previous {
        if same_bytes(bytes.as_slice(), token.as_slice()) {
            return Draw::Stale;
        }
    }
    let mut index: usize = 0;
    while index < used.len()
        invariant
            drawn is Ok,
            optional_bytes(*previous) != Some(token@),
            index <= used@.len(),
            forall|i: int| 0 <= i < index ==> (#[trigger] used@[i])@ != token@,
        decreases used@.len() - index,
    {
        if same_bytes(used[index].as_slice(), token.as_slice()) {
            return Draw::Stale;
        }
        index = index + 1;
    }
    Draw::Fresh
}

/// A buffer for a token that nothing was written to.
pub open spec fn blank_token() -> Seq<u8> {
    Seq::new(16, |i: int| 0u8)
}

/// Whether a source was handed that many blank buffers, and no other, between two
/// moments.
pub open spec fn only_blanks(before: Requests, after: Requests, count: nat) -> bool {
    after == before + Seq::new(count, |i: int| blank_token())
}

/// Blank buffers up to a moment and from it on are blank buffers throughout.
pub proof fn blanks_add_up(
    before: Requests,
    middle: Requests,
    after: Requests,
    first: nat,
    second: nat,
)
    requires
        only_blanks(before, middle, first),
        only_blanks(middle, after, second),
    ensures
        only_blanks(before, after, first + second),
{
    assert(after == before + Seq::new(first + second, |i: int| blank_token()));
}

/// Draws tokens until one differs from the previous token and from all tokens in
/// use. A failure of the source is handed on; a source that yields nothing but
/// stale bytes for as long as a 64-bit counter runs is given up as misbehaving.
/// Every draw is made into a blank buffer, so no bytes of an earlier draw are
/// left in a token.
pub fn fresh_token<E: EntropySource>(
    previous: &Option<Vec<u8>>,
    used: &Vec<[u8; 16]>,
    entropy: &mut E,
) -> (result: Result<[u8; 16], getrandom::Error>)
    ensures
        old(entropy).draws().is_prefix_of(final(entropy).draws()),
        is_search(
            draws_since(old(entropy).draws(), final(entropy).draws()),
            optional_bytes(*previous),
            used@,
            match result {
                Ok(token) => Ok(token@),
                Err(error) => Err(error),
            },
        ),
        only_blanks(
            old(entropy).requests(),
            final(entropy).requests(),
            draws_since(old(entropy).draws(), final(entropy).draws()).len(),
        ),
{
    let ghost before = entropy.draws();
    let ghost requests = entropy.requests();
    let mut draws_left: u64 = u64::MAX;
    while draws_left > 0
        invariant
            before == old(entropy).draws(),
            before.is_prefix_of(entropy.draws()),
            requests == old(entropy).requests(),
            only_blanks(
                requests,
                entropy.requests(),
                draws_since(before, entropy.draws()).len(),
            ),
            draws_since(before, entropy.draws()).len() == u64::MAX - draws_left,
            forall|i: int|
                0 <= i < draws_since(before, entropy.draws()).len() ==> is_stale(
                    #[trigger] draws_since(before, entropy.draws())[i],
                    optional_bytes(*previous),
                    used@,
                ),
        decreases draws_left,
    {
        let ghost so_far = draws_since(before, entropy.draws());
        let mut token: [u8; 16] = [0u8; 16];
        assert(token@ == blank_token());
        let drawn = entropy.fill(&mut token);
        assert(draws_since(before, entropy.draws()) == so_far.push(outcome(drawn, token@)));
        assert(entropy.requests() == requests + Seq::new(so_far.len() + 1, |i: int| blank_token()));
        match judge_draw(drawn, &token, previous, used) {
            Draw::Fresh => return Ok(token),
            Draw::Stale => {},
            Draw::Failed(error) => return Err(error),
        }
        draws_left = draws_left - 1;
    }
    Err(unexpected())
}

/// Bytes are taken as a token exactly if the source yielded them and they differ from
/// the token that the row held and from every token of the batch. A failure of the
/// source is handed on.
pub proof fn only_new_bytes_become_a_token(
    drawn: Result<(), getrandom::Error>,
    token: &[u8; 16],
    previous: &Option<Vec<u8>>,
    used: &Vec<[u8; 16]>,
    draw: Draw,
)
    requires
        call_ensures(judge_draw, (drawn, token, previous, used), draw),
    ensures
        draw is Fresh <==> {
            &&& drawn is Ok
            &&& previous matches Some(bytes) ==> bytes@ != token@
            &&& forall|i: int| 0 <= i < used@.len() ==> (#[trigger] used@[i])@ != token@
        },
        drawn matches Err(error) ==> draw == Draw::Failed(error),
        drawn is Ok ==> !(draw is Failed),
{
}

/// A token that was drawn is one that the source yielded, and differs from the token
/// that the row held and from every token of the batch.
pub proof fn drawn_tokens_are_new<E: EntropySource>(
    previous: &Option<Vec<u8>>,
    used: &Vec<[u8; 16]>,
    entropy: &mut E,
    result: Result<[u8; 16], getrandom::Error>,
)
    requires
        call_ensures(fresh_token::<E>, (previous, used, entropy), result),
    ensures
        result matches Ok(token) ==> {
            &&& previous matches Some(bytes) ==> bytes@ != token@
            &&& forall|i: int| 0 <= i < used@.len() ==> (#[trigger] used@[i])@ != token@
            &&& final(entropy).draws().len() > old(entropy).draws().len()
            &&& final(entropy).draws().last() == Ok::<Seq<u8>, getrandom::Error>(token@)
        },
        result matches Err(error) ==> {
            ||| final(entropy).draws().last() == Err::<Seq<u8>, getrandom::Error>(error)
            ||| final(entropy).draws().len() >= old(entropy).draws().len() + u64::MAX
        },
        final(entropy).requests().len() - old(entropy).requests().len()
            == final(entropy).draws().len() - old(entropy).draws().len(),
{
}

} // verus!
