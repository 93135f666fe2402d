//! The random source that dice are rolled with: a seedable generator that
//! draws whole numbers from a half-open interval.

use std::ops::Range;
use vstd::prelude::*;

use crate::error::DiceError;

verus! {

/// The error of the `getrandom` crate, `getrandom::Error`.
#[verifier::external_type_specification]
#[verifier::external_body]
pub struct ExEntropyError(getrandom::Error);

/// The state, as `oorandom::Rand32::state` reports it, of the generator that
/// `oorandom::Rand32::new` makes from `seed`: the position in the sequence
/// and the increment that selects the sequence.
pub uninterp spec fn rand32_seeded(seed: u64) -> (u64, u64);

/// What `oorandom::Rand32::rand_range` does on a generator in the state
/// `(state, increment)` when asked for a number in `low..high`: the number it
/// returns, and the position at which it leaves the generator.
pub uninterp spec fn rand32_draw(state: u64, increment: u64, low: u32, high: u32) -> (u32, u64);

/// Trusted: makes a generator with `oorandom::Rand32::new` and reads its
/// state with `oorandom::Rand32::state`. The state is the one named
/// [`rand32_seeded`], and its increment is odd: the crate sets the lowest
/// bit of every increment.
#[verifier::external_body]
fn rand32_new(seed: u64) -> (state: (u64, u64))
    ensures
        state == rand32_seeded(seed),
        state.1 % 2 == 1,
{
    oorandom::Rand32::new(seed).state()
}

/// Trusted: restores a generator with `oorandom::Rand32::from_state`, draws
/// once with `oorandom::Rand32::rand_range`, and reads the new position with
/// `oorandom::Rand32::state`. The pair is the one named [`rand32_draw`], and
/// the number drawn lies in the range: not below `low` and below `high`.
///
/// The range must not be empty: the crate asserts as much, and subtracts
/// `low` from `high`. The increment must be odd: the crate redraws until a
/// number is acceptable, and only a generator with an odd increment is sure
/// to reach one.
#[verifier::external_body]
fn rand32_range(state: u64, increment: u64, low: u32, high: u32) -> (drawn: (u32, u64))
    requires
        increment % 2 == 1,
        low < high,
    ensures
        drawn == rand32_draw(state, increment, low, high),
        low <= drawn.0 < high,
{
    let mut generator = oorandom::Rand32::from_state((state, increment));
    let value = generator.rand_range(low..high);
    (value, generator.state().0)
}

/// Trusted: asks `getrandom::getrandom` of the `getrandom` crate to fill
/// eight bytes from the operating system's entropy source, and hands back
/// either the bytes or the crate's error. Nothing is claimed about which of
/// the two comes back, nor about the bytes.
#[verifier::external_body]
fn os_entropy() -> (bytes: Result<[u8; 8], getrandom::Error>) {
    let mut bytes: [u8; 8] = [0, 0, 0, 0, 0, 0, 0, 0];
    match getrandom::getrandom(&mut bytes) {
        Ok(()) => Ok(bytes),
        Err(error) => Err(error),
    }
}

/// The number that `bytes` spell when read with the most significant byte
/// first.
pub open spec fn big_endian(bytes: Seq<u8>) -> nat
    decreases bytes.len(),
{
    if bytes.len() == 0 {
        0
    } else {
        big_endian(bytes.drop_last()) * 256 + bytes.last() as nat
    }
}

/// Reads eight bytes as one number, most significant byte first.
pub fn seed_from_bytes(bytes: [u8; 8]) -> (seed: u64)
    ensures
        seed == big_endian(bytes@),
{
    let mut seed: u64 = 0;
    let mut i: usize = 0;
    while i < 8
        invariant
            i <= 8,
            seed == big_endian(bytes@.take(i as int)),
            seed < below(i as nat),
        decreases 8 - i,
    {
        proof {
            reveal_with_fuel(below, 10);
            assert(bytes@.take(i + 1).drop_last() =~= bytes@.take(i as int));
            assert(below(8) == 0x1_0000_0000_0000_0000);
            lemma_below_grows((i + 1) as nat, 8);
        }
        seed = seed * 256 + bytes[i] as u64;
        i = i + 1;
    }
    assert(bytes@.take(8) =~= bytes@);
    seed
}

/// The least number that `count` bytes cannot spell: 256 to the power of
/// `count`.
spec fn below(count: nat) -> nat
    decreases count,
{
    if count == 0 {
        1
    } else {
        256 * below((count - 1) as nat)
    }
}

/// More bytes can spell larger numbers.
proof fn lemma_below_grows(fewer: nat, more: nat)
    requires
        fewer <= more,
    ensures
        below(fewer) <= below(more),
    decreases more - fewer,
{
    if fewer < more {
        lemma_below_grows(fewer, (more - 1) as nat);
    }
}

/// A seeded pseudo-random generator. It is fast and statistically adequate
/// for dice, and not meant for anything that must stay secret.
///
/// Its view is the state of the generator: the position in its sequence and
/// the increment that selects the sequence. Equal states draw equal numbers,
/// so a copy of a source repeats what the source draws.
#[derive(Clone, Copy, Debug)]
pub struct RandomSource {
    state: u64,
    increment: u64,
}

impl View for RandomSource {
    type V = (u64, u64);

    closed spec fn view(&self) -> (u64, u64) {
        (self.state, self.increment)
    }
}

/// The number that a source in `state` draws from `low..high`.
pub open spec fn drawn_value(state: (u64, u64), low: u32, high: u32) -> u32 {
    rand32_draw(state.0, state.1, low, high).0
}

/// The state of a source that was in `state` and has drawn once from
/// `low..high`.
pub open spec fn state_after_draw(state: (u64, u64), low: u32, high: u32) -> (u64, u64) {
    (rand32_draw(state.0, state.1, low, high).1, state.1)
}

impl RandomSource {
    #[verifier::type_invariant]
    spec fn increment_is_odd(self) -> bool {
        self.increment % 2 == 1
    }

    /// Creates the source that `seed` determines.
    pub fn new(seed: u64) -> (source: RandomSource)
        ensures
            source@ == rand32_seeded(seed),
    {
        let state = rand32_new(seed);
        RandomSource { state: state.0, increment: state.1 }
    }

    /// Draws a number from `range`, which must not be empty: the result is
    /// at least `range.start` and less than `range.end`. The number and the
    /// state that the source is left in depend on nothing but the state
    /// before the call and the range.
    pub fn roll(&mut self, range: Range<u32>) -> (value: u32)
        requires
            range.start < range.end,
        ensures
            range.start <= value < range.end,
            value == drawn_value(old(self)@, range.start, range.end),
            final(self)@ == state_after_draw(old(self)@, range.start, range.end),
    {
        proof {
            use_type_invariant(&*self);
        }
        let drawn = rand32_range(self.state, self.increment, range.start, range.end);
        self.state = drawn.1;
        drawn.0
    }

    /// The state of the source, in the form that `oorandom::Rand32`
    /// restores a generator from.
    pub fn state(&self) -> (state: (u64, u64))
        ensures
            state == self@,
    {
        (self.state, self.increment)
    }
}

/// Makes a random source of what the operating system's entropy source
/// answered: eight bytes, read as a seed with the most significant byte
/// first, or its refusal, which becomes [`DiceError::Entropy`].
pub fn random_from_entropy(entropy: Result<[u8; 8], getrandom::Error>) -> (source: Result<
    RandomSource,
    DiceError,
>)
    ensures
        match entropy {
            Ok(bytes) => source is Ok && source->Ok_0@ == rand32_seeded(big_endian(bytes@) as u64),
            Err(_) => source is Err && source->Err_0 == DiceError::Entropy,
        },
{
    match entropy {
        Ok(bytes) => Ok(RandomSource::new(seed_from_bytes(bytes))),
        Err(_) => Err(DiceError::Entropy),
    }
}

/// Creates a random source from a seed that the operating system provides.
///
/// Fails with [`DiceError::Entropy`] when the operating system has no
/// entropy to give; no other failure is possible.
pub fn setup_random() -> (source: Result<RandomSource, DiceError>)
    ensures
        match source {
            Ok(random) => exists|seed: u64| random@ == rand32_seeded(seed),
            Err(error) => error == DiceError::Entropy,
        },
{
    random_from_entropy(os_entropy())
}

} // verus!
