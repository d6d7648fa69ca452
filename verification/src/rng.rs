//! The pseudo-random generator that drives every generated structure.
//!
//! The generator itself is the Xorshift128+ clone of the `libgdx_xs128`
//! crate. Its two state words are private to that crate, so this module
//! keeps them as a ghost pair beside the generator and states every draw as
//! a function of that pair.

use vstd::prelude::*;

verus! {

/// The generator of `libgdx_xs128`, of which nothing is seen from here.
#[verifier::external_type_specification]
#[verifier::external_body]
pub struct ExRandom(libgdx_xs128::old_rng::Random);

/// The state that `RandomXS128::new` gives a generator seeded with `seed`.
pub uninterp spec fn xs128_seeded(seed: u64) -> (u64, u64);

/// The value and the next state that `RandomXS128::next_capped_u64` gives
/// for a state and a modulus.
pub uninterp spec fn xs128_capped(state: (u64, u64), modulus: u64) -> (u64, (u64, u64));

/// The state that `Random::from` gives a generator made from the signed
/// seed `seed`.
pub uninterp spec fn xs128_from(seed: i64) -> (u64, u64);

/// The state that `RandomXS128::advance` leaves for a state and a number
/// of steps.
pub uninterp spec fn xs128_advanced(state: (u64, u64), steps: u32) -> (u64, u64);

/// The state of a generator: its two words.
pub type State = (u64, u64);

/// A draw below `modulus` and the state that it leaves. The generator's
/// draws lie below the modulus; the remainder makes that plain for every
/// state.
pub open spec fn draw(state: State, modulus: u64) -> (int, State) {
    (xs128_capped(state, modulus).0 as int % modulus as int, xs128_capped(state, modulus).1)
}

/// A seeded generator together with its (ghost) state words.
pub struct Rng {
    inner: libgdx_xs128::old_rng::Random,
    state: Ghost<(u64, u64)>,
}

impl View for Rng {
    type V = (u64, u64);

    closed spec fn view(&self) -> (u64, u64) {
        self.state@
    }
}

/// Largest modulus for which a capped draw neither overflows nor rerolls.
pub const MAX_MODULUS: u64 = 0x8000_0000_0000_0000;

/// Calls `RandomXS128::new`: the new generator's state is the one that the
/// crate derives from `seed`.
#[verifier::external_body]
fn seeded(seed: u64) -> (rng: Rng)
    ensures
        rng@ == xs128_seeded(seed),
{
    Rng { inner: libgdx_xs128::RandomXS128::new(seed), state: Ghost(arbitrary()) }
}

/// Calls `RandomXS128::next_capped_u64`: the draw is below the modulus, and
/// both the draw and the state left behind depend on the state before and
/// on the modulus alone.
#[verifier::external_body]
fn capped(rng: &mut Rng, modulus: u64) -> (value: u64)
    requires
        0 < modulus <= MAX_MODULUS,
    ensures
        value < modulus,
        value == xs128_capped(old(rng)@, modulus).0,
        final(rng)@ == xs128_capped(old(rng)@, modulus).1,
{
    libgdx_xs128::RandomXS128::next_capped_u64(&mut rng.inner, modulus)
}

/// Calls `Random::from` for an `i64`: the new generator's state is the one
/// that the crate derives from the signed seed.
#[verifier::external_body]
fn converted(seed: i64) -> (rng: Rng)
    ensures
        rng@ == xs128_from(seed),
{
    Rng { inner: libgdx_xs128::old_rng::Random::from(seed), state: Ghost(arbitrary()) }
}

/// Calls `RandomXS128::advance`: the state left behind depends on the
/// state before and on the number of steps alone.
#[verifier::external_body]
fn advanced(rng: &mut Rng, steps: u32)
    ensures
        final(rng)@ == xs128_advanced(old(rng)@, steps),
{
    libgdx_xs128::RandomXS128::advance(&mut rng.inner, steps)
}

impl Rng {
    /// A generator seeded with `seed`.
    pub fn new(seed: u64) -> (rng: Rng)
        ensures
            rng@ == xs128_seeded(seed),
    {
        seeded(seed)
    }

    /// The generator made from the signed seed `seed`.
    pub fn from_seed(seed: i64) -> (rng: Rng)
        ensures
            rng@ == xs128_from(seed),
    {
        converted(seed)
    }

    /// Advances the generator by `steps` steps.
    pub fn advance(&mut self, steps: u32)
        ensures
            final(self)@ == xs128_advanced(old(self)@, steps),
    {
        advanced(self, steps)
    }

    /// Draws a value in `[0, modulus)` and advances the generator.
    pub fn next_capped_u64(&mut self, modulus: u64) -> (value: u64)
        requires
            0 < modulus <= MAX_MODULUS,
        ensures
            value < modulus,
            (value as int, final(self)@) == draw(old(self)@, modulus),
    {
        let value = capped(self, modulus);
        assert(value as int % modulus as int == value) by {
            vstd::arithmetic::div_mod::lemma_small_mod(value as nat, modulus as nat);
        }
        value
    }
}

} // verus!
