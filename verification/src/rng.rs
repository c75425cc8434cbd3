//! A small linear congruential generator, and the random picks that the
//! screen effects draw from it.
//!
//! The generator is a value that its users pass around: the sequence it yields
//! depends on the seed alone.

use vstd::prelude::*;
use vstd::string::*;

verus! {

/// The seed of a generator made by [`Rng::new`].
pub const RNG_SEED: u32 = 12345;

/// The factor by which a state is multiplied on the way to the next.
pub const RNG_MULTIPLIER: u32 = 1103515245;

/// The amount that is added after the multiplication.
pub const RNG_INCREMENT: u32 = 12345;

/// The characters that [`get_random_char`] picks from.
pub const RANDOM_CHARS: &'static str =
    "ABCDEFGHIJKLMNOPQRSTUVWXYZabcdefghijklmnopqrstuvwxyz0123456789!@#$%^&*()SWAG";

/// The number of characters in [`RANDOM_CHARS`].
pub const RANDOM_CHAR_COUNT: u32 = 76;

/// The number of colours in [`RANDOM_COLORS`].
pub const RANDOM_COLOR_COUNT: u32 = 10;

/// The colour attributes that [`get_random_color`] picks from.
pub const RANDOM_COLORS: [u8; 10] = [0x0a, 0x0b, 0x0c, 0x0d, 0x0e, 0x0f, 0x02, 0x03, 0x05, 0x06];

/// The state that follows `state`: multiplied and incremented, with the
/// result cut to 32 bits.
pub open spec fn next_random(state: u32) -> u32 {
    ((state * RNG_MULTIPLIER + RNG_INCREMENT) % 0x1_0000_0000) as u32
}

/// The character that [`get_random_char`] picks when the generator is in
/// `state`.
pub open spec fn random_char(state: u32) -> u8 {
    RANDOM_CHARS.spec_bytes()[(next_random(state) % RANDOM_CHAR_COUNT) as int]
}

/// The colour that [`get_random_color`] picks when the generator is in
/// `state`.
pub open spec fn random_color(state: u32) -> u8 {
    RANDOM_COLORS[(next_random(state) % RANDOM_COLOR_COUNT) as int]
}

/// A pseudo-random number generator.
#[derive(Debug, PartialEq, Eq, Structural)]
pub struct Rng {
    state: u32,
}

impl View for Rng {
    type V = u32;

    /// The number that was drawn last, or the seed if none was.
    closed spec fn view(&self) -> u32 {
        self.state
    }
}

impl Rng {
    /// A generator seeded with [`RNG_SEED`].
    pub fn new() -> (rng: Self)
        ensures
            rng@ == RNG_SEED,
    {
        Rng { state: RNG_SEED }
    }

    /// A generator seeded with `seed`.
    pub fn from_seed(seed: u32) -> (rng: Self)
        ensures
            rng@ == seed,
    {
        Rng { state: seed }
    }
}

/// Draws the next number.
pub fn random(rng: &mut Rng) -> (value: u32)
    ensures
        value == next_random(old(rng)@),
        final(rng)@ == value,
{
    rng.state = rng.state.wrapping_mul(RNG_MULTIPLIER).wrapping_add(RNG_INCREMENT);
    rng.state
}

/// Draws a number and picks the character of [`RANDOM_CHARS`] that it
/// selects.
pub fn get_random_char(rng: &mut Rng) -> (ch: u8)
    ensures
        final(rng)@ == next_random(old(rng)@),
        ch == random_char(old(rng)@),
{
    proof {
        reveal_strlit(
            "ABCDEFGHIJKLMNOPQRSTUVWXYZabcdefghijklmnopqrstuvwxyz0123456789!@#$%^&*()SWAG",
        );
        is_ascii_spec_bytes(RANDOM_CHARS);
    }
    let chars = RANDOM_CHARS.as_bytes();
    let index = (random(rng) % RANDOM_CHAR_COUNT) as usize;
    chars[index]
}

/// Draws a number and picks the colour of [`RANDOM_COLORS`] that it selects.
pub fn get_random_color(rng: &mut Rng) -> (color: u8)
    ensures
        final(rng)@ == next_random(old(rng)@),
        color == random_color(old(rng)@),
{
    let index = (random(rng) % RANDOM_COLOR_COUNT) as usize;
    RANDOM_COLORS[index]
}

} // verus!
