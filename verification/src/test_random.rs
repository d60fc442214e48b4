//! Values made up from a random number generator, for tests.

use crate::types::Hash256;
use rand::prng::XorShiftRng;
use rand::RngCore;
use vstd::prelude::*;

verus! {

/// The generator `rand::prng::XorShiftRng`. Nothing is known of its state.
#[verifier::external_type_specification]
#[verifier::external_body]
pub struct ExXorShiftRng(XorShiftRng);

/// A value that can be made up from random numbers.
pub trait TestRandom: Sized {
    /// A value made up from the numbers that `rng` gives next.
    fn random_for_test(rng: &mut XorShiftRng) -> Self;
}

/// Calls `RngCore::next_u64` on the generator. Every `u64` can come back,
/// so nothing is claimed of the result.
#[verifier::external_body]
fn next_u64(rng: &mut XorShiftRng) -> u64 {
    rng.next_u64()
}

/// Calls `RngCore::next_u32` on the generator. Every `u32` can come back,
/// so nothing is claimed of the result.
#[verifier::external_body]
fn next_u32(rng: &mut XorShiftRng) -> u32 {
    rng.next_u32()
}

/// Calls `RngCore::fill_bytes` on the generator, with room for 32 bytes.
/// Every 32 bytes can come back, so nothing is claimed of the result.
#[verifier::external_body]
fn next_32_bytes(rng: &mut XorShiftRng) -> [u8; 32] {
    let mut key_bytes = [0u8; 32];
    rng.fill_bytes(&mut key_bytes);
    key_bytes
}

impl TestRandom for u64 {
    fn random_for_test(rng: &mut XorShiftRng) -> u64 {
        next_u64(rng)
    }
}

/// The boolean that a random `word` stands for: `true` exactly if the word
/// is odd.
pub fn bool_from_word(word: u32) -> (value: bool)
    ensures
        value == (word % 2 == 1),
{
    (word % 2) == 1
}

impl TestRandom for bool {
    fn random_for_test(rng: &mut XorShiftRng) -> bool {
        bool_from_word(next_u32(rng))
    }
}

impl TestRandom for Hash256 {
    fn random_for_test(rng: &mut XorShiftRng) -> Hash256 {
        Hash256 { bytes: next_32_bytes(rng) }
    }
}

} // verus!
