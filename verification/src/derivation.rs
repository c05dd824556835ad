//! Derivation of the bounded pseudo-random value.
//!
//! The value is `(counter XOR seed) mod 100`, where the seed is the
//! little-endian reading of exactly eight caller-supplied bytes; any other
//! number of seed bytes silently degrades to the all-zero seed instead of
//! failing.

use vstd::bytes::lemma_auto_spec_u64_to_from_le_bytes;
use vstd::bytes::spec_u64_from_le_bytes;
use vstd::bytes::spec_u64_to_le_bytes;
use vstd::bytes::spec_u64_to_le_bytes_to_open;
use vstd::bytes::u64_from_le_bytes;
use vstd::prelude::*;

verus! {

/// The seed encoded by the caller's bytes: their little-endian value when
/// exactly eight bytes were supplied, and zero for every other length.
pub open spec fn seed_of(seed_bytes: Seq<u8>) -> u64 {
    if seed_bytes.len() == 8 {
        spec_u64_from_le_bytes(seed_bytes)
    } else {
        0u64
    }
}

/// The derived value: bitwise XOR over the full 64-bit width, then the
/// non-negative remainder modulo 100, truncated to 32 bits (safe: the
/// remainder is below 100).
pub open spec fn derived_value(counter: u64, seed_bytes: Seq<u8>) -> u32 {
    (((counter ^ seed_of(seed_bytes)) % 100) as u32)
}

/// Reads the seed from the caller's bytes, degrading every length other
/// than eight to the zero seed.
pub fn seed_from_bytes(seed_bytes: &[u8]) -> (seed: u64)
    ensures
        seed == seed_of(seed_bytes@),
{
    if seed_bytes.len() == 8 {
        u64_from_le_bytes(seed_bytes)
    } else {
        0
    }
}

/// Derives the bounded value from the counter and the caller's seed bytes.
/// Total: every input yields a value, and the value is below 100.
pub fn derive(counter: u64, seed_bytes: &[u8]) -> (value: u32)
    ensures
        value == derived_value(counter, seed_bytes@),
        value < 100,
{
    let seed = seed_from_bytes(seed_bytes);
    let combined: u64 = counter ^ seed;
    (combined % 100) as u32
}

/// Determinism: any two derivations from identical inputs yield identical
/// values. `derive` has no randomness source of its own: its result is
/// `derived_value`, a function of the counter and the seed bytes alone.
pub proof fn lemma_derive_deterministic(
    counter: u64,
    seed_bytes: Seq<u8>,
    first: u32,
    second: u32,
)
    requires
        first == derived_value(counter, seed_bytes),
        second == derived_value(counter, seed_bytes),
    ensures
        first == second,
{
}

/// An all-zero eight-byte sequence reads as the zero seed.
pub proof fn lemma_zero_bytes_read_as_zero(zero_bytes: Seq<u8>)
    requires
        zero_bytes.len() == 8,
        forall|i: int| 0 <= i < 8 ==> zero_bytes[i] == 0,
    ensures
        spec_u64_from_le_bytes(zero_bytes) == 0,
{
    lemma_auto_spec_u64_to_from_le_bytes();
    spec_u64_to_le_bytes_to_open(0);
    assert(0u64 & 0xff == 0 && (0u64 >> 8) & 0xff == 0 && (0u64 >> 16) & 0xff == 0 && (0u64 >> 24)
        & 0xff == 0 && (0u64 >> 32) & 0xff == 0 && (0u64 >> 40) & 0xff == 0 && (0u64 >> 48) & 0xff
        == 0 && (0u64 >> 56) & 0xff == 0) by (bit_vector);
    assert(spec_u64_to_le_bytes(0) =~= zero_bytes);
}

/// Seed-length degradation: for a seed byte sequence whose length is not
/// eight, the derived value equals the one for the empty sequence, and
/// equals the one for eight zero bytes.
pub proof fn lemma_seed_length_degradation(counter: u64, seed_bytes: Seq<u8>, zero_bytes: Seq<u8>)
    requires
        seed_bytes.len() != 8,
        zero_bytes.len() == 8,
        forall|i: int| 0 <= i < 8 ==> zero_bytes[i] == 0,
    ensures
        derived_value(counter, seed_bytes) == derived_value(counter, Seq::<u8>::empty()),
        derived_value(counter, seed_bytes) == derived_value(counter, zero_bytes),
{
    lemma_zero_bytes_read_as_zero(zero_bytes);
}

} // verus!
