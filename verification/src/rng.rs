//! The random source that drives every draw.
//!
//! A query owns one generator for its whole run. The generator is the 32-bit
//! permuted congruential generator of the `rand_pcg` crate; nothing in this
//! library looks inside it. Contracts speak of its states only to say which
//! state a draw started from and which state it left behind.

use vstd::prelude::*;

verus! {

/// `rand_pcg::Lcg64Xsh32` (also known as `Pcg32`), taken as an opaque value.
#[verifier::external_type_specification]
#[verifier::external_body]
pub struct ExLcg64Xsh32(rand_pcg::Lcg64Xsh32);

/// The random source handed to every node.
pub type Rng = rand_pcg::Pcg32;

/// Initial state of the source a query creates when none is supplied.
///
/// Queries are deterministic by default; pass a source of your own to the
/// `*_with` forms of the queries to vary the draws.
pub const DEFAULT_STATE: u64 = 0xcafef00dd15ea5e5;

/// Stream selector of the source a query creates when none is supplied.
pub const DEFAULT_STREAM: u64 = 0xa02bdbf7bb3c0a7;

/// The generator that `rand_pcg::Lcg64Xsh32::new(state, stream)` constructs.
pub uninterp spec fn seeded_source(state: u64, stream: u64) -> Rng;

/// Calls `rand_pcg::Lcg64Xsh32::new`.
///
/// Trusted: the constructor computes the generator from its two arguments and
/// nothing else, so equal arguments give equal generators.
#[verifier::external_body]
pub(crate) fn seeded(state: u64, stream: u64) -> (rng: Rng)
    ensures
        rng == seeded_source(state, stream),
{
    rand_pcg::Pcg32::new(state, stream)
}

} // verus!
