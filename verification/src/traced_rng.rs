//! The city's random generator together with the record of every call made
//! on it. Only the trusted items of this module touch the generator, and only
//! they extend the record.

use vstd::prelude::*;
use rand::rngs::SmallRng;
use rand::{RngExt, SeedableRng};

verus! {

#[verifier::external_type_specification]
#[verifier::external_body]
pub struct ExSmallRng(SmallRng);

/// One call made on a [`TracedRng`].
#[derive(Clone, Copy, Debug, PartialEq, Eq, Structural)]
pub enum RngCall {
    /// The generator was made by `SmallRng::seed_from_u64` with this seed.
    Seeded(u64),
    /// `random::<u32>()` returned this word.
    Word(u32),
    /// `random_range(0..len)` returned `value`.
    Index { len: usize, value: usize },
}

/// A `SmallRng` and the record of the calls made on it, in order.
pub struct TracedRng {
    rng: SmallRng,
    calls: Ghost<Seq<RngCall>>,
}

impl TracedRng {
    /// Every call made on this generator, in order, starting with its seeding.
    pub closed spec fn calls(&self) -> Seq<RngCall> {
        self.calls@
    }
}

/// Calls `rand::rngs::SmallRng::seed_from_u64(seed)`. Claimed: the record
/// holds this seeding and nothing else. Nothing is claimed of the stream: it
/// is not portable across platforms or versions of `rand`.
#[verifier::external_body]
pub fn traced_rng_from_seed(seed: u64) -> (r: TracedRng)
    ensures
        r.calls() == seq![RngCall::Seeded(seed)],
{
    TracedRng { rng: SmallRng::seed_from_u64(seed), calls: Ghost(Seq::empty()) }
}

/// Calls `rand::RngExt::random::<u32>` once on the generator; any `u32` may
/// come back. Claimed: the record gains exactly this call and its result.
#[verifier::external_body]
pub fn traced_u32(rng: &mut TracedRng) -> (w: u32)
    ensures
        final(rng).calls() == old(rng).calls().push(RngCall::Word(w)),
{
    rng.rng.random::<u32>()
}

/// Calls `rand::RngExt::random_range(0..len)` once on the generator, which
/// panics on an empty range and otherwise returns a value of the range.
/// Claimed: the result is below `len`, and the record gains exactly this call
/// and its result.
#[verifier::external_body]
pub fn traced_index(rng: &mut TracedRng, len: usize) -> (i: usize)
    requires
        len > 0,
    ensures
        i < len,
        final(rng).calls() == old(rng).calls().push(RngCall::Index { len, value: i }),
{
    rng.rng.random_range(0..len)
}

} // verus!
