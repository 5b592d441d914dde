//! Deterministic byte source: blocks of bytes and bounded integers drawn from
//! xorshift generators seeded by `seed_from_u64`, each fixed by its seed.

use rand::{Rng, RngCore, SeedableRng};
use rand_xorshift::XorShiftRng;
use vstd::prelude::*;

verus! {

/// Seed of every generator that writes dataset content.
pub const GENERATION_SEED: u64 = 2484345508;

/// Seed of every generator that picks read offsets during a probe.
pub const PROBE_SEED: u64 = 9198675309;

/// The `len` bytes that one `fill_bytes` call of a fresh `XorShiftRng` made
/// by `seed_from_u64(seed)` writes.
pub uninterp spec fn seeded_bytes(seed: u64, len: nat) -> Seq<u8>;

/// The first `count` values that `gen_range(0..bound)` draws, one after the
/// other, from a fresh `XorShiftRng` made by `seed_from_u64(seed)`.
pub uninterp spec fn seeded_draws(seed: u64, bound: u64, count: nat) -> Seq<u64>;

/// Relies on rand_core's `SeedableRng::seed_from_u64` and
/// `XorShiftRng::fill_bytes`: a generator whose state is fixed by the seed
/// overwrites every byte of the buffer.
#[verifier::external_body]
fn fill_from_seed(seed: u64, len: usize) -> (r: Vec<u8>)
    ensures
        r@ == seeded_bytes(seed, len as nat),
        r@.len() == len,
{
    let mut rng = XorShiftRng::seed_from_u64(seed);
    let mut block = vec![0u8; len];
    rng.fill_bytes(&mut block);
    block
}

/// Relies on rand_core's `SeedableRng::seed_from_u64` and rand's
/// `Rng::gen_range` over `0..bound`: successive draws of a generator whose
/// state is fixed by the seed, each in the half-open range, which is never
/// empty here (`gen_range` would reject it).
#[verifier::external_body]
fn draw_from_seed(seed: u64, bound: u64, count: usize) -> (r: Vec<u64>)
    requires
        bound > 0,
    ensures
        r@ == seeded_draws(seed, bound, count as nat),
        r@.len() == count,
        forall|i: int| 0 <= i < r@.len() ==> #[trigger] r@[i] < bound,
{
    let mut rng = XorShiftRng::seed_from_u64(seed);
    let mut draws = Vec::with_capacity(count);
    for _ in 0..count {
        draws.push(rng.gen_range(0..bound));
    }
    draws
}

/// The `len` bytes of a generator made from `seed`.
pub fn bytes_from_seed(seed: u64, len: usize) -> (r: Vec<u8>)
    ensures
        r@ == seeded_bytes(seed, len as nat),
        r@.len() == len,
{
    fill_from_seed(seed, len)
}

/// The first `count` draws from `[0, bound)` of a generator made from `seed`.
pub fn draws_from_seed(seed: u64, bound: u64, count: usize) -> (r: Vec<u64>)
    requires
        bound > 0,
    ensures
        r@ == seeded_draws(seed, bound, count as nat),
        r@.len() == count,
        forall|i: int| 0 <= i < r@.len() ==> #[trigger] r@[i] < bound,
{
    draw_from_seed(seed, bound, count)
}

/// Seed of block `index` of a source made from `seed`.
pub open spec fn block_seed(seed: u64, index: u64) -> u64 {
    seed ^ index
}

/// A reproducible stream of blocks: block `i` of a source made from `seed`
/// holds the bytes of a generator made from `seed ^ i`. Each concurrent
/// writer owns its own source; two sources made from one seed yield the same
/// blocks in the same order.
pub struct ByteSource {
    pub seed: u64,
    /// Blocks handed out so far.
    pub blocks: u64,
}

impl ByteSource {
    pub fn new(seed: u64) -> (r: ByteSource)
        ensures
            r.seed == seed,
            r.blocks == 0,
    {
        ByteSource { seed, blocks: 0 }
    }

    /// The next block of the stream, of `n` bytes.
    pub fn next_block(&mut self, n: usize) -> (r: Vec<u8>)
        requires
            old(self).blocks < u64::MAX,
        ensures
            r@ == seeded_bytes(block_seed(old(self).seed, old(self).blocks), n as nat),
            r@.len() == n,
            final(self).seed == old(self).seed,
            final(self).blocks == old(self).blocks + 1,
    {
        let block = fill_from_seed(self.seed ^ self.blocks, n);
        self.blocks = self.blocks + 1;
        block
    }
}

} // verus!
