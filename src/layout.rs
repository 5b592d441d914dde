//! Shard arithmetic of the parallel large-file generator: a file of
//! `total_size` bytes is split into `workers` equal contiguous shards, each
//! written as whole blocks of `block_size` bytes at absolute offsets.

use vstd::arithmetic::div_mod::{lemma_breakdown, lemma_fundamental_div_mod};
use vstd::arithmetic::mul::{lemma_mul_inequality, lemma_mul_is_distributive_add};
use vstd::prelude::*;

verus! {

/// Size of one generated block: 1.25 MiB.
pub const BLOCK_SIZE: u64 = 1310720;

/// Number of parallel writers of the large random file.
pub const WORKER_COUNT: u64 = 16;

/// Size of the large dataset files: 25 GiB.
pub const LARGE_FILE_SIZE: u64 = 26843545600;

/// Why a size cannot be split into shards of whole blocks.
#[derive(Debug, Clone, Copy, PartialEq, Eq, Structural)]
pub enum LayoutError {
    ZeroBlockSize,
    ZeroWorkers,
    NotDivisible,
}

/// `total` is split into `workers` shards of whole `block`-byte blocks.
pub open spec fn splits_evenly(total: int, block: int, workers: int) -> bool {
    block > 0 && workers > 0 && total % (block * workers) == 0
}

/// The split of one file into equal shards of whole blocks.
#[derive(Debug, Clone, Copy, PartialEq, Eq, Structural)]
pub struct ShardLayout {
    pub total_size: u64,
    pub block_size: u64,
    pub workers: u64,
    pub blocks_per_shard: u64,
}

impl ShardLayout {
    pub open spec fn wf(self) -> bool {
        &&& self.block_size > 0
        &&& self.workers > 0
        &&& self.total_size == self.workers * (self.blocks_per_shard * self.block_size)
    }

    pub open spec fn spec_shard_size(self) -> int {
        self.blocks_per_shard * self.block_size
    }

    /// Absolute file offset of block `block` of shard `shard`.
    pub open spec fn offset_of(self, shard: int, block: int) -> int {
        shard * self.spec_shard_size() + block * self.block_size
    }

    /// The layout of `total_size` bytes over `workers` shards of
    /// `block_size`-byte blocks; fails unless the size splits evenly.
    pub fn new(total_size: u64, block_size: u64, workers: u64) -> (r: Result<ShardLayout, LayoutError>)
        ensures
            r is Ok <==> splits_evenly(total_size as int, block_size as int, workers as int),
            r is Ok ==> ({
                let l = r->Ok_0;
                &&& l.wf()
                &&& l.total_size == total_size
                &&& l.block_size == block_size
                &&& l.workers == workers
            }),
            r is Err ==> r->Err_0 == (if block_size == 0 {
                LayoutError::ZeroBlockSize
            } else if workers == 0 {
                LayoutError::ZeroWorkers
            } else {
                LayoutError::NotDivisible
            }),
    {
        if block_size == 0 {
            return Err(LayoutError::ZeroBlockSize);
        }
        if workers == 0 {
            return Err(LayoutError::ZeroWorkers);
        }
        let blocks = total_size / block_size;
        proof {
            let x = total_size as int;
            let y = block_size as int;
            let z = workers as int;
            lemma_breakdown(x, y, z);
            let q = (x / y) % z;
            let m = x % y;
            assert(0 <= q && 0 <= m);
            assert(y * q + m == 0 <==> (q == 0 && m == 0)) by (nonlinear_arith)
                requires
                    y > 0,
                    q >= 0,
                    m >= 0,
            ;
        }
        if total_size % block_size != 0 || blocks % workers != 0 {
            return Err(LayoutError::NotDivisible);
        }
        let per_shard = blocks / workers;
        proof {
            lemma_fundamental_div_mod(total_size as int, block_size as int);
            lemma_fundamental_div_mod(blocks as int, workers as int);
            assert(total_size == block_size * (workers * per_shard));
            assert(block_size * (workers * per_shard) == workers * (per_shard * block_size))
                by (nonlinear_arith);
        }
        Ok(ShardLayout { total_size, block_size, workers, blocks_per_shard: per_shard })
    }

    /// Bytes in one shard.
    pub fn shard_size(&self) -> (r: u64)
        requires
            self.wf(),
        ensures
            r == self.spec_shard_size(),
    {
        proof {
            lemma_mul_inequality(1, self.workers as int, self.spec_shard_size());
        }
        self.blocks_per_shard * self.block_size
    }

    /// Absolute file offset of block `block` of shard `shard`; the whole
    /// block lies inside the file.
    pub fn block_offset(&self, shard: u64, block: u64) -> (r: u64)
        requires
            self.wf(),
            shard < self.workers,
            block < self.blocks_per_shard,
        ensures
            r == self.offset_of(shard as int, block as int),
            r + self.block_size <= self.total_size,
    {
        proof {
            self.lemma_block_inside(shard as int, block as int);
        }
        let size = self.shard_size();
        assert(shard * size + block * self.block_size <= self.total_size) by (nonlinear_arith)
            requires
                shard * size + block * self.block_size + self.block_size <= self.total_size,
                self.block_size > 0,
        {}
        assert(shard * size <= self.total_size) by (nonlinear_arith)
            requires
                shard * size + block * self.block_size <= self.total_size,
                block * self.block_size >= 0,
        {}
        assert(block * self.block_size <= self.total_size) by (nonlinear_arith)
            requires
                shard * size + block * self.block_size <= self.total_size,
                shard * size >= 0,
        {}
        shard * size + block * self.block_size
    }

    proof fn lemma_block_inside(self, shard: int, block: int)
        requires
            self.wf(),
            0 <= shard < self.workers,
            0 <= block < self.blocks_per_shard,
        ensures
            self.offset_of(shard, block) >= 0,
            self.offset_of(shard, block) + self.block_size <= self.total_size,
    {
        let bps = self.blocks_per_shard as int;
        let b = self.block_size as int;
        assert(self.offset_of(shard, block) == (shard * bps + block) * b) by (nonlinear_arith)
            requires
                self.offset_of(shard, block) == shard * (bps * b) + block * b,
        ;
        assert(shard * bps + block + 1 <= self.workers * bps) by (nonlinear_arith)
            requires
                0 <= shard < self.workers,
                0 <= block < bps,
        ;
        lemma_mul_inequality(shard * bps + block + 1, self.workers * bps, b);
        assert((shard * bps + block + 1) * b == (shard * bps + block) * b + b) by (nonlinear_arith);
        assert(self.workers * bps * b == self.total_size) by (nonlinear_arith)
            requires
                self.total_size == self.workers * (bps * b),
        ;
        assert((shard * bps + block) * b >= 0) by (nonlinear_arith)
            requires
                0 <= shard,
                0 <= block,
                0 <= bps,
                0 < b,
        ;
    }

    /// Offsets of the blocks of shard `shard`, in writing order.
    pub fn shard_block_offsets(&self, shard: u64) -> (r: Vec<u64>)
        requires
            self.wf(),
            shard < self.workers,
        ensures
            r@.len() == self.blocks_per_shard,
            forall|k: int| 0 <= k < r@.len() ==> r@[k] == self.offset_of(shard as int, k),
    {
        let mut offsets: Vec<u64> = Vec::new();
        let mut k: u64 = 0;
        while k < self.blocks_per_shard
            invariant
                self.wf(),
                shard < self.workers,
                k <= self.blocks_per_shard,
                offsets@.len() == k,
                forall|j: int| 0 <= j < k ==> offsets@[j] == self.offset_of(shard as int, j),
            decreases self.blocks_per_shard - k,
        {
            let offset = self.block_offset(shard, k);
            offsets.push(offset);
            k = k + 1;
        }
        offsets
    }
}

/// Index of block `block` of shard `shard` when all blocks of the file are
/// numbered from its start.
pub open spec fn global_index(l: ShardLayout, shard: int, block: int) -> int {
    shard * l.blocks_per_shard + block
}

/// The offset of a block is its index from the start of the file times the
/// block size.
pub proof fn lemma_offset_by_index(l: ShardLayout, shard: int, block: int)
    requires
        l.wf(),
    ensures
        l.offset_of(shard, block) == global_index(l, shard, block) * l.block_size,
{
    let bps = l.blocks_per_shard as int;
    let b = l.block_size as int;
    assert(shard * (bps * b) + block * b == (shard * bps + block) * b) by (nonlinear_arith);
}

/// Distinct blocks of a layout never overlap, so the writers of different
/// shards, and the successive writes of one writer, touch disjoint bytes.
pub proof fn lemma_blocks_disjoint(l: ShardLayout, s1: int, b1: int, s2: int, b2: int)
    requires
        l.wf(),
        0 <= s1 < l.workers,
        0 <= s2 < l.workers,
        0 <= b1 < l.blocks_per_shard,
        0 <= b2 < l.blocks_per_shard,
        s1 != s2 || b1 != b2,
    ensures
        l.offset_of(s1, b1) + l.block_size <= l.offset_of(s2, b2) || l.offset_of(s2, b2)
            + l.block_size <= l.offset_of(s1, b1),
{
    let bps = l.blocks_per_shard as int;
    let b = l.block_size as int;
    let g1 = global_index(l, s1, b1);
    let g2 = global_index(l, s2, b2);
    lemma_offset_by_index(l, s1, b1);
    lemma_offset_by_index(l, s2, b2);
    assert(g1 != g2) by (nonlinear_arith)
        requires
            g1 == s1 * bps + b1,
            g2 == s2 * bps + b2,
            0 <= b1 < bps,
            0 <= b2 < bps,
            s1 != s2 || b1 != b2,
    {
        if s1 < s2 {
            assert(s1 * bps + bps <= s2 * bps);
        } else if s2 < s1 {
            assert(s2 * bps + bps <= s1 * bps);
        }
    }
    if g1 < g2 {
        lemma_mul_inequality(g1 + 1, g2, b);
        lemma_mul_is_distributive_add(b, g1, 1);
        assert((g1 + 1) * b == g1 * b + b) by (nonlinear_arith);
    } else {
        lemma_mul_inequality(g2 + 1, g1, b);
        assert((g2 + 1) * b == g2 * b + b) by (nonlinear_arith);
    }
}

/// The blocks of a layout cover the file: every byte offset below
/// `total_size` lies in the block of some shard, so the generated file has
/// exactly `total_size` bytes, with none left unwritten.
pub proof fn lemma_blocks_cover(l: ShardLayout, pos: int)
    requires
        l.wf(),
        0 <= pos < l.total_size,
    ensures
        exists|s: int, k: int|
            0 <= s < l.workers && 0 <= k < l.blocks_per_shard && #[trigger] l.offset_of(s, k) <= pos
                < l.offset_of(s, k) + l.block_size,
{
    let bps = l.blocks_per_shard as int;
    let b = l.block_size as int;
    let w = l.workers as int;
    assert(l.total_size == (w * bps) * b) by (nonlinear_arith)
        requires
            l.total_size == w * (bps * b),
    ;
    let g = pos / b;
    lemma_fundamental_div_mod(pos, b);
    assert(g < w * bps) by (nonlinear_arith)
        requires
            pos == b * g + pos % b,
            0 <= pos % b,
            pos < (w * bps) * b,
            b > 0,
    {
        if g >= w * bps {
            lemma_mul_inequality(w * bps, g, b);
        }
    }
    assert(g >= 0) by (nonlinear_arith)
        requires
            pos == b * g + pos % b,
            pos % b < b,
            pos >= 0,
            b > 0,
    ;
    assert(bps > 0) by (nonlinear_arith)
        requires
            0 <= g < w * bps,
            w > 0,
    ;
    let s = g / bps;
    let k = g % bps;
    lemma_fundamental_div_mod(g, bps);
    assert(0 <= s < w) by (nonlinear_arith)
        requires
            g == bps * s + k,
            0 <= k < bps,
            0 <= g < w * bps,
    {
        if s >= w {
            lemma_mul_inequality(w, s, bps);
        }
        if s < 0 {
            assert(bps * s <= -bps);
        }
    }
    lemma_offset_by_index(l, s, k);
    assert(global_index(l, s, k) == g) by (nonlinear_arith)
        requires
            g == bps * s + k,
            global_index(l, s, k) == s * bps + k,
    ;
    assert(g * b <= pos < g * b + b) by (nonlinear_arith)
        requires
            pos == b * g + pos % b,
            0 <= pos % b < b,
    ;
}

} // verus!
