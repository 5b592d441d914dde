//! What each timed probe reads: how many full blocks a sequential pass reads,
//! and where the random probes read, drawn from a freshly seeded source.

use crate::byte_source::{draws_from_seed, seeded_draws};
use vstd::arithmetic::div_mod::lemma_fundamental_div_mod;
use vstd::prelude::*;

verus! {

/// Block size of the sequential-throughput probe: 1.25 MiB.
pub const SEQUENTIAL_BLOCK: u64 = 1310720;

/// Block size of the random-throughput probe: 1 MiB.
pub const RANDOM_BLOCK: u64 = 1048576;

/// Number of reads of a random probe.
pub const PROBE_READS: u64 = 1024;

/// Why a probe cannot run on a file.
#[derive(Debug, Clone, Copy, PartialEq, Eq, Structural)]
pub enum ProbeError {
    /// The file leaves no room for a random read of the probe's size.
    FileTooSmall,
}

/// Number of full blocks that a sequential pass over `file_size` bytes reads.
pub open spec fn full_blocks(file_size: int, block_size: int) -> int {
    file_size / block_size
}

/// Number of reads of the sequential-throughput probe: the full blocks of
/// the file; a trailing partial block is left unread.
pub fn sequential_read_count(file_size: u64, block_size: u64) -> (r: u64)
    requires
        block_size > 0,
    ensures
        r == full_blocks(file_size as int, block_size as int),
{
    file_size / block_size
}

/// A sequential pass reads only full blocks, all inside the file, and what it
/// leaves unread is shorter than one block.
pub proof fn lemma_sequential_reads_are_full(file_size: int, block_size: int)
    requires
        file_size >= 0,
        block_size > 0,
    ensures
        full_blocks(file_size, block_size) >= 0,
        full_blocks(file_size, block_size) * block_size <= file_size,
        file_size - full_blocks(file_size, block_size) * block_size < block_size,
{
    lemma_fundamental_div_mod(file_size, block_size);
    let n = file_size / block_size;
    assert(n * block_size == block_size * n) by (nonlinear_arith);
    assert(n >= 0) by (nonlinear_arith)
        requires
            file_size == block_size * n + file_size % block_size,
            file_size % block_size < block_size,
            file_size >= 0,
            block_size > 0,
    ;
}

/// Number of block positions a random-throughput read may start at.
pub open spec fn random_block_slots(file_size: int, block_size: int) -> int {
    (file_size - block_size) / block_size
}

/// `offset` is the start of a block-aligned random read of the probe.
pub open spec fn valid_block_offset(offset: int, file_size: int, block_size: int) -> bool {
    &&& offset % block_size == 0
    &&& 0 <= offset / block_size < random_block_slots(file_size, block_size)
}

/// Block-aligned offsets from block numbers: `draws[i] * block_size`.
pub fn scale_to_blocks(draws: &Vec<u64>, block_size: u64, slots: u64) -> (r: Vec<u64>)
    requires
        block_size > 0,
        slots * block_size <= u64::MAX,
        forall|i: int| 0 <= i < draws@.len() ==> #[trigger] draws@[i] < slots,
    ensures
        r@ == draws@.map_values(|k: u64| (k * block_size) as u64),
{
    let mut offsets: Vec<u64> = Vec::new();
    let mut i: usize = 0;
    while i < draws.len()
        invariant
            block_size > 0,
            slots * block_size <= u64::MAX,
            forall|j: int| 0 <= j < draws@.len() ==> #[trigger] draws@[j] < slots,
            i <= draws@.len(),
            offsets@.len() == i,
            forall|j: int| 0 <= j < i ==> #[trigger] offsets@[j] == (draws@[j] * block_size) as u64,
        decreases draws@.len() - i,
    {
        let k = draws[i];
        assert(k * block_size <= slots * block_size) by (nonlinear_arith)
            requires
                k < slots,
                block_size > 0,
        ;
        offsets.push(k * block_size);
        i = i + 1;
    }
    assert(offsets@ =~= draws@.map_values(|k: u64| (k * block_size) as u64));
    offsets
}

/// The offsets that the random-throughput probe reads at on a file of
/// `file_size` bytes: the draws of a generator made from `seed` over the
/// block slots, each times the block size.
pub open spec fn random_block_reads(seed: u64, file_size: u64, block_size: u64) -> Seq<u64> {
    seeded_draws(seed, random_block_slots(file_size as int, block_size as int) as u64, PROBE_READS as nat)
        .map_values(|k: u64| (k * block_size) as u64)
}

/// Offsets of the reads of the random-throughput probe: block-aligned,
/// drawn by a generator made from `seed`. Fails when the file holds fewer
/// than two blocks, leaving no slot to draw from.
pub fn random_read_offsets(seed: u64, file_size: u64, block_size: u64) -> (r: Result<Vec<u64>, ProbeError>)
    requires
        block_size > 0,
    ensures
        r is Ok <==> file_size >= block_size && random_block_slots(file_size as int, block_size as int) > 0,
        r is Err ==> r->Err_0 == ProbeError::FileTooSmall,
        r is Ok ==> r->Ok_0@ == random_block_reads(seed, file_size, block_size),
        r is Ok ==> r->Ok_0@.len() == PROBE_READS,
        r is Ok ==> forall|i: int|
            0 <= i < r->Ok_0@.len() ==> valid_block_offset(
                #[trigger] r->Ok_0@[i] as int,
                file_size as int,
                block_size as int,
            ),
{
    if file_size < block_size {
        return Err(ProbeError::FileTooSmall);
    }
    let slots = (file_size - block_size) / block_size;
    if slots == 0 {
        return Err(ProbeError::FileTooSmall);
    }
    proof {
        let x = (file_size - block_size) as int;
        let b = block_size as int;
        let q = slots as int;
        lemma_fundamental_div_mod(x, b);
        assert(q * b <= x) by (nonlinear_arith)
            requires
                x == b * q + x % b,
                x % b >= 0,
        ;
    }
    let draws = draws_from_seed(seed, slots, PROBE_READS as usize);
    let offsets = scale_to_blocks(&draws, block_size, slots);
    assert forall|i: int| 0 <= i < offsets@.len() implies valid_block_offset(
        #[trigger] offsets@[i] as int,
        file_size as int,
        block_size as int,
    ) by {
        let k = draws@[i];
        assert(k < slots);
        assert(k * block_size <= slots * block_size) by (nonlinear_arith)
            requires
                k < slots,
                block_size > 0,
        ;
        lemma_aligned(k as int, block_size as int);
    }
    Ok(offsets)
}

proof fn lemma_aligned(k: int, block_size: int)
    requires
        k >= 0,
        block_size > 0,
    ensures
        (k * block_size) % block_size == 0,
        (k * block_size) / block_size == k,
{
    vstd::arithmetic::div_mod::lemma_fundamental_div_mod_converse(k * block_size, block_size, k, 0);
}

/// A block-aligned random read starts before `file_size - block_size` and
/// ends inside the file: it is never out of bounds and never short.
pub proof fn lemma_random_block_read_in_bounds(offset: int, file_size: int, block_size: int)
    requires
        block_size > 0,
        file_size >= block_size,
        valid_block_offset(offset, file_size, block_size),
    ensures
        0 <= offset < file_size - block_size,
        offset + block_size <= file_size,
{
    let k = offset / block_size;
    let slots = random_block_slots(file_size, block_size);
    lemma_fundamental_div_mod(offset, block_size);
    lemma_fundamental_div_mod(file_size - block_size, block_size);
    assert(offset == k * block_size) by (nonlinear_arith)
        requires
            offset == block_size * k + offset % block_size,
            offset % block_size == 0,
    ;
    assert(k * block_size + block_size <= slots * block_size) by (nonlinear_arith)
        requires
            0 <= k < slots,
            block_size > 0,
    ;
    assert(slots * block_size <= file_size - block_size) by (nonlinear_arith)
        requires
            file_size - block_size == block_size * slots + (file_size - block_size) % block_size,
            (file_size - block_size) % block_size >= 0,
    ;
    assert(k * block_size >= 0) by (nonlinear_arith)
        requires
            k >= 0,
            block_size > 0,
    ;
}

/// Offsets of the single-byte reads of the random-latency probe: the draws
/// of a generator made from `seed` over `[0, file_size - 1)`. Fails on a
/// file of fewer than two bytes.
pub fn random_byte_offsets(seed: u64, file_size: u64) -> (r: Result<Vec<u64>, ProbeError>)
    ensures
        r is Ok <==> file_size >= 2,
        r is Err ==> r->Err_0 == ProbeError::FileTooSmall,
        r is Ok ==> r->Ok_0@ == seeded_draws(seed, (file_size - 1) as u64, PROBE_READS as nat),
        r is Ok ==> r->Ok_0@.len() == PROBE_READS,
        r is Ok ==> forall|i: int| 0 <= i < r->Ok_0@.len() ==> #[trigger] r->Ok_0@[i] < file_size - 1,
{
    if file_size < 2 {
        return Err(ProbeError::FileTooSmall);
    }
    Ok(draws_from_seed(seed, file_size - 1, PROBE_READS as usize))
}

/// Offsets of the bulk random-latency probe: one per small file, in file
/// order, the successive draws of one generator made from `seed` over
/// `[0, file_size - 1)`.
pub fn bulk_random_offsets(seed: u64, file_size: u64) -> (r: Vec<u64>)
    requires
        file_size >= 2,
    ensures
        r@ == seeded_draws(seed, (file_size - 1) as u64, PROBE_READS as nat),
        r@.len() == PROBE_READS,
        forall|i: int| 0 <= i < r@.len() ==> #[trigger] r@[i] < file_size - 1,
{
    draws_from_seed(seed, file_size - 1, PROBE_READS as usize)
}

} // verus!
