use disk_read_benchmark::byte_source::{bytes_from_seed, draws_from_seed, ByteSource, GENERATION_SEED, PROBE_SEED};
use disk_read_benchmark::layout::{LayoutError, ShardLayout, BLOCK_SIZE, LARGE_FILE_SIZE, WORKER_COUNT};
use disk_read_benchmark::probes::{
    bulk_random_offsets, random_byte_offsets, random_read_offsets, scale_to_blocks, sequential_read_count, ProbeError,
    PROBE_READS, RANDOM_BLOCK, SEQUENTIAL_BLOCK,
};

const MIB: u64 = 1048576;

#[test]
fn large_file_splits_over_the_writers() {
    let l = ShardLayout::new(LARGE_FILE_SIZE, BLOCK_SIZE, WORKER_COUNT).unwrap();
    assert_eq!(l.blocks_per_shard, 1280);
    assert_eq!(l.shard_size(), 1280 * BLOCK_SIZE);
    assert_eq!(l.workers * l.shard_size(), LARGE_FILE_SIZE);
}

#[test]
fn uneven_size_fails_fast() {
    assert_eq!(ShardLayout::new(LARGE_FILE_SIZE, BLOCK_SIZE, 12), Err(LayoutError::NotDivisible));
    assert_eq!(ShardLayout::new(100, 10, 3), Err(LayoutError::NotDivisible));
    assert_eq!(ShardLayout::new(100, 0, 2), Err(LayoutError::ZeroBlockSize));
    assert_eq!(ShardLayout::new(100, 10, 0), Err(LayoutError::ZeroWorkers));
}

#[test]
fn block_offsets_are_absolute() {
    let l = ShardLayout::new(120, 10, 3).unwrap();
    assert_eq!(l.blocks_per_shard, 4);
    assert_eq!(l.block_offset(0, 0), 0);
    assert_eq!(l.block_offset(1, 2), 60);
    assert_eq!(l.block_offset(2, 3), 110);
    assert_eq!(l.shard_block_offsets(1), vec![40, 50, 60, 70]);
}

#[test]
fn shards_cover_file_without_overlap() {
    let l = ShardLayout::new(240, 10, 4).unwrap();
    let mut all: Vec<u64> = Vec::new();
    for s in 0..l.workers {
        all.extend(l.shard_block_offsets(s));
    }
    all.sort();
    let expected: Vec<u64> = (0..24).map(|k| k * 10).collect();
    assert_eq!(all, expected);
}

#[test]
fn same_seed_same_bytes() {
    let mut a = ByteSource::new(GENERATION_SEED);
    let mut b = ByteSource::new(GENERATION_SEED);
    for _ in 0..4 {
        let x = a.next_block(1024);
        let y = b.next_block(1024);
        assert_eq!(x.len(), 1024);
        assert_eq!(x, y);
    }
    let mut c = ByteSource::new(GENERATION_SEED + 1);
    let mut d = ByteSource::new(GENERATION_SEED);
    assert_ne!(c.next_block(64), d.next_block(64));
}

#[test]
fn bounded_draws_stay_below() {
    let draws = draws_from_seed(PROBE_SEED, 7, 1000);
    assert_eq!(draws.len(), 1000);
    assert!(draws.iter().all(|d| *d < 7));
    assert_eq!(draws, draws_from_seed(PROBE_SEED, 7, 1000));
    assert_eq!(draws_from_seed(PROBE_SEED, 1, 5), vec![0u64; 5]);
    assert_ne!(draws_from_seed(PROBE_SEED, 1000, 8), draws_from_seed(GENERATION_SEED, 1000, 8));
}

#[test]
fn source_blocks_follow_the_seed() {
    let mut s = ByteSource::new(GENERATION_SEED);
    assert_eq!(s.seed, GENERATION_SEED);
    assert_eq!(s.blocks, 0);
    let first = s.next_block(64);
    let second = s.next_block(64);
    assert_eq!(s.blocks, 2);
    assert_eq!(first, bytes_from_seed(GENERATION_SEED, 64));
    assert_eq!(second, bytes_from_seed(GENERATION_SEED ^ 1, 64));
    assert_ne!(first, second);
    assert!(first.iter().any(|b| *b != 0));
}

#[test]
fn seeded_bytes_extend_in_words() {
    let long = bytes_from_seed(GENERATION_SEED, 2048);
    let short = bytes_from_seed(GENERATION_SEED, 1024);
    assert_eq!(&long[..1024], &short[..]);
}

#[test]
fn block_numbers_scale_to_offsets() {
    assert_eq!(scale_to_blocks(&vec![0, 3, 1], 10, 4), vec![0, 30, 10]);
    assert!(scale_to_blocks(&Vec::new(), 10, 4).is_empty());
}

#[test]
fn two_mib_file_reads_two_blocks() {
    assert_eq!(sequential_read_count(2 * MIB, MIB), 2);
}

#[test]
fn partial_block_is_not_read() {
    assert_eq!(sequential_read_count(2 * MIB + MIB / 2, MIB), 2);
    assert_eq!(sequential_read_count(SEQUENTIAL_BLOCK - 1, SEQUENTIAL_BLOCK), 0);
    assert_eq!(sequential_read_count(0, SEQUENTIAL_BLOCK), 0);
    assert_eq!(sequential_read_count(LARGE_FILE_SIZE, SEQUENTIAL_BLOCK), 20480);
}

#[test]
fn random_block_offsets_in_bounds() {
    let size = 10 * MIB + 123;
    let offsets = random_read_offsets(PROBE_SEED, size, RANDOM_BLOCK).unwrap();
    assert_eq!(offsets.len() as u64, PROBE_READS);
    for o in &offsets {
        assert_eq!(o % RANDOM_BLOCK, 0);
        assert!(*o < size - RANDOM_BLOCK);
        assert!(o / RANDOM_BLOCK < (size - RANDOM_BLOCK) / RANDOM_BLOCK);
    }
    assert_eq!(offsets, random_read_offsets(PROBE_SEED, size, RANDOM_BLOCK).unwrap());
    let slots = (size - RANDOM_BLOCK) / RANDOM_BLOCK;
    let draws = draws_from_seed(PROBE_SEED, slots, 1024);
    assert_eq!(offsets, scale_to_blocks(&draws, RANDOM_BLOCK, slots));
}

#[test]
fn random_block_offsets_need_two_blocks() {
    assert_eq!(random_read_offsets(PROBE_SEED, MIB, RANDOM_BLOCK), Err(ProbeError::FileTooSmall));
    assert_eq!(random_read_offsets(PROBE_SEED, MIB / 2, RANDOM_BLOCK), Err(ProbeError::FileTooSmall));
    assert_eq!(random_read_offsets(PROBE_SEED, 2 * MIB - 1, RANDOM_BLOCK), Err(ProbeError::FileTooSmall));
    let only = random_read_offsets(PROBE_SEED, 2 * MIB, RANDOM_BLOCK).unwrap();
    assert!(only.iter().all(|o| *o == 0));
}

#[test]
fn random_byte_offsets_in_bounds() {
    let offsets = random_byte_offsets(PROBE_SEED, 5000).unwrap();
    assert_eq!(offsets.len(), 1024);
    assert!(offsets.iter().all(|o| *o < 4999));
    assert_eq!(random_byte_offsets(PROBE_SEED, 1), Err(ProbeError::FileTooSmall));
    assert_eq!(random_byte_offsets(PROBE_SEED, 0), Err(ProbeError::FileTooSmall));
    assert_eq!(random_byte_offsets(PROBE_SEED, 2).unwrap(), vec![0u64; 1024]);
    assert_eq!(offsets, draws_from_seed(PROBE_SEED, 4999, 1024));
}

#[test]
fn bulk_offsets_in_bounds() {
    let offsets = bulk_random_offsets(PROBE_SEED, 1024);
    assert_eq!(offsets.len(), 1024);
    assert!(offsets.iter().all(|o| *o < 1023));
    assert!(offsets.iter().any(|o| *o != offsets[0]));
    assert_eq!(offsets, draws_from_seed(PROBE_SEED, 1023, 1024));
    assert_eq!(offsets, bulk_random_offsets(PROBE_SEED, 1024));
}
