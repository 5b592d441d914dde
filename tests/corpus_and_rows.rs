use disk_read_benchmark::bench::{
    bulk_artifacts, bulk_probes, bulk_row, list_targets, probes_for, single_file_artifacts, single_file_row, timings_from,
    BulkProbeKind, ProbeKind, ProbeTimings, Target,
};
use disk_read_benchmark::byte_source::{bytes_from_seed, GENERATION_SEED};
use disk_read_benchmark::cli::{Cli, Commands, Shell, Task};
use disk_read_benchmark::corpus::{
    corpus_outcome, create_null_file, kernel_archive_name, kernel_steps, kernel_tree_name, kernel_url,
    large_file_block, large_random_file_layout, plan_corpus, random_file_block_count, small_file_paths,
    small_null_files_generation, small_random_files_generation, BuildStep, CorpusError, CorpusStatus,
    KernelStep,
};
use disk_read_benchmark::layout::{LayoutError, ShardLayout, LARGE_FILE_SIZE};
use disk_read_benchmark::text::{_vec_duration_to_string, decimal_string, duration_cell, join_path, numbered_path};

fn status(all: bool, polygon: bool) -> CorpusStatus {
    CorpusStatus {
        kernel_tree: all,
        large_random: all,
        small_random: all,
        large_null: all,
        small_null: all,
        polygon,
    }
}

#[test]
fn empty_root_plans_every_step() {
    assert_eq!(
        plan_corpus(&status(false, false)),
        vec![
            BuildStep::FetchKernel,
            BuildStep::LargeRandomFile,
            BuildStep::SmallRandomFiles,
            BuildStep::LargeNullFile,
            BuildStep::SmallNullFiles,
        ]
    );
}

#[test]
fn second_build_plans_nothing() {
    assert!(plan_corpus(&status(true, false)).is_empty());
    assert!(plan_corpus(&status(true, true)).is_empty());
}

#[test]
fn partial_corpus_plans_what_is_missing() {
    let mut s = status(true, true);
    s.small_random = false;
    s.large_null = false;
    assert_eq!(plan_corpus(&s), vec![BuildStep::SmallRandomFiles, BuildStep::LargeNullFile]);
}

#[test]
fn missing_polygon_is_reported() {
    assert_eq!(corpus_outcome(&status(true, false)), Err(CorpusError::MissingPolygon));
    assert_eq!(corpus_outcome(&status(true, true)), Ok(()));
}

#[test]
fn kernel_steps_follow_what_exists() {
    assert_eq!(kernel_steps(false, false), vec![KernelStep::Download, KernelStep::Extract]);
    assert_eq!(kernel_steps(true, false), vec![KernelStep::Extract]);
    assert_eq!(kernel_steps(false, true), vec![KernelStep::Download]);
    assert!(kernel_steps(true, true).is_empty());
}

#[test]
fn kernel_names() {
    assert_eq!(
        kernel_url("6.6.58"),
        "https://cdn.kernel.org/pub/linux/kernel/v6.x/linux-6.6.58.tar.xz"
    );
    assert_eq!(kernel_archive_name("6.6.58"), "linux-6.6.58.tar.xz");
    assert_eq!(kernel_tree_name("6.6.58"), "linux-6.6.58");
}

#[test]
fn large_file_layout() {
    let l = large_random_file_layout(LARGE_FILE_SIZE).unwrap();
    assert_eq!(l.workers, 16);
    assert_eq!(large_random_file_layout(LARGE_FILE_SIZE + 1), Err(LayoutError::NotDivisible));
    assert_eq!(random_file_block_count(100), 80);
    assert_eq!(random_file_block_count(1), 0);
}

#[test]
fn decimal_text() {
    assert_eq!(decimal_string(0), "0");
    assert_eq!(decimal_string(7), "7");
    assert_eq!(decimal_string(1024), "1024");
    assert_eq!(decimal_string(u64::MAX), "18446744073709551615");
}

#[test]
fn paths_are_joined() {
    assert_eq!(join_path("data/datasets", "25G-null.bin"), "data/datasets/25G-null.bin");
    assert_eq!(numbered_path("small-files/null", 12), "small-files/null/12");
}

#[test]
fn small_files_are_numbered_from_one() {
    let paths = small_file_paths("d", 1024);
    assert_eq!(paths.len(), 1024);
    assert_eq!(paths[0], "d/1");
    assert_eq!(paths[1023], "d/1024");
    assert!(small_file_paths("d", 0).is_empty());
}

#[test]
fn small_null_files() {
    let files = small_null_files_generation("n".to_string());
    assert_eq!(files.len(), 1024);
    for (i, f) in files.iter().enumerate() {
        assert_eq!(f.path, format!("n/{}", i + 1));
        assert_eq!(f.size, 1024);
        assert_eq!(f.last_offset(), 1023);
    }
    assert_eq!(create_null_file("x".to_string(), 26843545600).last_offset(), 26843545599);
}

#[test]
fn small_random_files() {
    let files = small_random_files_generation("r".to_string(), GENERATION_SEED);
    let again = small_random_files_generation("r".to_string(), GENERATION_SEED);
    assert_eq!(files.len(), 1024);
    for (i, f) in files.iter().enumerate() {
        assert_eq!(f.path, format!("r/{}", i + 1));
        assert_eq!(f.content.len(), 1024);
        assert_eq!(f.content, again[i].content);
    }
    assert_ne!(files[0].content, files[1].content);
    let stream = bytes_from_seed(GENERATION_SEED, 1024 * 1024);
    assert_eq!(files[0].content, stream[..1024].to_vec());
    assert_eq!(files[1023].content, stream[1023 * 1024..].to_vec());
}

#[test]
fn large_file_blocks_follow_their_index() {
    let l = ShardLayout::new(120, 10, 3).unwrap();
    let (offset, bytes) = large_file_block(&l, GENERATION_SEED, 1, 2);
    assert_eq!(offset, 60);
    assert_eq!(bytes, bytes_from_seed(GENERATION_SEED ^ 6, 10));
    let again = ShardLayout::new(120, 10, 3).unwrap();
    assert_eq!(large_file_block(&again, GENERATION_SEED, 1, 2), (offset, bytes));
    let (first, _) = large_file_block(&l, GENERATION_SEED, 0, 0);
    assert_eq!(first, 0);
}

#[test]
fn duration_cells() {
    assert_eq!(duration_cell(1_500_000), "1.50000ms");
    assert_eq!(duration_cell(2_000_000_000), "2.00000s");
    assert_eq!(
        _vec_duration_to_string(vec![1_500_000, 2_500]),
        vec!["1.50000ms".to_string(), "2.50000µs".to_string()]
    );
    assert!(_vec_duration_to_string(Vec::new()).is_empty());
}

#[test]
fn targets_end_with_control() {
    let entries = vec!["ext4".to_string(), "fuse-archive-tar".to_string()];
    let t = list_targets("data/mountpoints", &entries, "data/datasets");
    assert_eq!(t.len(), 3);
    assert_eq!(t[0].root, "data/mountpoints/ext4");
    assert!(t[0].random_byte_access);
    assert_eq!(t[1].root, "data/mountpoints/fuse-archive-tar");
    assert!(!t[1].random_byte_access);
    assert_eq!(t[2].root, "data/datasets");
    assert!(t[2].random_byte_access);
    assert_eq!(list_targets("m", &Vec::new(), "d").len(), 1);
}

#[test]
fn archive_mount_skips_random_latency() {
    let open = Target { root: "a".to_string(), random_byte_access: true };
    let tar = Target { root: "b".to_string(), random_byte_access: false };
    assert_eq!(
        probes_for(&open),
        vec![
            ProbeKind::SequentialThroughput,
            ProbeKind::SequentialLatency,
            ProbeKind::RandomThroughput,
            ProbeKind::RandomLatency,
        ]
    );
    assert_eq!(
        probes_for(&tar),
        vec![ProbeKind::SequentialThroughput, ProbeKind::SequentialLatency, ProbeKind::RandomThroughput]
    );
}

#[test]
fn artifact_names() {
    assert_eq!(
        single_file_artifacts("linux-6.6.58.tar.xz"),
        vec!["25G-null.bin", "25G-random.bin", "100M-polygon.txt", "kernel/linux-6.6.58.tar.xz"]
    );
    assert_eq!(bulk_artifacts(), vec!["small-files/null", "small-files/random"]);
}

#[test]
fn single_row_cells() {
    let t = ProbeTimings { sequential: 2_000_000_000, sequential_latency: 1_500_000, random: 3_000_000_000, random_latency: None };
    let row = single_file_row(&"data/datasets".to_string(), &"25G-null.bin".to_string(), &t);
    assert_eq!(row, vec!["data/datasets", "25G-null.bin", "2.00000s", "1.50000ms", "3.00000s", "0s"]);
    let t2 = ProbeTimings { random_latency: Some(1_500_000), ..t };
    let row2 = single_file_row(&"r".to_string(), &"a".to_string(), &t2);
    assert_eq!(row2[5], "1.50000ms");
}

#[test]
fn bulk_row_cells() {
    let row = bulk_row(&"r".to_string(), &"small-files/null".to_string(), BulkProbeKind::RandomReadLatency, vec![1_500_000, 2_000_000_000]);
    assert_eq!(row, vec!["r", "small-files/null", "bulk_random_read_latency", "1.50000ms", "2.00000s"]);
    let names: Vec<String> = bulk_probes().iter().map(|k| k.label()).collect();
    assert_eq!(names, vec!["bulk_sequential_read", "bulk_sequential_read_latency", "bulk_random_read_latency"]);
}

#[test]
fn run_does_everything_in_order() {
    let cli = Cli { command: Commands::Run };
    assert_eq!(cli.tasks(), vec![Task::PrepareDirectories, Task::BuildCorpus, Task::RunBenchmark]);
    assert_eq!(Cli { command: Commands::GrabData }.tasks(), vec![Task::BuildCorpus]);
    assert_eq!(Cli { command: Commands::Benchmark }.tasks(), vec![Task::RunBenchmark]);
    assert_eq!(Cli { command: Commands::PrepDirs }.tasks(), vec![Task::PrepareDirectories]);
    assert_eq!(Cli { command: Commands::GenerateZshCompletions }.tasks(), vec![Task::Completions(Shell::Zsh)]);
}

#[test]
fn failed_probe_gives_no_row() {
    assert_eq!(timings_from(&vec![Some(1), None, Some(3), Some(4)], true), None);
    assert_eq!(timings_from(&vec![Some(1), Some(2), Some(3), None], true), None);
    assert_eq!(timings_from(&vec![None, Some(2), Some(3)], false), None);
}

#[test]
fn measured_probes_give_timings() {
    assert_eq!(
        timings_from(&vec![Some(1), Some(2), Some(3), Some(4)], true),
        Some(ProbeTimings { sequential: 1, sequential_latency: 2, random: 3, random_latency: Some(4) })
    );
    assert_eq!(
        timings_from(&vec![Some(1), Some(2), Some(3)], false),
        Some(ProbeTimings { sequential: 1, sequential_latency: 2, random: 3, random_latency: None })
    );
}
