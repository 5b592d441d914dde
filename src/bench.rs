//! The benchmark battery: the targets to measure, the fixed artifacts and
//! probes of each, and the rows that record the measured durations.

use crate::text::{duration_cell, duration_text, join_path, joined, _vec_duration_to_string};
use vstd::prelude::*;

verus! {

/// Name of the mount, backed by a tar archive, that gives no efficient random
/// access to single bytes.
pub const ARCHIVE_MOUNT: &'static str = "fuse-archive-tar";

/// A filesystem root to benchmark.
pub struct Target {
    pub root: String,
    /// The random-latency probe is meaningful on this target.
    pub random_byte_access: bool,
}

/// The targets of a run: one per entry of the mountpoints directory, in
/// listing order, then the dataset directory itself as the control. Only the
/// archive-backed mount lacks random byte access.
pub fn list_targets(mountpoints_dir: &str, entries: &Vec<String>, dataset_dir: &str) -> (r: Vec<Target>)
    ensures
        r@.len() == entries@.len() + 1,
        forall|i: int|
            0 <= i < entries@.len() ==> (#[trigger] r@[i]).root@ == joined(mountpoints_dir@, entries@[i]@)
                && r@[i].random_byte_access == (entries@[i]@ != ARCHIVE_MOUNT@),
        r@[entries@.len() as int].root@ == dataset_dir@,
        r@[entries@.len() as int].random_byte_access,
{
    let archive = String::from_str(ARCHIVE_MOUNT);
    let mut targets: Vec<Target> = Vec::new();
    let mut i: usize = 0;
    while i < entries.len()
        invariant
            i <= entries@.len(),
            archive@ == ARCHIVE_MOUNT@,
            targets@.len() == i,
            forall|j: int|
                0 <= j < i ==> (#[trigger] targets@[j]).root@ == joined(mountpoints_dir@, entries@[j]@)
                    && targets@[j].random_byte_access == (entries@[j]@ != ARCHIVE_MOUNT@),
        decreases entries@.len() - i,
    {
        let root = join_path(mountpoints_dir, entries[i].as_str());
        let access = !(entries[i] == archive);
        targets.push(Target { root, random_byte_access: access });
        i = i + 1;
    }
    targets.push(Target { root: String::from_str(dataset_dir), random_byte_access: true });
    targets
}

/// A timed probe of a single-file artifact.
#[derive(Debug, Clone, Copy, PartialEq, Eq, Structural)]
pub enum ProbeKind {
    SequentialThroughput,
    SequentialLatency,
    RandomThroughput,
    RandomLatency,
}

/// The probes run on each single-file artifact of `target`, in order.
pub open spec fn probe_order(random_byte_access: bool) -> Seq<ProbeKind> {
    seq![ProbeKind::SequentialThroughput, ProbeKind::SequentialLatency, ProbeKind::RandomThroughput]
        + if random_byte_access {
        seq![ProbeKind::RandomLatency]
    } else {
        seq![]
    }
}

/// The probes to run on each single-file artifact of `target`, in order;
/// random latency only where the target gives random byte access.
pub fn probes_for(target: &Target) -> (r: Vec<ProbeKind>)
    ensures
        r@ == probe_order(target.random_byte_access),
{
    let mut kinds: Vec<ProbeKind> = Vec::new();
    kinds.push(ProbeKind::SequentialThroughput);
    kinds.push(ProbeKind::SequentialLatency);
    kinds.push(ProbeKind::RandomThroughput);
    if target.random_byte_access {
        kinds.push(ProbeKind::RandomLatency);
    }
    assert(kinds@ =~= probe_order(target.random_byte_access));
    kinds
}

/// A timed probe of a directory of small files.
#[derive(Debug, Clone, Copy, PartialEq, Eq, Structural)]
pub enum BulkProbeKind {
    SequentialRead,
    SequentialReadLatency,
    RandomReadLatency,
}

impl BulkProbeKind {
    pub open spec fn spec_label(self) -> Seq<char> {
        match self {
            BulkProbeKind::SequentialRead => "bulk_sequential_read"@,
            BulkProbeKind::SequentialReadLatency => "bulk_sequential_read_latency"@,
            BulkProbeKind::RandomReadLatency => "bulk_random_read_latency"@,
        }
    }

    /// The name of the probe in the bulk results table.
    pub fn label(&self) -> (r: String)
        ensures
            r@ == self.spec_label(),
    {
        match self {
            BulkProbeKind::SequentialRead => String::from_str("bulk_sequential_read"),
            BulkProbeKind::SequentialReadLatency => String::from_str("bulk_sequential_read_latency"),
            BulkProbeKind::RandomReadLatency => String::from_str("bulk_random_read_latency"),
        }
    }
}

/// The bulk probes run on each small-file directory, in order.
pub fn bulk_probes() -> (r: Vec<BulkProbeKind>)
    ensures
        r@ == seq![
            BulkProbeKind::SequentialRead,
            BulkProbeKind::SequentialReadLatency,
            BulkProbeKind::RandomReadLatency,
        ],
{
    let r = vec![
        BulkProbeKind::SequentialRead,
        BulkProbeKind::SequentialReadLatency,
        BulkProbeKind::RandomReadLatency,
    ];
    assert(r@ =~= seq![
        BulkProbeKind::SequentialRead,
        BulkProbeKind::SequentialReadLatency,
        BulkProbeKind::RandomReadLatency,
    ]);
    r
}

/// The single-file artifacts of every target, relative to its root.
pub fn single_file_artifacts(kernel_archive: &str) -> (r: Vec<String>)
    ensures
        r@.len() == 4,
        r@[0]@ == "25G-null.bin"@,
        r@[1]@ == "25G-random.bin"@,
        r@[2]@ == "100M-polygon.txt"@,
        r@[3]@ == joined("kernel"@, kernel_archive@),
{
    let mut names: Vec<String> = Vec::new();
    names.push(String::from_str("25G-null.bin"));
    names.push(String::from_str("25G-random.bin"));
    names.push(String::from_str("100M-polygon.txt"));
    names.push(join_path("kernel", kernel_archive));
    names
}

/// The small-file directories of every target, relative to its root.
pub fn bulk_artifacts() -> (r: Vec<String>)
    ensures
        r@.len() == 2,
        r@[0]@ == "small-files/null"@,
        r@[1]@ == "small-files/random"@,
{
    let mut names: Vec<String> = Vec::new();
    names.push(String::from_str("small-files/null"));
    names.push(String::from_str("small-files/random"));
    names
}

/// Durations, in nanoseconds, measured on one single-file artifact; no
/// random latency where the target is exempt from that probe.
#[derive(Debug, Clone, Copy, PartialEq, Eq, Structural)]
pub struct ProbeTimings {
    pub sequential: u64,
    pub sequential_latency: u64,
    pub random: u64,
    pub random_latency: Option<u64>,
}

/// The timings of one artifact from the outcomes of its probes, given in
/// `probe_order`; none at all when any probe failed, so that a failed probe
/// never yields a partial row.
pub fn timings_from(outcomes: &Vec<Option<u64>>, random_byte_access: bool) -> (r: Option<ProbeTimings>)
    requires
        outcomes@.len() == probe_order(random_byte_access).len(),
    ensures
        r is Some <==> forall|i: int| 0 <= i < outcomes@.len() ==> (#[trigger] outcomes@[i]) is Some,
        r is Some ==> ({
            let t = r->Some_0;
            &&& outcomes@[0] == Some(t.sequential)
            &&& outcomes@[1] == Some(t.sequential_latency)
            &&& outcomes@[2] == Some(t.random)
            &&& t.random_latency == (if random_byte_access {
                outcomes@[3]
            } else {
                None
            })
        }),
{
    let mut i: usize = 0;
    while i < outcomes.len()
        invariant
            i <= outcomes@.len(),
            forall|j: int| 0 <= j < i ==> (#[trigger] outcomes@[j]) is Some,
        decreases outcomes@.len() - i,
    {
        if outcomes[i].is_none() {
            return None;
        }
        i = i + 1;
    }
    let random_latency = if random_byte_access {
        outcomes[3]
    } else {
        None
    };
    match (outcomes[0], outcomes[1], outcomes[2]) {
        (Some(sequential), Some(sequential_latency), Some(random)) => Some(
            ProbeTimings { sequential, sequential_latency, random, random_latency },
        ),
        _ => None,
    }
}

/// The cell of a skipped random-latency probe.
pub open spec fn skipped_cell() -> Seq<char> {
    "0s"@
}

/// The row of the single-file results table: root, artifact, then the four
/// durations in probe order.
pub fn single_file_row(root: &String, artifact: &String, timings: &ProbeTimings) -> (r: Vec<String>)
    ensures
        r@.len() == 6,
        r@[0]@ == root@,
        r@[1]@ == artifact@,
        r@[2]@ == duration_text(timings.sequential),
        r@[3]@ == duration_text(timings.sequential_latency),
        r@[4]@ == duration_text(timings.random),
        r@[5]@ == (match timings.random_latency {
            Some(d) => duration_text(d),
            None => skipped_cell(),
        }),
{
    let mut row: Vec<String> = Vec::new();
    row.push(root.clone());
    row.push(artifact.clone());
    row.push(duration_cell(timings.sequential));
    row.push(duration_cell(timings.sequential_latency));
    row.push(duration_cell(timings.random));
    let last = match timings.random_latency {
        Some(d) => duration_cell(d),
        None => String::from_str("0s"),
    };
    row.push(last);
    row
}

/// The row of the bulk results table: root, directory, probe name, then one
/// duration per small file.
pub fn bulk_row(root: &String, folder: &String, kind: BulkProbeKind, times: Vec<u64>) -> (r: Vec<String>)
    ensures
        r@.len() == 3 + times@.len(),
        r@[0]@ == root@,
        r@[1]@ == folder@,
        r@[2]@ == kind.spec_label(),
        forall|i: int| 0 <= i < times@.len() ==> (#[trigger] r@[3 + i])@ == duration_text(times@[i]),
{
    let cells = _vec_duration_to_string(times);
    let mut row: Vec<String> = Vec::new();
    row.push(root.clone());
    row.push(folder.clone());
    row.push(kind.label());
    let mut i: usize = 0;
    while i < cells.len()
        invariant
            i <= cells@.len(),
            cells@.len() == times@.len(),
            forall|j: int| 0 <= j < cells@.len() ==> (#[trigger] cells@[j])@ == duration_text(times@[j]),
            row@.len() == 3 + i,
            row@[0]@ == root@,
            row@[1]@ == folder@,
            row@[2]@ == kind.spec_label(),
            forall|j: int| 0 <= j < i ==> (#[trigger] row@[3 + j])@ == duration_text(times@[j]),
        decreases cells@.len() - i,
    {
        row.push(cells[i].clone());
        i = i + 1;
    }
    row
}

} // verus!
