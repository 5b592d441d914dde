//! The corpus: which artifacts a build still has to make, the layout of the
//! large random file, and the names and sizes of the small files.

use crate::byte_source::{block_seed, bytes_from_seed, seeded_bytes};
use vstd::slice::{slice_subrange, slice_to_vec};
use crate::layout::{global_index, lemma_offset_by_index, BLOCK_SIZE, WORKER_COUNT, LayoutError, ShardLayout, splits_evenly};
use crate::text::{decimal, joined, numbered_path};
use vstd::prelude::*;

verus! {

/// Number of files in each small-file directory.
pub const SMALL_FILE_COUNT: u64 = 1024;

/// Size of each small file in bytes.
pub const SMALL_FILE_SIZE: u64 = 1024;

/// Which artifacts of the corpus are already present under the dataset root.
#[derive(Debug, Clone, Copy, PartialEq, Eq, Structural)]
pub struct CorpusStatus {
    pub kernel_tree: bool,
    pub large_random: bool,
    pub small_random: bool,
    pub large_null: bool,
    pub small_null: bool,
    pub polygon: bool,
}

/// One artifact that the corpus build makes itself.
#[derive(Debug, Clone, Copy, PartialEq, Eq, Structural)]
pub enum BuildStep {
    FetchKernel,
    LargeRandomFile,
    SmallRandomFiles,
    LargeNullFile,
    SmallNullFiles,
}

/// Why a finished build leaves the corpus incomplete.
#[derive(Debug, Clone, Copy, PartialEq, Eq, Structural)]
pub enum CorpusError {
    /// The polygon dataset is supplied by hand and is not there.
    MissingPolygon,
}

pub open spec fn step_if(missing: bool, step: BuildStep) -> Seq<BuildStep> {
    if missing {
        seq![step]
    } else {
        seq![]
    }
}

/// The steps a build runs on `s`, in order: one per absent artifact.
pub open spec fn missing_steps(s: CorpusStatus) -> Seq<BuildStep> {
    step_if(!s.kernel_tree, BuildStep::FetchKernel) + step_if(
        !s.large_random,
        BuildStep::LargeRandomFile,
    ) + step_if(!s.small_random, BuildStep::SmallRandomFiles) + step_if(
        !s.large_null,
        BuildStep::LargeNullFile,
    ) + step_if(!s.small_null, BuildStep::SmallNullFiles)
}

/// The status once `step` has made its artifact.
pub open spec fn after_step(s: CorpusStatus, step: BuildStep) -> CorpusStatus {
    match step {
        BuildStep::FetchKernel => CorpusStatus { kernel_tree: true, ..s },
        BuildStep::LargeRandomFile => CorpusStatus { large_random: true, ..s },
        BuildStep::SmallRandomFiles => CorpusStatus { small_random: true, ..s },
        BuildStep::LargeNullFile => CorpusStatus { large_null: true, ..s },
        BuildStep::SmallNullFiles => CorpusStatus { small_null: true, ..s },
    }
}

/// The status once every step of `steps` has run, first to last.
pub open spec fn after_steps(s: CorpusStatus, steps: Seq<BuildStep>) -> CorpusStatus
    decreases steps.len(),
{
    if steps.len() == 0 {
        s
    } else {
        after_steps(after_step(s, steps[0]), steps.drop_first())
    }
}

fn push_if(steps: &mut Vec<BuildStep>, missing: bool, step: BuildStep)
    ensures
        final(steps)@ == old(steps)@ + step_if(missing, step),
{
    if missing {
        steps.push(step);
    }
    assert(final(steps)@ =~= old(steps)@ + step_if(missing, step));
}

/// The steps that a build of the corpus runs: one for each absent artifact
/// that the build makes, in building order; none for what is present.
pub fn plan_corpus(status: &CorpusStatus) -> (r: Vec<BuildStep>)
    ensures
        r@ == missing_steps(*status),
{
    let mut steps: Vec<BuildStep> = Vec::new();
    push_if(&mut steps, !status.kernel_tree, BuildStep::FetchKernel);
    push_if(&mut steps, !status.large_random, BuildStep::LargeRandomFile);
    push_if(&mut steps, !status.small_random, BuildStep::SmallRandomFiles);
    push_if(&mut steps, !status.large_null, BuildStep::LargeNullFile);
    push_if(&mut steps, !status.small_null, BuildStep::SmallNullFiles);
    assert(steps@ =~= missing_steps(*status));
    steps
}

/// The outcome of a build that leaves the corpus at `status`: complete, or
/// missing the polygon dataset, which only a person can supply.
pub fn corpus_outcome(status: &CorpusStatus) -> (r: Result<(), CorpusError>)
    ensures
        r is Ok <==> status.polygon,
        r is Err ==> r->Err_0 == CorpusError::MissingPolygon,
{
    if status.polygon {
        Ok(())
    } else {
        Err(CorpusError::MissingPolygon)
    }
}

proof fn lemma_after_steps_append(s: CorpusStatus, a: Seq<BuildStep>, b: Seq<BuildStep>)
    ensures
        after_steps(s, a + b) == after_steps(after_steps(s, a), b),
    decreases a.len(),
{
    if a.len() > 0 {
        assert((a + b).drop_first() =~= a.drop_first() + b);
        assert((a + b)[0] == a[0]);
        lemma_after_steps_append(after_step(s, a[0]), a.drop_first(), b);
        assert(after_steps(s, a + b) == after_steps(after_step(s, a[0]), a.drop_first() + b));
        assert(after_steps(s, a) == after_steps(after_step(s, a[0]), a.drop_first()));
    } else {
        assert(a + b =~= b);
    }
}

proof fn lemma_after_one(s: CorpusStatus, missing: bool, step: BuildStep)
    ensures
        after_steps(s, step_if(missing, step)) == (if missing {
            after_step(s, step)
        } else {
            s
        }),
{
    if missing {
        let one = step_if(missing, step);
        assert(one.drop_first() =~= Seq::<BuildStep>::empty());
        assert(after_steps(s, one) == after_steps(after_step(s, step), one.drop_first()));
        assert(after_steps(after_step(s, step), Seq::<BuildStep>::empty()) == after_step(s, step));
    } else {
        assert(after_steps(s, Seq::<BuildStep>::empty()) == s);
    }
}

/// Building the corpus is idempotent: the steps planned for any status make
/// every artifact that the build owns, leave the polygon dataset as it was,
/// and a second build right after plans no step, so it writes nothing.
pub proof fn lemma_build_idempotent(s: CorpusStatus)
    ensures
        ({
            let t = after_steps(s, missing_steps(s));
            &&& t.kernel_tree && t.large_random && t.small_random
            &&& t.large_null && t.small_null
            &&& t.polygon == s.polygon
            &&& missing_steps(t).len() == 0
        }),
{
    let k = step_if(!s.kernel_tree, BuildStep::FetchKernel);
    let lr = step_if(!s.large_random, BuildStep::LargeRandomFile);
    let sr = step_if(!s.small_random, BuildStep::SmallRandomFiles);
    let ln = step_if(!s.large_null, BuildStep::LargeNullFile);
    let sn = step_if(!s.small_null, BuildStep::SmallNullFiles);
    lemma_after_steps_append(s, k + lr + sr + ln, sn);
    lemma_after_steps_append(s, k + lr + sr, ln);
    lemma_after_steps_append(s, k + lr, sr);
    lemma_after_steps_append(s, k, lr);
    let s1 = after_steps(s, k);
    lemma_after_one(s, !s.kernel_tree, BuildStep::FetchKernel);
    let s2 = after_steps(s1, lr);
    lemma_after_one(s1, !s.large_random, BuildStep::LargeRandomFile);
    let s3 = after_steps(s2, sr);
    lemma_after_one(s2, !s.small_random, BuildStep::SmallRandomFiles);
    let s4 = after_steps(s3, ln);
    lemma_after_one(s3, !s.large_null, BuildStep::LargeNullFile);
    lemma_after_one(s4, !s.small_null, BuildStep::SmallNullFiles);
    let t = after_steps(s, missing_steps(s));
    assert(missing_steps(t) =~= Seq::<BuildStep>::empty());
}

/// One step of fetching the kernel source.
#[derive(Debug, Clone, Copy, PartialEq, Eq, Structural)]
pub enum KernelStep {
    Download,
    Extract,
}

/// The kernel steps still to run: download when the archive is absent,
/// extract when the source tree is absent, in that order.
pub fn kernel_steps(archive_present: bool, tree_present: bool) -> (r: Vec<KernelStep>)
    ensures
        r@ == (if archive_present {
            seq![]
        } else {
            seq![KernelStep::Download]
        }) + (if tree_present {
            seq![]
        } else {
            seq![KernelStep::Extract]
        }),
{
    let mut steps: Vec<KernelStep> = Vec::new();
    if !archive_present {
        steps.push(KernelStep::Download);
    }
    if !tree_present {
        steps.push(KernelStep::Extract);
    }
    assert(steps@ =~= (if archive_present {
        seq![]
    } else {
        seq![KernelStep::Download]
    }) + (if tree_present {
        seq![]
    } else {
        seq![KernelStep::Extract]
    }));
    steps
}

/// The layout of the large random file of `total_size` bytes over the fixed
/// writers and block size; fails fast when the size does not split evenly.
pub fn large_random_file_layout(total_size: u64) -> (r: Result<ShardLayout, LayoutError>)
    ensures
        r is Ok <==> splits_evenly(total_size as int, BLOCK_SIZE as int, WORKER_COUNT as int),
        r is Ok ==> ({
            let l = r->Ok_0;
            &&& l.wf()
            &&& l.total_size == total_size
            &&& l.block_size == BLOCK_SIZE
            &&& l.workers == WORKER_COUNT
        }),
        r is Err ==> r->Err_0 == LayoutError::NotDivisible,
{
    ShardLayout::new(total_size, BLOCK_SIZE, WORKER_COUNT)
}

/// Bytes of block `block` of shard `shard` of the large random file made
/// from `seed`: the output of a generator seeded by the block's index in the
/// file, so the file reads as the blocks of one `ByteSource` made from
/// `seed`, in order.
pub open spec fn large_block_content(l: ShardLayout, seed: u64, shard: int, block: int) -> Seq<u8> {
    seeded_bytes(block_seed(seed, global_index(l, shard, block) as u64), l.block_size as nat)
}

/// Where block `block` of shard `shard` of the large random file goes, and
/// the bytes it holds.
pub fn large_file_block(l: &ShardLayout, seed: u64, shard: u64, block: u64) -> (r: (u64, Vec<u8>))
    requires
        l.wf(),
        shard < l.workers,
        block < l.blocks_per_shard,
        l.block_size <= usize::MAX,
    ensures
        r.0 == l.offset_of(shard as int, block as int),
        r.0 + l.block_size <= l.total_size,
        r.1@ == large_block_content(*l, seed, shard as int, block as int),
        r.1@.len() == l.block_size,
{
    let offset = l.block_offset(shard, block);
    proof {
        lemma_offset_by_index(*l, shard as int, block as int);
        let g = global_index(*l, shard as int, block as int);
        assert(0 <= g <= offset) by (nonlinear_arith)
            requires
                offset == g * l.block_size,
                l.block_size >= 1,
                g == shard * l.blocks_per_shard + block,
                shard >= 0,
                block >= 0,
                l.blocks_per_shard >= 0,
        ;
        assert(shard * l.blocks_per_shard <= g) by (nonlinear_arith)
            requires
                g == shard * l.blocks_per_shard + block,
                block >= 0,
        ;
        assert(shard * l.blocks_per_shard >= 0) by (nonlinear_arith)
            requires
                shard >= 0,
                l.blocks_per_shard >= 0,
        ;
    }
    let index = shard * l.blocks_per_shard + block;
    let bytes = bytes_from_seed(seed ^ index, l.block_size as usize);
    (offset, bytes)
}

/// Two builds of the large random file of one size from one seed agree:
/// their layouts are the same, and every block goes to the same offset with
/// the same bytes.
pub proof fn lemma_large_builds_agree(l1: ShardLayout, l2: ShardLayout, seed: u64, shard: int, block: int)
    requires
        l1.wf(),
        l2.wf(),
        l1.total_size == l2.total_size,
        l1.block_size == l2.block_size,
        l1.workers == l2.workers,
    ensures
        l1 == l2,
        l1.offset_of(shard, block) == l2.offset_of(shard, block),
        large_block_content(l1, seed, shard, block) == large_block_content(l2, seed, shard, block),
{
    let w = l1.workers as int;
    let b = l1.block_size as int;
    let p1 = l1.blocks_per_shard as int;
    let p2 = l2.blocks_per_shard as int;
    assert(p1 == p2) by (nonlinear_arith)
        requires
            w * (p1 * b) == w * (p2 * b),
            w > 0,
            b > 0,
    {
        if p1 < p2 {
            assert(p1 * b < p2 * b);
            assert(w * (p1 * b) < w * (p2 * b));
        } else if p2 < p1 {
            assert(p2 * b < p1 * b);
            assert(w * (p2 * b) < w * (p1 * b));
        }
    }
}

/// Paths of the small files of directory `folder`: `folder/1` to
/// `folder/<count>`, in that order.
pub fn small_file_paths(folder: &str, count: u64) -> (r: Vec<String>)
    ensures
        r@.len() == count,
        forall|i: int| 0 <= i < r@.len() ==> (#[trigger] r@[i])@ == joined(folder@, decimal((i + 1) as nat)),
{
    let mut paths: Vec<String> = Vec::new();
    let mut i: u64 = 0;
    while i < count
        invariant
            i <= count,
            paths@.len() == i,
            forall|j: int| 0 <= j < i ==> (#[trigger] paths@[j])@ == joined(folder@, decimal((j + 1) as nat)),
        decreases count - i,
    {
        paths.push(numbered_path(folder, i + 1));
        i = i + 1;
    }
    paths
}

/// A small file and the bytes it holds.
pub struct SmallFile {
    pub path: String,
    pub content: Vec<u8>,
}

/// Bytes of small random file `k` (numbered from 1) made from `seed`: the
/// `k`-th run of `SMALL_FILE_SIZE` bytes of the generator's output.
pub open spec fn small_random_content(seed: u64, k: int) -> Seq<u8> {
    seeded_bytes(seed, (SMALL_FILE_COUNT * SMALL_FILE_SIZE) as nat).subrange(
        (k - 1) * SMALL_FILE_SIZE,
        k * SMALL_FILE_SIZE,
    )
}

/// The small random files of directory `folder`: `folder/1` to
/// `folder/1024`, file `k` holding the `k`-th run of 1024 bytes of one
/// generator made from `seed`.
pub fn small_random_files_generation(folder: String, seed: u64) -> (r: Vec<SmallFile>)
    ensures
        r@.len() == SMALL_FILE_COUNT,
        forall|i: int|
            0 <= i < r@.len() ==> (#[trigger] r@[i]).path@ == joined(folder@, decimal((i + 1) as nat))
                && r@[i].content@ == small_random_content(seed, i + 1)
                && r@[i].content@.len() == SMALL_FILE_SIZE,
{
    let paths = small_file_paths(folder.as_str(), SMALL_FILE_COUNT);
    let bytes = bytes_from_seed(seed, (SMALL_FILE_COUNT * SMALL_FILE_SIZE) as usize);
    let mut files: Vec<SmallFile> = Vec::new();
    let mut i: usize = 0;
    while i < paths.len()
        invariant
            paths@.len() == SMALL_FILE_COUNT,
            bytes@ == seeded_bytes(seed, (SMALL_FILE_COUNT * SMALL_FILE_SIZE) as nat),
            bytes@.len() == SMALL_FILE_COUNT * SMALL_FILE_SIZE,
            i <= paths@.len(),
            files@.len() == i,
            forall|j: int| 0 <= j < paths@.len() ==> (#[trigger] paths@[j])@ == joined(folder@, decimal((j + 1) as nat)),
            forall|j: int|
                0 <= j < i ==> (#[trigger] files@[j]).path@ == joined(folder@, decimal((j + 1) as nat))
                    && files@[j].content@ == small_random_content(seed, j + 1)
                    && files@[j].content@.len() == SMALL_FILE_SIZE,
        decreases paths@.len() - i,
    {
        assert(i * 1024 + 1024 <= 1024 * 1024) by (nonlinear_arith)
            requires
                i < 1024,
        ;
        let start = i * (SMALL_FILE_SIZE as usize);
        let end = start + (SMALL_FILE_SIZE as usize);
        let content = slice_to_vec(slice_subrange(bytes.as_slice(), start, end));
        files.push(SmallFile { path: paths[i].clone(), content });
        i = i + 1;
    }
    files
}

/// Number of whole generated blocks in a file of `size_mib` MiB; a
/// remainder smaller than a block is not written.
pub fn random_file_block_count(size_mib: u64) -> (r: u64)
    requires
        size_mib * 1048576 <= u64::MAX,
    ensures
        r == (size_mib * 1048576) / (BLOCK_SIZE as int),
{
    (size_mib * 1048576) / BLOCK_SIZE
}

/// A file that reads as `size` zero bytes, made by writing one zero byte at
/// its last offset and leaving the rest as a hole.
pub struct NullFile {
    pub path: String,
    pub size: u64,
}

impl NullFile {
    /// The offset of the one byte written.
    pub fn last_offset(&self) -> (r: u64)
        requires
            self.size > 0,
        ensures
            r == self.size - 1,
    {
        self.size - 1
    }
}

/// The zero-filled file of `size` bytes at `path`.
pub fn create_null_file(path: String, size: u64) -> (r: NullFile)
    ensures
        r.path == path,
        r.size == size,
{
    NullFile { path, size }
}

/// The small zero-filled files of directory `folder`: `folder/1` to
/// `folder/1024`, each of 1024 bytes.
pub fn small_null_files_generation(folder: String) -> (r: Vec<NullFile>)
    ensures
        r@.len() == SMALL_FILE_COUNT,
        forall|i: int|
            0 <= i < r@.len() ==> (#[trigger] r@[i]).path@ == joined(folder@, decimal((i + 1) as nat))
                && r@[i].size == SMALL_FILE_SIZE,
{
    let paths = small_file_paths(folder.as_str(), SMALL_FILE_COUNT);
    let mut files: Vec<NullFile> = Vec::new();
    let mut i: usize = 0;
    while i < paths.len()
        invariant
            paths@.len() == SMALL_FILE_COUNT,
            i <= paths@.len(),
            files@.len() == i,
            forall|j: int| 0 <= j < paths@.len() ==> (#[trigger] paths@[j])@ == joined(folder@, decimal((j + 1) as nat)),
            forall|j: int|
                0 <= j < i ==> (#[trigger] files@[j]).path@ == joined(folder@, decimal((j + 1) as nat))
                    && files@[j].size == SMALL_FILE_SIZE,
        decreases paths@.len() - i,
    {
        files.push(create_null_file(paths[i].clone(), SMALL_FILE_SIZE));
        i = i + 1;
    }
    files
}

/// Address of the source archive of kernel `version`.
pub fn kernel_url(version: &str) -> (r: String)
    ensures
        r@ == "https://cdn.kernel.org/pub/linux/kernel/v6.x/linux-"@ + version@ + ".tar.xz"@,
{
    let mut url = String::from_str("https://cdn.kernel.org/pub/linux/kernel/v6.x/linux-");
    url.append(version);
    url.append(".tar.xz");
    url
}

/// File name of the source archive of kernel `version`.
pub fn kernel_archive_name(version: &str) -> (r: String)
    ensures
        r@ == "linux-"@ + version@ + ".tar.xz"@,
{
    let mut name = String::from_str("linux-");
    name.append(version);
    name.append(".tar.xz");
    name
}

/// Directory name of the extracted source tree of kernel `version`.
pub fn kernel_tree_name(version: &str) -> (r: String)
    ensures
        r@ == "linux-"@ + version@,
{
    let mut name = String::from_str("linux-");
    name.append(version);
    name
}

} // verus!
