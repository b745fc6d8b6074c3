//! Archive extraction planning with per-entry fault isolation.
//!
//! A downloaded archive is decoded in memory. If the byte buffer is not a
//! valid archive container the channel fails fatally; otherwise every entry
//! is handled on its own: an unreadable entry or one with an unsafe declared
//! path is skipped with no filesystem effect, and extraction moves on to the
//! next entry, so that one bad entry cannot abort the rest of the
//! installation. The result is a plan — one decision per entry, in archive
//! order — and a report tallying the outcomes; the surrounding process
//! performs the planned directory and file writes and reports each result
//! back into the tally.

use vstd::prelude::*;
use crate::paths::{path_safe, clean_components, sanitize_entry_path, is_absolute, has_traversal};

verus! {

/// The plain-value view of one archive entry: its declared name, whether it
/// denotes a directory, and (for a file) its full contents.
pub struct ArchiveEntry {
    pub name: String,
    pub is_dir: bool,
    pub data: Vec<u8>,
}

/// What the zip decoder makes of a byte buffer: `Some` of the entry count
/// when the buffer is a valid archive container, `None` otherwise. A
/// function of the bytes alone.
pub uninterp spec fn zip_entry_count(bytes: Seq<u8>) -> Option<int>;

/// What the zip decoder yields for entry `i` of a byte buffer: the entry's
/// declared name, directory flag and contents, or `None` when the entry
/// cannot be read. A function of the bytes and the index alone.
pub uninterp spec fn zip_entry_at(bytes: Seq<u8>, i: int) -> Option<(Seq<char>, bool, Seq<u8>)>;

/// Relies on zip::ZipArchive::new and zip::ZipArchive::len: opening an
/// in-memory buffer succeeds exactly when the bytes form a valid archive
/// container, and `len` is then the number of entries; both are determined
/// by the bytes alone.
#[verifier::external_body]
fn archive_entry_count(bytes: &Vec<u8>) -> (r: Option<usize>)
    ensures
        r is Some <==> zip_entry_count(bytes@) is Some,
        r matches Some(n) ==> zip_entry_count(bytes@) == Some(n as int),
{
    zip::ZipArchive::new(std::io::Cursor::new(bytes.as_slice())).ok().map(|z| z.len())
}

/// Relies on zip::ZipArchive::by_index together with ZipFile::name,
/// ZipFile::is_dir and std::io::Read::read_to_end: the declared name,
/// directory flag and decompressed contents of entry `i`, or `None` when the
/// entry cannot be read or decoded; determined by the bytes and the index
/// alone.
#[verifier::external_body]
fn read_archive_entry(bytes: &Vec<u8>, i: usize) -> (r: Option<ArchiveEntry>)
    ensures
        r is Some <==> zip_entry_at(bytes@, i as int) is Some,
        r matches Some(e) ==> zip_entry_at(bytes@, i as int) == Some((e.name@, e.is_dir, e.data@)),
{
    let mut archive = zip::ZipArchive::new(std::io::Cursor::new(bytes.as_slice())).ok()?;
    let mut file = archive.by_index(i).ok()?;
    let name = file.name().to_string();
    let is_dir = file.is_dir();
    let mut data = Vec::new();
    if !is_dir {
        std::io::Read::read_to_end(&mut file, &mut data).ok()?;
    }
    Some(ArchiveEntry { name, is_dir, data })
}

/// What extraction decides to do for one entry.
#[derive(Debug)]
pub enum EntryPlan {
    /// The entry could not be read; nothing is written and extraction
    /// continues with the next entry.
    SkipUnreadable,
    /// The declared path is absolute, escapes the target directory, or names
    /// nothing; nothing is written.
    SkipRejected,
    /// Create this directory, and its missing ancestors, under the target.
    MakeDir { components: Vec<String> },
    /// Create this file under the target, with its parent directories, and
    /// write its contents.
    WriteFile { components: Vec<String>, data: Vec<u8> },
}

/// The plan that extraction owes entry `i` of the archive.
pub open spec fn plan_matches(p: EntryPlan, e: Option<(Seq<char>, bool, Seq<u8>)>) -> bool {
    match e {
        None => p is SkipUnreadable,
        Some(entry) => {
            if !path_safe(entry.0) {
                p is SkipRejected
            } else if entry.1 {
                &&& p matches EntryPlan::MakeDir { components }
                &&& components@.map_values(|c: String| c@) == clean_components(entry.0)
            } else {
                &&& p matches EntryPlan::WriteFile { components, data }
                &&& components@.map_values(|c: String| c@) == clean_components(entry.0)
                &&& data@ == entry.2
            }
        },
    }
}

/// Entry `i` exists but cannot be read.
pub open spec fn entry_unreadable(bytes: Seq<u8>, i: int) -> bool {
    zip_entry_at(bytes, i) is None
}

/// Entry `i` is readable but its declared path is unsafe.
pub open spec fn entry_rejected(bytes: Seq<u8>, i: int) -> bool {
    zip_entry_at(bytes, i) matches Some(e) && !path_safe(e.0)
}

/// Entry `i` is a directory to be created.
pub open spec fn entry_dir_action(bytes: Seq<u8>, i: int) -> bool {
    zip_entry_at(bytes, i) matches Some(e) && path_safe(e.0) && e.1
}

/// Entry `i` is a file to be written.
pub open spec fn entry_file_action(bytes: Seq<u8>, i: int) -> bool {
    zip_entry_at(bytes, i) matches Some(e) && path_safe(e.0) && !e.1
}

/// How many of the first `k` entries are unreadable.
pub open spec fn count_unreadable(bytes: Seq<u8>, k: int) -> int
    decreases k,
{
    if k <= 0 {
        0
    } else {
        count_unreadable(bytes, k - 1) + if entry_unreadable(bytes, k - 1) {
            1int
        } else {
            0int
        }
    }
}

/// How many of the first `k` entries have an unsafe path.
pub open spec fn count_rejected(bytes: Seq<u8>, k: int) -> int
    decreases k,
{
    if k <= 0 {
        0
    } else {
        count_rejected(bytes, k - 1) + if entry_rejected(bytes, k - 1) {
            1int
        } else {
            0int
        }
    }
}

/// How many of the first `k` entries are directories to create.
pub open spec fn count_dir_actions(bytes: Seq<u8>, k: int) -> int
    decreases k,
{
    if k <= 0 {
        0
    } else {
        count_dir_actions(bytes, k - 1) + if entry_dir_action(bytes, k - 1) {
            1int
        } else {
            0int
        }
    }
}

/// How many of the first `k` entries are files to write.
pub open spec fn count_file_actions(bytes: Seq<u8>, k: int) -> int
    decreases k,
{
    if k <= 0 {
        0
    } else {
        count_file_actions(bytes, k - 1) + if entry_file_action(bytes, k - 1) {
            1int
        } else {
            0int
        }
    }
}

/// Per-entry outcome tally of one channel's extraction.
#[derive(Clone, Copy, PartialEq, Eq, Structural, Debug)]
pub struct ExtractionReport {
    /// Entries the archive holds.
    pub total: usize,
    /// Entries skipped because they could not be read.
    pub unreadable: usize,
    /// Entries skipped because their declared path was unsafe.
    pub rejected: usize,
    /// Directory-creation actions planned.
    pub dirs_planned: usize,
    /// File-write actions planned.
    pub files_planned: usize,
    /// Planned actions the surrounding process reported as performed.
    pub written: usize,
    /// Planned actions the surrounding process reported as failed.
    pub write_failures: usize,
}

/// The byte buffer was not a valid archive container; the channel fails.
#[derive(Debug)]
pub struct ArchiveFormatError;

/// Decides what extraction does with each entry of the archive held in
/// `bytes`. Fails exactly when the buffer is not a valid archive container;
/// otherwise returns one plan per entry, in archive order, together with the
/// tally of planned outcomes. No single bad entry makes the planning fail.
pub fn plan_extraction(bytes: &Vec<u8>) -> (r: Result<
    (Vec<EntryPlan>, ExtractionReport),
    ArchiveFormatError,
>)
    ensures
        r is Ok <==> zip_entry_count(bytes@) is Some,
        r matches Ok((plans, rep)) ==> {
            &&& zip_entry_count(bytes@) == Some(plans@.len() as int)
            &&& forall|k: int|
                0 <= k < plans@.len() ==> plan_matches(
                    #[trigger] plans@[k],
                    zip_entry_at(bytes@, k),
                )
            &&& rep.total == plans@.len()
            &&& rep.unreadable == count_unreadable(bytes@, plans@.len() as int)
            &&& rep.rejected == count_rejected(bytes@, plans@.len() as int)
            &&& rep.dirs_planned == count_dir_actions(bytes@, plans@.len() as int)
            &&& rep.files_planned == count_file_actions(bytes@, plans@.len() as int)
            &&& rep.written == 0
            &&& rep.write_failures == 0
        },
{
    let n = match archive_entry_count(bytes) {
        Some(n) => n,
        None => {
            return Err(ArchiveFormatError);
        },
    };
    let mut plans: Vec<EntryPlan> = Vec::new();
    let mut unreadable: usize = 0;
    let mut rejected: usize = 0;
    let mut dirs_planned: usize = 0;
    let mut files_planned: usize = 0;
    let mut i: usize = 0;
    while i < n
        invariant
            i <= n,
            zip_entry_count(bytes@) == Some(n as int),
            plans@.len() == i,
            forall|k: int|
                0 <= k < i ==> plan_matches(#[trigger] plans@[k], zip_entry_at(bytes@, k)),
            unreadable == count_unreadable(bytes@, i as int),
            rejected == count_rejected(bytes@, i as int),
            dirs_planned == count_dir_actions(bytes@, i as int),
            files_planned == count_file_actions(bytes@, i as int),
            unreadable <= i,
            rejected <= i,
            dirs_planned <= i,
            files_planned <= i,
        decreases n - i,
    {
        match read_archive_entry(bytes, i) {
            None => {
                plans.push(EntryPlan::SkipUnreadable);
                unreadable += 1;
            },
            Some(entry) => {
                match sanitize_entry_path(entry.name.as_str()) {
                    None => {
                        plans.push(EntryPlan::SkipRejected);
                        rejected += 1;
                    },
                    Some(components) => {
                        if entry.is_dir {
                            plans.push(EntryPlan::MakeDir { components });
                            dirs_planned += 1;
                        } else {
                            plans.push(EntryPlan::WriteFile { components, data: entry.data });
                            files_planned += 1;
                        }
                    },
                }
            },
        }
        i += 1;
    }
    Ok(
        (
            plans,
            ExtractionReport {
                total: n,
                unreadable,
                rejected,
                dirs_planned,
                files_planned,
                written: 0,
                write_failures: 0,
            },
        ),
    )
}

/// Folds the outcome of performing one planned action back into the tally:
/// the surrounding process reports whether the filesystem write succeeded,
/// and the count of performed or failed actions grows by one. A failure here
/// is never fatal to the run.
pub fn note_write_result(rep: &mut ExtractionReport, ok: bool)
    requires
        old(rep).written < usize::MAX,
        old(rep).write_failures < usize::MAX,
    ensures
        ok ==> *final(rep) == (ExtractionReport { written: (old(rep).written + 1) as usize, ..*old(rep) }),
        !ok ==> *final(rep) == (ExtractionReport {
            write_failures: (old(rep).write_failures + 1) as usize,
            ..*old(rep)
        }),
{
    if ok {
        rep.written = rep.written + 1;
    } else {
        rep.write_failures = rep.write_failures + 1;
    }
}

/// Path containment: an entry whose declared path is absolute or contains a
/// parent-directory component is planned as a skip — no filesystem write for
/// it — while every other entry still gets its own plan, so extraction
/// proceeds past it.
pub proof fn lemma_unsafe_path_never_written(bytes: Seq<u8>, plans: Seq<EntryPlan>, k: int)
    requires
        0 <= k < plans.len(),
        forall|j: int|
            0 <= j < plans.len() ==> plan_matches(#[trigger] plans[j], zip_entry_at(bytes, j)),
        (zip_entry_at(bytes, k) matches Some(e) && (is_absolute(e.0) || has_traversal(e.0))),
    ensures
        plans[k] is SkipRejected,
        forall|j: int| 0 <= j < plans.len() ==> plan_matches(plans[j], zip_entry_at(bytes, j)),
{
    assert(plan_matches(plans[k], zip_entry_at(bytes, k)));
}

proof fn lemma_counts_partition(bytes: Seq<u8>, k: int)
    requires
        k >= 0,
    ensures
        count_unreadable(bytes, k) + count_rejected(bytes, k) + count_dir_actions(bytes, k)
            + count_file_actions(bytes, k) == k,
    decreases k,
{
    if k > 0 {
        lemma_counts_partition(bytes, k - 1);
    }
}

proof fn lemma_count_unreadable_single(bytes: Seq<u8>, k: int, f: int)
    requires
        0 <= f,
        k >= 0,
        entry_unreadable(bytes, f),
        forall|j: int| 0 <= j < k && j != f ==> !entry_unreadable(bytes, j),
    ensures
        count_unreadable(bytes, k) == if f < k {
            1int
        } else {
            0int
        },
    decreases k,
{
    if k > 0 {
        lemma_count_unreadable_single(bytes, k - 1, f);
    }
}

proof fn lemma_count_rejected_none(bytes: Seq<u8>, k: int)
    requires
        k >= 0,
        forall|j: int| 0 <= j < k ==> !entry_rejected(bytes, j),
    ensures
        count_rejected(bytes, k) == 0,
    decreases k,
{
    if k > 0 {
        lemma_count_rejected_none(bytes, k - 1);
    }
}

/// Fault isolation: in a valid archive of `n` entries where exactly one
/// entry is unreadable and every other entry is readable with a safe path,
/// the plan skips only the bad entry — the remaining `n - 1` entries are all
/// written (or attempted) — and the channel as a whole still succeeds, since
/// planning only fails on an invalid container.
pub proof fn lemma_fault_isolation(bytes: Seq<u8>, plans: Seq<EntryPlan>, f: int)
    requires
        0 <= f < plans.len(),
        forall|k: int|
            0 <= k < plans.len() ==> plan_matches(#[trigger] plans[k], zip_entry_at(bytes, k)),
        zip_entry_at(bytes, f) is None,
        forall|j: int|
            0 <= j < plans.len() && j != f ==> ((#[trigger] zip_entry_at(bytes, j)) matches Some(e)
                && path_safe(e.0)),
    ensures
        plans[f] is SkipUnreadable,
        forall|j: int|
            0 <= j < plans.len() && j != f ==> (plans[j] is MakeDir || plans[j] is WriteFile),
        count_unreadable(bytes, plans.len() as int) == 1,
        count_rejected(bytes, plans.len() as int) == 0,
        count_dir_actions(bytes, plans.len() as int) + count_file_actions(
            bytes,
            plans.len() as int,
        ) == plans.len() - 1,
{
    let n = plans.len() as int;
    lemma_counts_partition(bytes, n);
    lemma_count_unreadable_single(bytes, n, f);
    lemma_count_rejected_none(bytes, n);
}

} // verus!
