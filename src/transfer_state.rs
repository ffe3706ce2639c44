//! Durable per-transfer bookkeeping: one record per sync run holding one
//! record per file, with the aggregate counters kept consistent.

use vstd::prelude::*;
use vstd::string::*;
use crate::delta::Timestamp;
use crate::clock::now_or_epoch;
use crate::hash::{compute_hash, xxh3_of};

verus! {

/// Size of one verification block: 256 KiB.
pub const VERIFICATION_BLOCK_SIZE: u64 = 256 * 1024;

/// Blocks re-sent when a transfer resumes.
pub const BLOCKS_TO_VERIFY: u64 = 4;

#[derive(Debug, Clone, Copy, PartialEq, Eq, Structural)]
pub enum TransferStatus {
    Pending,
    Running,
    Paused,
    Completed,
    Failed,
    Cancelled,
}

pub open spec fn is_terminal(s: TransferStatus) -> bool {
    s == TransferStatus::Completed || s == TransferStatus::Failed || s == TransferStatus::Cancelled
}

#[derive(Debug, Clone)]
pub struct FileTransferState {
    pub source_path: String,
    pub dest_path: String,
    pub total_bytes: u64,
    pub bytes_transferred: u64,
    pub last_block_hash: Option<u64>,
    pub last_verified_offset: u64,
    pub source_mtime: Timestamp,
    pub status: TransferStatus,
    pub error: Option<String>,
}

/// Offset a resumed copy starts from: the last verified offset minus the
/// re-verified tail of `BLOCKS_TO_VERIFY` blocks, floored at zero.
pub open spec fn resume_offset_of(last_verified_offset: u64) -> int {
    if last_verified_offset > 1048576 {
        last_verified_offset - 1048576
    } else {
        0
    }
}

/// The record after a progress report of `b` bytes with block hash `h`.
pub open spec fn progressed(f: FileTransferState, b: u64, h: Option<u64>) -> FileTransferState {
    let nb = if b <= f.total_bytes { b } else { f.total_bytes };
    FileTransferState { bytes_transferred: nb, last_verified_offset: nb, last_block_hash: h, ..f }
}

/// The record once its bytes have all arrived.
pub open spec fn completed(f: FileTransferState) -> FileTransferState {
    FileTransferState { bytes_transferred: f.total_bytes, status: TransferStatus::Completed, ..f }
}

impl FileTransferState {
    pub open spec fn wf(self) -> bool {
        &&& self.bytes_transferred <= self.total_bytes
        &&& self.last_verified_offset <= self.bytes_transferred
        &&& self.status == TransferStatus::Completed ==> self.bytes_transferred == self.total_bytes
    }

    pub fn new(source_path: String, dest_path: String, total_bytes: u64, mtime: Timestamp) -> (r:
        FileTransferState)
        ensures
            r.wf(),
            r.source_path@ == source_path@,
            r.dest_path@ == dest_path@,
            r.total_bytes == total_bytes,
            r.bytes_transferred == 0,
            r.last_block_hash.is_none(),
            r.last_verified_offset == 0,
            r.source_mtime == mtime,
            r.status == TransferStatus::Pending,
            r.error.is_none(),
    {
        FileTransferState {
            source_path,
            dest_path,
            total_bytes,
            bytes_transferred: 0,
            last_block_hash: None,
            last_verified_offset: 0,
            source_mtime: mtime,
            status: TransferStatus::Pending,
            error: None,
        }
    }

    pub fn is_complete(&self) -> (r: bool)
        ensures
            r == (self.bytes_transferred >= self.total_bytes),
    {
        self.bytes_transferred >= self.total_bytes
    }

    /// Where a resumed copy of this file starts.
    pub fn get_resume_offset(&self) -> (r: u64)
        ensures
            r == resume_offset_of(self.last_verified_offset),
            r <= self.last_verified_offset,
    {
        if self.last_verified_offset > VERIFICATION_BLOCK_SIZE * BLOCKS_TO_VERIFY {
            self.last_verified_offset - VERIFICATION_BLOCK_SIZE * BLOCKS_TO_VERIFY
        } else {
            0
        }
    }
}

/// A per-record quantity summed by the record's invariant.
#[derive(Debug, Clone, Copy, PartialEq, Eq, Structural)]
pub enum Measure {
    Transferred,
    Size,
    Done,
    Failed,
}

pub open spec fn measure(r: FileTransferState, m: Measure) -> int {
    match m {
        Measure::Transferred => bytes_done(r),
        Measure::Size => bytes_all(r),
        Measure::Done => is_done(r),
        Measure::Failed => is_failed(r),
    }
}

/// Sum of `f` over the records, folded from the end.
pub open spec fn total_of(s: Seq<FileTransferState>, f: Measure) -> int
    decreases s.len(),
{
    if s.len() == 0 {
        0
    } else {
        total_of(s.drop_last(), f) + measure(s.last(), f)
    }
}

pub open spec fn bytes_done(f: FileTransferState) -> int {
    f.bytes_transferred as int
}

pub open spec fn bytes_all(f: FileTransferState) -> int {
    f.total_bytes as int
}

pub open spec fn is_done(f: FileTransferState) -> int {
    if f.status == TransferStatus::Completed { 1 } else { 0 }
}

pub open spec fn is_failed(f: FileTransferState) -> int {
    if f.status == TransferStatus::Failed { 1 } else { 0 }
}

pub proof fn lemma_total_update(
    s: Seq<FileTransferState>,
    i: int,
    x: FileTransferState,
    f: Measure,
)
    requires
        0 <= i < s.len(),
    ensures
        total_of(s.update(i, x), f) == total_of(s, f) - measure(s[i], f) + measure(x, f),
    decreases s.len(),
{
    if i == s.len() - 1 {
        assert(s.update(i, x).drop_last() =~= s.drop_last());
    } else {
        lemma_total_update(s.drop_last(), i, x, f);
        assert(s.update(i, x).drop_last() =~= s.drop_last().update(i, x));
    }
}

pub proof fn lemma_total_push(s: Seq<FileTransferState>, x: FileTransferState, f: Measure)
    ensures
        total_of(s.push(x), f) == total_of(s, f) + measure(x, f),
{
    assert(s.push(x).drop_last() =~= s);
}

/// A sum of terms bounded by `g` is bounded by the sum of `g`.
pub proof fn lemma_total_le(
    s: Seq<FileTransferState>,
    f: Measure,
    g: Measure,
)
    requires
        forall|k: int| 0 <= k < s.len() ==> 0 <= #[trigger] measure(s[k], f) <= measure(s[k], g),
    ensures
        0 <= total_of(s, f) <= total_of(s, g),
    decreases s.len(),
{
    if s.len() > 0 {
        assert forall|k: int| 0 <= k < s.drop_last().len() implies 0 <= #[trigger] measure(s.drop_last()[k], f)
            <= measure(s.drop_last()[k], g) by {
            assert(s.drop_last()[k] == s[k]);
        }
        lemma_total_le(s.drop_last(), f, g);
        assert(measure(s[s.len() - 1], f) <= measure(s[s.len() - 1], g));
    }
}

/// One non-negative term is bounded by the whole sum.
pub proof fn lemma_total_elem_le(s: Seq<FileTransferState>, i: int, f: Measure)
    requires
        0 <= i < s.len(),
        forall|k: int| 0 <= k < s.len() ==> 0 <= #[trigger] measure(s[k], f),
    ensures
        measure(s[i], f) <= total_of(s, f),
    decreases s.len(),
{
    assert forall|k: int| 0 <= k < s.drop_last().len() implies 0 <= #[trigger] measure(s.drop_last()[k], f)
        <= measure(s.drop_last()[k], f) by {
        assert(s.drop_last()[k] == s[k]);
    }
    lemma_total_le(s.drop_last(), f, f);
    if i < s.len() - 1 {
        lemma_total_elem_le(s.drop_last(), i, f);
        assert(s.drop_last()[i] == s[i]);
    }
}

/// A prefix of non-negative terms sums to no more than the whole.
pub proof fn lemma_prefix_le(s: Seq<FileTransferState>, n: int, f: Measure)
    requires
        0 <= n <= s.len(),
        forall|k: int| 0 <= k < s.len() ==> 0 <= #[trigger] measure(s[k], f),
    ensures
        total_of(s.subrange(0, n), f) <= total_of(s, f),
    decreases s.len() - n,
{
    if n < s.len() {
        lemma_prefix_le(s, n + 1, f);
        assert(s.subrange(0, n + 1).drop_last() =~= s.subrange(0, n));
    } else {
        assert(s.subrange(0, n) =~= s);
    }
}

/// Counted completed and failed records never outnumber the records.
pub proof fn lemma_total_counts_le(s: Seq<FileTransferState>)
    ensures
        0 <= total_of(s, Measure::Done),
        0 <= total_of(s, Measure::Failed),
        total_of(s, Measure::Done) + total_of(s, Measure::Failed) <= s.len(),
    decreases s.len(),
{
    if s.len() > 0 {
        lemma_total_counts_le(s.drop_last());
    }
}

/// A candidate for resumption: paused or failed, running with no live
/// control behind it (its process is gone), or pending with progress made.
pub open spec fn interrupted_spec(status: TransferStatus, bytes_transferred: u64, live: bool) -> bool {
    match status {
        TransferStatus::Paused | TransferStatus::Failed => true,
        TransferStatus::Running => !live,
        TransferStatus::Pending => bytes_transferred > 0,
        _ => false,
    }
}

pub struct TransferState {
    pub id: String,
    pub source_path: String,
    pub dest_path: String,
    pub status: TransferStatus,
    pub total_bytes: u64,
    pub bytes_transferred: u64,
    pub total_files: usize,
    pub files_completed: usize,
    pub files_failed: usize,
    pub files_skipped: usize,
    /// One record per file, keyed by its absolute source path.
    pub files: Vec<FileTransferState>,
    pub conflicts: Vec<String>,
    pub conflicts_resolved: usize,
    pub started_at: Timestamp,
    pub completed_at: Option<Timestamp>,
    pub updated_at: Timestamp,
    pub current_file: Option<String>,
    pub speed_bytes_per_sec: u64,
    pub error: Option<String>,
    /// The exclusion patterns of the run, reused when it is resumed.
    pub exclude_patterns: Vec<String>,
}

pub open spec fn paths_unique(s: Seq<FileTransferState>) -> bool {
    forall|i: int, j: int|
        0 <= i < s.len() && 0 <= j < s.len() && i != j ==> s[i].source_path@ != s[j].source_path@
}

impl TransferState {
    /// The record's invariant: every file record is well formed and keyed
    /// uniquely; the aggregate byte counts are the sums over the files; the
    /// completed and skipped counters together count the completed files and
    /// the failed counter the failed ones; a terminal status has a completion time.
    pub open spec fn wf(self) -> bool {
        let s = self.files@;
        &&& forall|i: int| 0 <= i < s.len() ==> (#[trigger] s[i]).wf()
        &&& paths_unique(s)
        &&& self.total_files == s.len()
        &&& self.total_bytes == total_of(s, Measure::Size)
        &&& self.bytes_transferred == total_of(s, Measure::Transferred)
        &&& self.files_completed + self.files_skipped == total_of(s, Measure::Done)
        &&& self.files_failed == total_of(s, Measure::Failed)
        &&& is_terminal(self.status) ==> self.completed_at.is_some()
    }

    /// The index of the record for `p`, if there is one.
    pub open spec fn position_of(self, p: Seq<char>) -> Option<int> {
        if exists|i: int| 0 <= i < self.files@.len() && self.files@[i].source_path@ == p {
            Some(choose|i: int| 0 <= i < self.files@.len() && self.files@[i].source_path@ == p)
        } else {
            None
        }
    }

    /// A fresh, empty, pending record under the id `id`, remembering the
    /// exclusion patterns of its run.
    pub fn new(id: String, source_path: String, dest_path: String, exclude_patterns: Vec<String>) -> (r: TransferState)
        ensures
            r.wf(),
            r.id@ == id@,
            r.exclude_patterns@ == exclude_patterns@,
            r.source_path@ == source_path@,
            r.dest_path@ == dest_path@,
            r.status == TransferStatus::Pending,
            r.files@.len() == 0,
            r.total_files == 0,
            r.total_bytes == 0,
            r.bytes_transferred == 0,
            r.files_completed == 0,
            r.files_failed == 0,
            r.files_skipped == 0,
            r.completed_at.is_none(),
            r.started_at == r.updated_at,
            r.error.is_none(),
    {
        let now = now_or_epoch();
        TransferState {
            id,
            source_path,
            dest_path,
            status: TransferStatus::Pending,
            total_bytes: 0,
            bytes_transferred: 0,
            total_files: 0,
            files_completed: 0,
            files_failed: 0,
            files_skipped: 0,
            files: Vec::new(),
            conflicts: Vec::new(),
            conflicts_resolved: 0,
            started_at: now,
            completed_at: None,
            updated_at: now,
            current_file: None,
            speed_bytes_per_sec: 0,
            error: None,
            exclude_patterns,
        }
    }

    /// Header fields that a per-file update leaves alone.
    pub open spec fn same_header(self, other: TransferState) -> bool {
        &&& self.id@ == other.id@
        &&& self.source_path@ == other.source_path@
        &&& self.dest_path@ == other.dest_path@
        &&& self.status == other.status
        &&& self.total_bytes == other.total_bytes
        &&& self.total_files == other.total_files
        &&& self.started_at == other.started_at
        &&& self.completed_at == other.completed_at
        &&& self.error == other.error
    }

    /// Records progress of one file: `bytes_transferred` (capped at the file's
    /// size) becomes both its transferred count and its last verified offset.
    /// A file that is already completed, or that has no record, is left alone.
    pub fn update_file_progress(&mut self, source_path: &str, bytes_transferred: u64, last_block_hash: Option<u64>)
        requires
            old(self).wf(),
        ensures
            final(self).wf(),
            final(self).same_header(*old(self)),
            final(self).files_completed == old(self).files_completed,
            final(self).files_failed == old(self).files_failed,
            final(self).files_skipped == old(self).files_skipped,
            match old(self).position_of(source_path@) {
                Some(i) => if old(self).files@[i].status != TransferStatus::Completed {
                    &&& final(self).files@ == old(self).files@.update(
                        i,
                        progressed(old(self).files@[i], bytes_transferred, last_block_hash),
                    )
                    &&& final(self).bytes_transferred == old(self).bytes_transferred
                        - old(self).files@[i].bytes_transferred + progressed(
                        old(self).files@[i],
                        bytes_transferred,
                        last_block_hash,
                    ).bytes_transferred
                } else {
                    final(self).files@ == old(self).files@ && final(self).bytes_transferred
                        == old(self).bytes_transferred
                },
                None => final(self).files@ == old(self).files@ && final(self).bytes_transferred
                    == old(self).bytes_transferred,
            },
    {
        let found = self.find_file(source_path);
        if let Some(i) = found {
            if self.files[i].status != TransferStatus::Completed {
                let ghost s0 = self.files@;
                let old_b = self.files[i].bytes_transferred;
                let total = self.files[i].total_bytes;
                let nb = if bytes_transferred <= total { bytes_transferred } else { total };
                let ghost nf = progressed(s0[i as int], bytes_transferred, last_block_hash);
                proof {
                    let s1 = s0.update(i as int, nf);
                    lemma_total_update(s0, i as int, nf, Measure::Transferred);
                    lemma_total_update(s0, i as int, nf, Measure::Size);
                    lemma_total_update(s0, i as int, nf, Measure::Done);
                    lemma_total_update(s0, i as int, nf, Measure::Failed);
                    lemma_total_elem_le(s0, i as int, Measure::Transferred);
                    assert forall|k: int| 0 <= k < s1.len() implies 0 <= #[trigger] measure(s1[k], Measure::Transferred)
                        <= measure(s1[k], Measure::Size) by {
                        assert((s1[k]).wf());
                    }
                    lemma_total_le(s1, Measure::Transferred, Measure::Size);
                }
                self.files[i].bytes_transferred = nb;
                self.files[i].last_verified_offset = nb;
                self.files[i].last_block_hash = last_block_hash;
                self.bytes_transferred = self.bytes_transferred - old_b + nb;
                self.updated_at = now_or_epoch();
                proof {
                    assert(self.files@ =~= s0.update(i as int, nf));
                    assert forall|a: int, b: int|
                        0 <= a < self.files@.len() && 0 <= b < self.files@.len() && a != b implies
                        self.files@[a].source_path@ != self.files@[b].source_path@ by {
                        assert(s0[a].source_path@ != s0[b].source_path@);
                    }
                }
            }
        }
    }

    /// Replaces record `i` by `nf`, adjusting the byte total and the counters
    /// by the given amounts; the caller has checked that these keep the invariant.
    proof fn lemma_replace_keeps_sums(s0: Seq<FileTransferState>, i: int, nf: FileTransferState)
        requires
            0 <= i < s0.len(),
            forall|k: int| 0 <= k < s0.len() ==> (#[trigger] s0[k]).wf(),
            nf.wf(),
            nf.total_bytes == s0[i].total_bytes,
        ensures
            total_of(s0.update(i, nf), Measure::Transferred) == total_of(s0, Measure::Transferred)
                - s0[i].bytes_transferred + nf.bytes_transferred,
            total_of(s0.update(i, nf), Measure::Size) == total_of(s0, Measure::Size),
            total_of(s0.update(i, nf), Measure::Done) == total_of(s0, Measure::Done)
                - is_done(s0[i]) + is_done(nf),
            total_of(s0.update(i, nf), Measure::Failed) == total_of(s0, Measure::Failed)
                - is_failed(s0[i]) + is_failed(nf),
            total_of(s0.update(i, nf), Measure::Transferred) <= total_of(s0, Measure::Size),
            total_of(s0.update(i, nf), Measure::Done) + total_of(s0.update(i, nf), Measure::Failed) <= s0.len(),
            is_done(s0[i]) <= total_of(s0, Measure::Done),
            is_failed(s0[i]) <= total_of(s0, Measure::Failed),
            s0[i].bytes_transferred <= total_of(s0, Measure::Transferred),
    {
        let s1 = s0.update(i, nf);
        lemma_total_update(s0, i, nf, Measure::Transferred);
        lemma_total_update(s0, i, nf, Measure::Size);
        lemma_total_update(s0, i, nf, Measure::Done);
        lemma_total_update(s0, i, nf, Measure::Failed);
        lemma_total_elem_le(s0, i, Measure::Done);
        lemma_total_elem_le(s0, i, Measure::Failed);
        lemma_total_elem_le(s0, i, Measure::Transferred);
        assert forall|k: int| 0 <= k < s1.len() implies 0 <= #[trigger] measure(s1[k], Measure::Transferred) <= measure(s1[k], Measure::Size) by {
            assert((s1[k]).wf());
        }
        lemma_total_le(s1, Measure::Transferred, Measure::Size);
        lemma_total_counts_le(s1);
    }

    /// Marks one file as completed: its transferred count reaches its size and
    /// the aggregate grows by what was missing. A failed file stops counting as
    /// failed. An already completed file, or a path without a record, changes nothing.
    pub fn complete_file(&mut self, source_path: &str)
        requires
            old(self).wf(),
        ensures
            final(self).wf(),
            final(self).same_header(*old(self)),
            final(self).files_skipped == old(self).files_skipped,
            match old(self).position_of(source_path@) {
                Some(i) => if old(self).files@[i].status != TransferStatus::Completed {
                    &&& final(self).files@ == old(self).files@.update(i, completed(old(self).files@[i]))
                    &&& final(self).bytes_transferred == old(self).bytes_transferred
                        - old(self).files@[i].bytes_transferred + old(self).files@[i].total_bytes
                    &&& final(self).files_completed == old(self).files_completed + 1
                    &&& final(self).files_failed == old(self).files_failed
                        - is_failed(old(self).files@[i])
                } else {
                    final(self).files@ == old(self).files@ && final(self).bytes_transferred
                        == old(self).bytes_transferred && final(self).files_completed == old(self).files_completed
                        && final(self).files_failed == old(self).files_failed
                },
                None => final(self).files@ == old(self).files@ && final(self).bytes_transferred
                    == old(self).bytes_transferred && final(self).files_completed == old(self).files_completed
                    && final(self).files_failed == old(self).files_failed,
            },
    {
        self.finish_file(source_path, false);
    }

    /// Marks one file as skipped: it counts as done, under the skipped counter.
    pub fn skip_file(&mut self, source_path: &str)
        requires
            old(self).wf(),
        ensures
            final(self).wf(),
            final(self).same_header(*old(self)),
            final(self).files_completed == old(self).files_completed,
            match old(self).position_of(source_path@) {
                Some(i) => if old(self).files@[i].status != TransferStatus::Completed {
                    &&& final(self).files@ == old(self).files@.update(i, completed(old(self).files@[i]))
                    &&& final(self).bytes_transferred == old(self).bytes_transferred
                        - old(self).files@[i].bytes_transferred + old(self).files@[i].total_bytes
                    &&& final(self).files_skipped == old(self).files_skipped + 1
                    &&& final(self).files_failed == old(self).files_failed
                        - is_failed(old(self).files@[i])
                } else {
                    final(self).files@ == old(self).files@ && final(self).bytes_transferred
                        == old(self).bytes_transferred && final(self).files_skipped == old(self).files_skipped
                        && final(self).files_failed == old(self).files_failed
                },
                None => final(self).files@ == old(self).files@ && final(self).bytes_transferred
                    == old(self).bytes_transferred && final(self).files_skipped == old(self).files_skipped
                    && final(self).files_failed == old(self).files_failed,
            },
    {
        self.finish_file(source_path, true);
    }

    fn finish_file(&mut self, source_path: &str, skipped: bool)
        requires
            old(self).wf(),
        ensures
            final(self).wf(),
            final(self).same_header(*old(self)),
            skipped ==> final(self).files_completed == old(self).files_completed,
            !skipped ==> final(self).files_skipped == old(self).files_skipped,
            match old(self).position_of(source_path@) {
                Some(i) => if old(self).files@[i].status != TransferStatus::Completed {
                    &&& final(self).files@ == old(self).files@.update(i, completed(old(self).files@[i]))
                    &&& final(self).bytes_transferred == old(self).bytes_transferred
                        - old(self).files@[i].bytes_transferred + old(self).files@[i].total_bytes
                    &&& skipped ==> final(self).files_skipped == old(self).files_skipped + 1
                    &&& !skipped ==> final(self).files_completed == old(self).files_completed + 1
                    &&& final(self).files_failed == old(self).files_failed
                        - is_failed(old(self).files@[i])
                } else {
                    final(self).files@ == old(self).files@ && final(self).bytes_transferred
                        == old(self).bytes_transferred && final(self).files_completed == old(self).files_completed
                        && final(self).files_skipped == old(self).files_skipped
                        && final(self).files_failed == old(self).files_failed
                },
                None => final(self).files@ == old(self).files@ && final(self).bytes_transferred
                    == old(self).bytes_transferred && final(self).files_completed == old(self).files_completed
                    && final(self).files_skipped == old(self).files_skipped
                    && final(self).files_failed == old(self).files_failed,
            },
    {
        let found = self.find_file(source_path);
        if let Some(i) = found {
            if self.files[i].status != TransferStatus::Completed {
                let ghost s0 = self.files@;
                let ghost nf = completed(s0[i as int]);
                proof {
                    Self::lemma_replace_keeps_sums(s0, i as int, nf);
                }
                let old_b = self.files[i].bytes_transferred;
                let total = self.files[i].total_bytes;
                let was_failed = self.files[i].status == TransferStatus::Failed;
                self.files[i].bytes_transferred = total;
                self.files[i].status = TransferStatus::Completed;
                self.bytes_transferred = self.bytes_transferred - old_b + total;
                if was_failed {
                    self.files_failed = self.files_failed - 1;
                }
                if skipped {
                    self.files_skipped = self.files_skipped + 1;
                } else {
                    self.files_completed = self.files_completed + 1;
                }
                self.updated_at = now_or_epoch();
                proof {
                    assert(self.files@ =~= s0.update(i as int, nf));
                    assert forall|a: int, b: int|
                        0 <= a < self.files@.len() && 0 <= b < self.files@.len() && a != b implies
                        self.files@[a].source_path@ != self.files@[b].source_path@ by {
                        assert(s0[a].source_path@ != s0[b].source_path@);
                    }
                }
            }
        }
    }

    /// Marks one file as failed with `error`. A completed file stays completed;
    /// a file that had already failed only takes the new message.
    pub fn fail_file(&mut self, source_path: &str, error: String)
        requires
            old(self).wf(),
        ensures
            final(self).wf(),
            final(self).same_header(*old(self)),
            final(self).files_completed == old(self).files_completed,
            final(self).files_skipped == old(self).files_skipped,
            final(self).bytes_transferred == old(self).bytes_transferred,
            match old(self).position_of(source_path@) {
                Some(i) => if old(self).files@[i].status != TransferStatus::Completed {
                    &&& final(self).files@.len() == old(self).files@.len()
                    &&& forall|k: int| 0 <= k < old(self).files@.len() && k != i
                        ==> final(self).files@[k] == old(self).files@[k]
                    &&& final(self).files@[i] == (FileTransferState {
                        status: TransferStatus::Failed,
                        error: final(self).files@[i].error,
                        ..old(self).files@[i]
                    })
                    &&& final(self).files@[i].error.is_some()
                    &&& final(self).files@[i].error.unwrap()@ == error@
                    &&& final(self).files_failed == old(self).files_failed + 1
                        - is_failed(old(self).files@[i])
                } else {
                    final(self).files@ == old(self).files@ && final(self).files_failed == old(self).files_failed
                },
                None => final(self).files@ == old(self).files@ && final(self).files_failed == old(self).files_failed,
            },
    {
        let found = self.find_file(source_path);
        if let Some(i) = found {
            if self.files[i].status != TransferStatus::Completed {
                let ghost s0 = self.files@;
                let was_failed = self.files[i].status == TransferStatus::Failed;
                self.files[i].status = TransferStatus::Failed;
                self.files[i].error = Some(error);
                let ghost nf = self.files@[i as int];
                proof {
                    assert(self.files@ =~= s0.update(i as int, nf));
                    Self::lemma_replace_keeps_sums(s0, i as int, nf);
                }
                if !was_failed {
                    self.files_failed = self.files_failed + 1;
                }
                self.updated_at = now_or_epoch();
                proof {
                    assert forall|a: int, b: int|
                        0 <= a < self.files@.len() && 0 <= b < self.files@.len() && a != b implies
                        self.files@[a].source_path@ != self.files@[b].source_path@ by {
                        assert(s0[a].source_path@ != s0[b].source_path@);
                    }
                }
            }
        }
    }

    /// Adds the record of one more file, unless its source path already has one.
    /// The aggregate size and the file count grow with it.
    pub fn add_file(&mut self, file_state: FileTransferState)
        requires
            old(self).wf(),
            file_state.wf(),
            file_state.status != TransferStatus::Completed,
            file_state.status != TransferStatus::Failed,
            old(self).total_bytes + file_state.total_bytes <= u64::MAX,
            old(self).total_files < usize::MAX,
        ensures
            final(self).wf(),
            final(self).same_header_but_totals(*old(self)),
            final(self).files_completed == old(self).files_completed,
            final(self).files_failed == old(self).files_failed,
            final(self).files_skipped == old(self).files_skipped,
            old(self).position_of(file_state.source_path@).is_some() ==> {
                &&& final(self).files@ == old(self).files@
                &&& final(self).total_bytes == old(self).total_bytes
                &&& final(self).total_files == old(self).total_files
                &&& final(self).bytes_transferred == old(self).bytes_transferred
            },
            old(self).position_of(file_state.source_path@).is_none() ==> {
                &&& final(self).files@ == old(self).files@.push(file_state)
                &&& final(self).total_bytes == old(self).total_bytes + file_state.total_bytes
                &&& final(self).total_files == old(self).total_files + 1
                &&& final(self).bytes_transferred == old(self).bytes_transferred + file_state.bytes_transferred
            },
    {
        if self.find_file(file_state.source_path.as_str()).is_some() {
            return;
        }
        let ghost s0 = self.files@;
        proof {
            lemma_total_push(s0, file_state, Measure::Transferred);
            lemma_total_push(s0, file_state, Measure::Size);
            lemma_total_push(s0, file_state, Measure::Done);
            lemma_total_push(s0, file_state, Measure::Failed);
            assert forall|k: int| 0 <= k < s0.len() implies 0 <= #[trigger] measure(s0[k], Measure::Transferred)
                <= measure(s0[k], Measure::Size) by {
                assert((s0[k]).wf());
            }
            lemma_total_le(s0, Measure::Transferred, Measure::Size);
            assert forall|k: int| 0 <= k < s0.len() implies s0[k].source_path@ != file_state.source_path@ by {
                if s0[k].source_path@ == file_state.source_path@ {
                    assert(exists|j: int| 0 <= j < s0.len() && s0[j].source_path@ == file_state.source_path@);
                }
            }
        }
        self.total_bytes = self.total_bytes + file_state.total_bytes;
        self.bytes_transferred = self.bytes_transferred + file_state.bytes_transferred;
        self.total_files = self.total_files + 1;
        self.files.push(file_state);
        proof {
            let s1 = self.files@;
            assert(s1 =~= s0.push(file_state));
            assert forall|a: int, b: int| 0 <= a < s1.len() && 0 <= b < s1.len() && a != b implies
                s1[a].source_path@ != s1[b].source_path@ by {
                if a < s0.len() && b < s0.len() {
                    assert(s0[a].source_path@ != s0[b].source_path@);
                }
            }
            assert forall|k: int| 0 <= k < s1.len() implies (#[trigger] s1[k]).wf() by {
                if k < s0.len() {
                    assert(s0[k].wf());
                }
            }
        }
    }

    /// Records a copy's progress report: `copied` bytes so far, the last
    /// block being `chunk`, whose hash becomes the record's last block hash.
    pub fn record_chunk(&mut self, source_path: &str, copied: u64, chunk: &[u8])
        requires
            old(self).wf(),
        ensures
            final(self).wf(),
            final(self).same_header(*old(self)),
            match old(self).position_of(source_path@) {
                Some(i) => if old(self).files@[i].status != TransferStatus::Completed {
                    final(self).files@ == old(self).files@.update(
                        i,
                        progressed(old(self).files@[i], copied, Some(xxh3_of(chunk@))),
                    )
                } else {
                    final(self).files@ == old(self).files@ && final(self).bytes_transferred
                        == old(self).bytes_transferred
                },
                None => final(self).files@ == old(self).files@,
            },
    {
        let h = compute_hash(chunk);
        self.update_file_progress(source_path, copied, Some(h));
    }

    /// Whether the record satisfies its invariant (a record read back from
    /// disk is checked before use).
    pub fn check_consistent(&self) -> (r: bool)
        ensures
            r == self.wf(),
    {
        let n = self.files.len();
        let ghost s = self.files@;
        let mut size: u64 = 0;
        let mut done_bytes: u64 = 0;
        let mut done: usize = 0;
        let mut failed: usize = 0;
        let mut i: usize = 0;
        while i < n
            invariant
                n == s.len(),
                s == self.files@,
                i <= n,
                forall|k: int| 0 <= k < i ==> (#[trigger] s[k]).wf(),
                size == total_of(s.subrange(0, i as int), Measure::Size),
                done_bytes == total_of(s.subrange(0, i as int), Measure::Transferred),
                done == total_of(s.subrange(0, i as int), Measure::Done),
                failed == total_of(s.subrange(0, i as int), Measure::Failed),
                done + failed <= i,
            decreases n - i,
        {
            let f = &self.files[i];
            if !(f.bytes_transferred <= f.total_bytes && f.last_verified_offset <= f.bytes_transferred && (f.status
                != TransferStatus::Completed || f.bytes_transferred == f.total_bytes)) {
                return false;
            }
            proof {
                let t = s.subrange(0, i + 1);
                assert(t.drop_last() =~= s.subrange(0, i as int));
            }
            if f.total_bytes > u64::MAX - size || f.bytes_transferred > u64::MAX - done_bytes {
                proof {
                    lemma_prefix_le(s, i + 1, Measure::Size);
                    lemma_prefix_le(s, i + 1, Measure::Transferred);
                }
                return false;
            }
            size = size + f.total_bytes;
            done_bytes = done_bytes + f.bytes_transferred;
            if f.status == TransferStatus::Completed {
                done = done + 1;
            } else if f.status == TransferStatus::Failed {
                failed = failed + 1;
            }
            i += 1;
        }
        proof {
            assert(s.subrange(0, n as int) =~= s);
        }
        let mut a: usize = 0;
        while a < n
            invariant
                n == s.len(),
                s == self.files@,
                a <= n,
                forall|x: int, y: int| 0 <= x < a && 0 <= y < n && x != y ==> s[x].source_path@ != s[y].source_path@,
            decreases n - a,
        {
            let mut b: usize = 0;
            while b < n
                invariant
                    n == s.len(),
                    s == self.files@,
                    a < n,
                    b <= n,
                    forall|x: int, y: int| 0 <= x < a && 0 <= y < n && x != y ==> s[x].source_path@ != s[y].source_path@,
                    forall|y: int| 0 <= y < b && y != a ==> s[a as int].source_path@ != s[y].source_path@,
                decreases n - b,
            {
                if a != b && crate::text::str_eq(self.files[a].source_path.as_str(), self.files[b].source_path.as_str()) {
                    return false;
                }
                b += 1;
            }
            a += 1;
        }
        let terminal = match self.status {
            TransferStatus::Completed | TransferStatus::Failed | TransferStatus::Cancelled => true,
            _ => false,
        };
        self.total_files == n && self.total_bytes == size && self.bytes_transferred == done_bytes
            && self.files_completed as u128 + self.files_skipped as u128 == done as u128 && self.files_failed == failed
            && (!terminal || self.completed_at.is_some())
    }

    /// Header fields that adding a file leaves alone.
    pub open spec fn same_header_but_totals(self, other: TransferState) -> bool {
        &&& self.id@ == other.id@
        &&& self.source_path@ == other.source_path@
        &&& self.dest_path@ == other.dest_path@
        &&& self.status == other.status
        &&& self.started_at == other.started_at
        &&& self.completed_at == other.completed_at
        &&& self.error == other.error
    }

    /// Sets the aggregate status and error; a terminal status stamps the
    /// completion time if none is set yet.
    pub fn set_status(&mut self, status: TransferStatus, error: Option<String>)
        requires
            old(self).wf(),
        ensures
            final(self).wf(),
            final(self).status == status,
            final(self).error == error,
            final(self).files@ == old(self).files@,
            final(self).total_bytes == old(self).total_bytes,
            final(self).bytes_transferred == old(self).bytes_transferred,
            final(self).total_files == old(self).total_files,
            final(self).files_completed == old(self).files_completed,
            final(self).files_failed == old(self).files_failed,
            final(self).files_skipped == old(self).files_skipped,
            old(self).completed_at.is_some() ==> final(self).completed_at == old(self).completed_at,
            old(self).completed_at.is_none() && !is_terminal(status) ==> final(self).completed_at.is_none(),
    {
        let now = now_or_epoch();
        self.status = status;
        self.error = error;
        self.updated_at = now;
        if self.completed_at.is_none() && (status == TransferStatus::Completed || status
            == TransferStatus::Failed || status == TransferStatus::Cancelled) {
            self.completed_at = Some(now);
        }
    }

    /// Counts one more resolved conflict, saturating at the counter's limit.
    pub fn record_conflict_resolved(&mut self)
        requires
            old(self).wf(),
        ensures
            final(self).wf(),
            final(self).conflicts_resolved == if old(self).conflicts_resolved == usize::MAX {
                usize::MAX as int
            } else {
                old(self).conflicts_resolved + 1
            },
    {
        self.conflicts_resolved = self.conflicts_resolved.saturating_add(1);
    }

    /// Whether the aggregate status is terminal.
    pub fn is_finished(&self) -> (r: bool)
        ensures
            r == is_terminal(self.status),
    {
        match self.status {
            TransferStatus::Completed | TransferStatus::Failed | TransferStatus::Cancelled => true,
            _ => false,
        }
    }

    /// Whether the record is a candidate for resumption, `live` telling
    /// whether a running control still drives it.
    pub fn is_interrupted(&self, live: bool) -> (r: bool)
        ensures
            r == interrupted_spec(self.status, self.bytes_transferred, live),
    {
        match self.status {
            TransferStatus::Paused | TransferStatus::Failed => true,
            TransferStatus::Running => !live,
            TransferStatus::Pending => self.bytes_transferred > 0,
            _ => false,
        }
    }

    /// Looks up the record for `p`.
    pub fn find_file(&self, p: &str) -> (r: Option<usize>)
        requires
            self.wf(),
        ensures
            r.is_some() == self.position_of(p@).is_some(),
            r.is_some() ==> r.unwrap() as int == self.position_of(p@).unwrap(),
            r.is_some() ==> r.unwrap() < self.files@.len(),
    {
        let mut i: usize = 0;
        while i < self.files.len()
            invariant
                self.wf(),
                i <= self.files@.len(),
                forall|k: int| 0 <= k < i ==> self.files@[k].source_path@ != p@,
            decreases self.files@.len() - i,
        {
            if crate::text::str_eq(self.files[i].source_path.as_str(), p) {
                proof {
                    assert(self.files@[i as int].source_path@ == p@);
                    assert(exists|j: int| 0 <= j < self.files@.len() && self.files@[j].source_path@ == p@);
                    let j = choose|j: int| 0 <= j < self.files@.len() && self.files@[j].source_path@ == p@;
                    assert(paths_unique(self.files@));
                    if j != i as int {
                        assert(self.files@[j].source_path@ != self.files@[i as int].source_path@);
                    }
                }
                return Some(i);
            }
            i += 1;
        }
        None
    }
}

/// Whether `id` is among the ids of live controls.
pub open spec fn is_live(ids: Seq<String>, id: Seq<char>) -> bool {
    exists|k: int| 0 <= k < ids.len() && (#[trigger] ids[k])@ == id
}

fn contains_id(ids: &Vec<String>, id: &str) -> (r: bool)
    ensures
        r == is_live(ids@, id@),
{
    let mut k: usize = 0;
    while k < ids.len()
        invariant
            k <= ids@.len(),
            forall|j: int| 0 <= j < k ==> (#[trigger] ids@[j])@ != id@,
        decreases ids@.len() - k,
    {
        if crate::text::str_eq(ids[k].as_str(), id) {
            return true;
        }
        k += 1;
    }
    false
}

/// The positions, in order, of the records that are candidates for
/// resumption, given the ids of the transfers whose control is live.
pub fn interrupted_positions(states: &Vec<TransferState>, live_ids: &Vec<String>) -> (r: Vec<usize>)
    ensures
        forall|k: int| 0 <= k < r@.len() ==> r@[k] < states@.len() && interrupted_spec(
            states@[r@[k] as int].status,
            states@[r@[k] as int].bytes_transferred,
            is_live(live_ids@, states@[r@[k] as int].id@),
        ),
        forall|i: int| 0 <= i < states@.len() && interrupted_spec(states@[i].status, states@[i].bytes_transferred, is_live(live_ids@, states@[i].id@))
            ==> r@.contains(i as usize),
        forall|a: int, b: int| 0 <= a < b < r@.len() ==> r@[a] < r@[b],
{
    let mut r: Vec<usize> = Vec::new();
    let mut i: usize = 0;
    while i < states.len()
        invariant
            i <= states@.len(),
            forall|k: int| 0 <= k < r@.len() ==> r@[k] < i && interrupted_spec(
                states@[r@[k] as int].status,
                states@[r@[k] as int].bytes_transferred,
                is_live(live_ids@, states@[r@[k] as int].id@),
            ),
            forall|j: int| 0 <= j < i && interrupted_spec(states@[j].status, states@[j].bytes_transferred, is_live(live_ids@, states@[j].id@))
                ==> r@.contains(j as usize),
            forall|a: int, b: int| 0 <= a < b < r@.len() ==> r@[a] < r@[b],
        decreases states@.len() - i,
    {
        let live = contains_id(live_ids, states[i].id.as_str());
        if states[i].is_interrupted(live) {
            let ghost r0 = r@;
            r.push(i);
            proof {
                assert(r@[r@.len() - 1] == i);
                assert forall|j: int| 0 <= j < i && interrupted_spec(states@[j].status, states@[j].bytes_transferred, is_live(live_ids@, states@[j].id@))
                    implies r@.contains(j as usize) by {
                    let k = choose|k: int| 0 <= k < r0.len() && r0[k] == j as usize;
                    assert(r@[k] == r0[k]);
                }
            }
        }
        i += 1;
    }
    r
}

/// The positions, in order, of the records whose status is not terminal.
pub fn active_positions(states: &Vec<TransferState>) -> (r: Vec<usize>)
    ensures
        forall|k: int| 0 <= k < r@.len() ==> r@[k] < states@.len() && !is_terminal(states@[r@[k] as int].status),
        forall|i: int| 0 <= i < states@.len() && !is_terminal(states@[i].status) ==> r@.contains(i as usize),
        forall|a: int, b: int| 0 <= a < b < r@.len() ==> r@[a] < r@[b],
{
    let mut r: Vec<usize> = Vec::new();
    let mut i: usize = 0;
    while i < states.len()
        invariant
            i <= states@.len(),
            forall|k: int| 0 <= k < r@.len() ==> r@[k] < i && !is_terminal(states@[r@[k] as int].status),
            forall|j: int| 0 <= j < i && !is_terminal(states@[j].status) ==> r@.contains(j as usize),
            forall|a: int, b: int| 0 <= a < b < r@.len() ==> r@[a] < r@[b],
        decreases states@.len() - i,
    {
        if !states[i].is_finished() {
            let ghost r0 = r@;
            r.push(i);
            proof {
                assert(r@[r@.len() - 1] == i);
                assert forall|j: int| 0 <= j < i && !is_terminal(states@[j].status)
                    implies r@.contains(j as usize) by {
                    let k = choose|k: int| 0 <= k < r0.len() && r0[k] == j as usize;
                    assert(r@[k] == r0[k]);
                }
            }
        }
        i += 1;
    }
    r
}

/// Every well-formed record satisfies the data model's invariants: each file
/// has transferred no more than its size, verified no more than it
/// transferred, and is complete when completed; the aggregate transferred
/// count is the sum over the files; the completed, failed and skipped counters
/// together stay within the file count; a terminal status has a completion time.
pub proof fn lemma_record_invariants(t: TransferState)
    requires
        t.wf(),
    ensures
        forall|i: int| 0 <= i < t.files@.len() ==> {
            &&& (#[trigger] t.files@[i]).bytes_transferred <= t.files@[i].total_bytes
            &&& t.files@[i].last_verified_offset <= t.files@[i].bytes_transferred
            &&& t.files@[i].status == TransferStatus::Completed ==> t.files@[i].bytes_transferred
                == t.files@[i].total_bytes
        },
        t.bytes_transferred == total_of(t.files@, Measure::Transferred),
        t.files_completed + t.files_failed + t.files_skipped <= t.total_files,
        t.bytes_transferred <= t.total_bytes,
        is_terminal(t.status) ==> t.completed_at.is_some(),
{
    lemma_total_counts_le(t.files@);
    assert forall|k: int| 0 <= k < t.files@.len() implies 0 <= #[trigger] measure(t.files@[k], Measure::Transferred)
        <= measure(t.files@[k], Measure::Size) by {
        assert(t.files@[k].wf());
    }
    lemma_total_le(t.files@, Measure::Transferred, Measure::Size);
}

/// The file a record is persisted in: `<id>.json`.
pub fn state_file_name(id: &str) -> (r: String)
    ensures
        r@ == id@ + ".json"@,
{
    let mut r = String::from_str(id);
    r.append(".json");
    r
}

/// The staging file a record is written to before it replaces `<id>.json`: `<id>.tmp`.
pub fn state_temp_name(id: &str) -> (r: String)
    ensures
        r@ == id@ + ".tmp"@,
{
    let mut r = String::from_str(id);
    r.append(".tmp");
    r
}

/// Seconds in a day.
pub const SECONDS_PER_DAY: u64 = 24 * 60 * 60;

/// Days a finished record is kept on disk.
pub const STATE_RETENTION_DAYS: u64 = 7;

/// The retention sweep removes a persisted record only when it is finished
/// and older than `max_age_days` days.
pub fn should_remove_state(age_secs: u64, max_age_days: u64, finished: bool) -> (r: bool)
    requires
        max_age_days <= u64::MAX / 86400,
    ensures
        r == (finished && age_secs > max_age_days * 86400),
{
    finished && age_secs > max_age_days * SECONDS_PER_DAY
}

} // verus!
