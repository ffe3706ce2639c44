//! Scan results: the manifest of a source tree, its totals and its completeness.

use vstd::prelude::*;
use crate::delta::FileInfo;
use crate::error::SyncError;

verus! {

/// Bytes of the regular entries (not directories) among `s`.
pub open spec fn size_total(s: Seq<FileInfo>) -> int
    decreases s.len(),
{
    if s.len() == 0 {
        0
    } else {
        size_total(s.drop_last()) + if s.last().is_dir { 0 } else { s.last().size as int }
    }
}

/// Number of entries among `s` that are (or are not) directories.
pub open spec fn count_dirs(s: Seq<FileInfo>, dirs: bool) -> int
    decreases s.len(),
{
    if s.len() == 0 {
        0
    } else {
        count_dirs(s.drop_last(), dirs) + if s.last().is_dir == dirs { 1int } else { 0 }
    }
}

proof fn lemma_counts_le(s: Seq<FileInfo>)
    ensures
        0 <= count_dirs(s, true) <= s.len(),
        0 <= count_dirs(s, false) <= s.len(),
        0 <= size_total(s),
    decreases s.len(),
{
    if s.len() > 0 {
        lemma_counts_le(s.drop_last());
    }
}

/// Running totals of a walk: bytes and counts of files and directories.
#[derive(Debug, Clone, Copy, PartialEq, Eq, Structural)]
pub struct ScanTally {
    pub total_size: u64,
    pub file_count: usize,
    pub dir_count: usize,
}

impl ScanTally {
    pub fn new() -> (r: ScanTally)
        ensures
            r.total_size == 0 && r.file_count == 0 && r.dir_count == 0,
    {
        ScanTally { total_size: 0, file_count: 0, dir_count: 0 }
    }

    /// Counts one more entry; `false`, with the tally unchanged, when a total
    /// would overflow.
    pub fn add(&mut self, is_dir: bool, size: u64) -> (ok: bool)
        ensures
            ok == if is_dir {
                old(self).dir_count < usize::MAX
            } else {
                old(self).file_count < usize::MAX && old(self).total_size + size <= u64::MAX
            },
            ok && is_dir ==> *final(self) == (ScanTally { dir_count: (old(self).dir_count + 1) as usize, ..*old(self) }),
            ok && !is_dir ==> *final(self) == (ScanTally {
                file_count: (old(self).file_count + 1) as usize,
                total_size: (old(self).total_size + size) as u64,
                ..*old(self)
            }),
            !ok ==> *final(self) == *old(self),
    {
        if is_dir {
            if self.dir_count == usize::MAX {
                return false;
            }
            self.dir_count = self.dir_count + 1;
        } else {
            if self.file_count == usize::MAX || size > u64::MAX - self.total_size {
                return false;
            }
            self.file_count = self.file_count + 1;
            self.total_size = self.total_size + size;
        }
        true
    }
}

/// The manifest of a scanned tree.
pub struct DirectoryInfo {
    pub path: String,
    pub total_size: u64,
    pub file_count: usize,
    pub dir_count: usize,
    pub files: Vec<FileInfo>,
}

impl DirectoryInfo {
    /// The totals agree with the entries.
    pub open spec fn wf(self) -> bool {
        &&& self.total_size == size_total(self.files@)
        &&& self.file_count == count_dirs(self.files@, false)
        &&& self.dir_count == count_dirs(self.files@, true)
    }

    /// The manifest of `files`, found under `path`; fails when the byte total
    /// does not fit in 64 bits.
    pub fn from_entries(path: String, files: Vec<FileInfo>) -> (r: Result<DirectoryInfo, SyncError>)
        ensures
            r.is_ok() == (size_total(files@) <= u64::MAX),
            r.is_ok() ==> r.unwrap().wf() && r.unwrap().files@ == files@ && r.unwrap().path@ == path@,
            r.is_err() ==> r matches Err(SyncError::Internal(_)),
    {
        let mut total: u64 = 0;
        let mut nfiles: usize = 0;
        let mut ndirs: usize = 0;
        let mut i: usize = 0;
        while i < files.len()
            invariant
                i <= files@.len(),
                total == size_total(files@.subrange(0, i as int)),
                nfiles == count_dirs(files@.subrange(0, i as int), false),
                ndirs == count_dirs(files@.subrange(0, i as int), true),
            decreases files@.len() - i,
        {
            proof {
                let s = files@.subrange(0, i + 1);
                assert(s.drop_last() =~= files@.subrange(0, i as int));
                lemma_counts_le(s);
                lemma_counts_le(files@.subrange(0, i as int));
            }
            let f = &files[i];
            if f.is_dir {
                ndirs = ndirs + 1;
            } else {
                if f.size > u64::MAX - total {
                    proof {
                        lemma_size_total_prefix_le(files@, i + 1);
                    }
                    return Err(SyncError::Internal(String::from_str("total size exceeds 64 bits")));
                }
                nfiles = nfiles + 1;
                total = total + f.size;
            }
            i += 1;
        }
        proof {
            assert(files@.subrange(0, files@.len() as int) =~= files@);
        }
        Ok(DirectoryInfo { path, total_size: total, file_count: nfiles, dir_count: ndirs, files })
    }
}

/// A prefix of a manifest has no more bytes than the whole.
proof fn lemma_size_total_prefix_le(s: Seq<FileInfo>, n: int)
    requires
        0 <= n <= s.len(),
    ensures
        size_total(s.subrange(0, n)) <= size_total(s),
    decreases s.len() - n,
{
    if n < s.len() {
        lemma_size_total_prefix_le(s, n + 1);
        let t = s.subrange(0, n + 1);
        assert(t.drop_last() =~= s.subrange(0, n));
    } else {
        assert(s.subrange(0, n) =~= s);
    }
}

/// A manifest with the walk's errors; the scan is complete when there were none.
pub struct ScanResult {
    pub info: DirectoryInfo,
    pub scan_complete: bool,
    pub scan_errors: Vec<String>,
}

impl ScanResult {
    pub fn new(info: DirectoryInfo) -> (r: ScanResult)
        ensures
            r.scan_complete,
            r.scan_errors@.len() == 0,
            r.info == info,
    {
        ScanResult { info, scan_complete: true, scan_errors: Vec::new() }
    }

    pub fn with_errors(info: DirectoryInfo, errors: Vec<String>) -> (r: ScanResult)
        ensures
            r.scan_complete == (errors@.len() == 0),
            r.scan_errors@ == errors@,
            r.info == info,
    {
        let complete = errors.len() == 0;
        ScanResult { info, scan_complete: complete, scan_errors: errors }
    }

    /// Complete: flagged complete and no error recorded.
    pub fn is_complete(&self) -> (r: bool)
        ensures
            r == (self.scan_complete && self.scan_errors@.len() == 0),
    {
        self.scan_complete && self.scan_errors.len() == 0
    }
}

/// Totals of a tree without its file list.
pub struct DirectorySummary {
    pub path: String,
    pub total_size: u64,
    pub file_count: usize,
    pub dir_count: usize,
    pub scan_id: String,
}

/// One batch of a streamed scan; the last batch is empty and final.
pub struct FileChunk {
    pub scan_id: String,
    pub files: Vec<FileInfo>,
    pub chunk_index: usize,
    pub is_final: bool,
}

/// Entries per streamed batch.
pub const SCAN_CHUNK_SIZE: usize = 1000;

/// Entries of a streamed scan gathered into batches.
pub struct ChunkBuffer {
    pub scan_id: String,
    pub files: Vec<FileInfo>,
    pub chunk_size: usize,
    pub next_index: usize,
}

impl ChunkBuffer {
    pub fn new(scan_id: String, chunk_size: usize) -> (r: ChunkBuffer)
        ensures
            r.scan_id@ == scan_id@,
            r.files@.len() == 0,
            r.chunk_size == chunk_size,
            r.next_index == 0,
    {
        ChunkBuffer { scan_id, files: Vec::new(), chunk_size, next_index: 0 }
    }

    /// Adds an entry; once the batch holds `chunk_size` entries it is handed
    /// out, numbered, and a new batch starts.
    pub fn push(&mut self, f: FileInfo) -> (r: Option<FileChunk>)
        requires
            old(self).next_index < usize::MAX,
        ensures
            final(self).scan_id@ == old(self).scan_id@,
            final(self).chunk_size == old(self).chunk_size,
            old(self).files@.len() + 1 >= old(self).chunk_size ==> {
                &&& r.is_some()
                &&& r.unwrap().files@ == old(self).files@.push(f)
                &&& r.unwrap().chunk_index == old(self).next_index
                &&& !r.unwrap().is_final
                &&& r.unwrap().scan_id@ == old(self).scan_id@
                &&& final(self).files@.len() == 0
                &&& final(self).next_index == old(self).next_index + 1
            },
            old(self).files@.len() + 1 < old(self).chunk_size ==> {
                &&& r.is_none()
                &&& final(self).files@ == old(self).files@.push(f)
                &&& final(self).next_index == old(self).next_index
            },
    {
        self.files.push(f);
        if self.files.len() >= self.chunk_size {
            let mut full: Vec<FileInfo> = Vec::new();
            std::mem::swap(&mut self.files, &mut full);
            let chunk = FileChunk { scan_id: self.scan_id.clone(), files: full, chunk_index: self.next_index, is_final: false };
            self.next_index = self.next_index + 1;
            Some(chunk)
        } else {
            None
        }
    }

    /// The last batches: what is left (if anything), then an empty final one.
    pub fn finish(self) -> (r: Vec<FileChunk>)
        requires
            self.next_index < usize::MAX,
        ensures
            self.files@.len() == 0 ==> r@.len() == 1 && r@[0].is_final && r@[0].files@.len() == 0 && r@[0].chunk_index
                == self.next_index,
            self.files@.len() > 0 ==> r@.len() == 2 && !r@[0].is_final && r@[0].files@ == self.files@
                && r@[0].chunk_index == self.next_index && r@[1].is_final && r@[1].files@.len() == 0
                && r@[1].chunk_index == self.next_index + 1,
    {
        let mut out: Vec<FileChunk> = Vec::new();
        let mut index = self.next_index;
        let ghost rest = self.files@;
        if self.files.len() > 0 {
            out.push(FileChunk { scan_id: self.scan_id.clone(), files: self.files, chunk_index: index, is_final: false });
            index = index + 1;
        }
        out.push(FileChunk { scan_id: self.scan_id, files: Vec::new(), chunk_index: index, is_final: true });
        out
    }
}

} // verus!
