//! Per-file comparison of a source snapshot against the destination.

use vstd::prelude::*;

verus! {

/// A UTC modification time: whole seconds since the Unix epoch and the
/// nanoseconds within that second.
#[derive(Debug, Clone, Copy, PartialEq, Eq, Structural)]
pub struct Timestamp {
    pub secs: i64,
    pub nanos: u32,
}

impl Timestamp {
    pub open spec fn valid(self) -> bool {
        self.nanos < 1_000_000_000
    }

    /// Chronological order: earlier second, or same second and fewer nanoseconds.
    pub open spec fn before(self, other: Timestamp) -> bool {
        self.secs < other.secs || (self.secs == other.secs && self.nanos < other.nanos)
    }

    pub fn is_before(&self, other: &Timestamp) -> (r: bool)
        ensures
            r == self.before(*other),
    {
        self.secs < other.secs || (self.secs == other.secs && self.nanos < other.nanos)
    }
}

/// Snapshot of one entry captured while scanning a tree.
#[derive(Debug, Clone)]
pub struct FileInfo {
    /// Path relative to the scan root.
    pub path: String,
    pub size: u64,
    pub modified: Timestamp,
    pub is_dir: bool,
    pub is_symlink: bool,
}

/// What the destination holds at the corresponding path, if anything.
#[derive(Debug, Clone, Copy, PartialEq, Eq, Structural)]
pub struct DestMeta {
    pub size: u64,
    pub modified: Timestamp,
}

#[derive(Debug, Clone, Copy, PartialEq, Eq, Structural)]
pub enum DeltaStatus {
    New,
    Modified,
    Unchanged,
    Orphan,
}

#[derive(Debug, Clone, Copy, PartialEq, Eq, Structural)]
pub struct DeltaInfo {
    pub status: DeltaStatus,
    pub source_newer: bool,
    pub source_older: bool,
    pub size_differs: bool,
}

/// The classification table: absent destination is `New` (source counted as
/// newer); a size difference or a strictly newer source is `Modified`, with
/// the three comparisons; anything else is `Unchanged`, with all flags false.
pub open spec fn delta_of(size: u64, modified: Timestamp, dest: Option<DestMeta>) -> DeltaInfo {
    match dest {
        None => DeltaInfo {
            status: DeltaStatus::New,
            source_newer: true,
            source_older: false,
            size_differs: false,
        },
        Some(d) => {
            let newer = d.modified.before(modified);
            let older = modified.before(d.modified);
            let differs = size != d.size;
            if differs || newer {
                DeltaInfo {
                    status: DeltaStatus::Modified,
                    source_newer: newer,
                    source_older: older,
                    size_differs: differs,
                }
            } else {
                DeltaInfo {
                    status: DeltaStatus::Unchanged,
                    source_newer: false,
                    source_older: false,
                    size_differs: false,
                }
            }
        },
    }
}

/// Classifies `source` against the destination's metadata (`None` when the
/// destination file is absent).
pub fn detect_delta_detailed(source: &FileInfo, dest: Option<DestMeta>) -> (r: DeltaInfo)
    ensures
        r == delta_of(source.size, source.modified, dest),
{
    match dest {
        None => DeltaInfo {
            status: DeltaStatus::New,
            source_newer: true,
            source_older: false,
            size_differs: false,
        },
        Some(d) => {
            let newer = d.modified.is_before(&source.modified);
            let older = source.modified.is_before(&d.modified);
            let differs = source.size != d.size;
            if differs || newer {
                DeltaInfo { status: DeltaStatus::Modified, source_newer: newer, source_older: older, size_differs: differs }
            } else {
                DeltaInfo { status: DeltaStatus::Unchanged, source_newer: false, source_older: false, size_differs: false }
            }
        },
    }
}

/// The status alone of [`detect_delta_detailed`].
pub fn detect_delta(source: &FileInfo, dest: Option<DestMeta>) -> (r: DeltaStatus)
    ensures
        r == delta_of(source.size, source.modified, dest).status,
{
    detect_delta_detailed(source, dest).status
}

} // verus!
