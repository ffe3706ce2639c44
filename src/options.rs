//! Options of a sync run and the per-file decision they drive.

use vstd::prelude::*;
use crate::delta::{DeltaInfo, DeltaStatus};

verus! {

#[derive(Debug, Clone, Copy, PartialEq, Eq, Structural)]
pub enum SyncMode {
    Copy,
    Move,
}

#[derive(Debug, Clone, Copy, PartialEq, Eq, Structural)]
pub enum ConflictResolution {
    Overwrite,
    Skip,
    Rename,
    Ask,
}

/// A decision delivered by the user for a conflict.
#[derive(Debug, Clone, Copy, PartialEq, Eq, Structural)]
pub enum FrontendConflictResolution {
    KeepSource,
    KeepDest,
    KeepBoth,
    Skip,
}

/// The action recorded for a resolved conflict.
#[derive(Debug, Clone, Copy, PartialEq, Eq, Structural)]
pub enum ConflictResolutionAction {
    KeepSource,
    KeepDest,
    KeepBoth,
    Skip,
}

pub open spec fn action_of(r: FrontendConflictResolution) -> ConflictResolutionAction {
    match r {
        FrontendConflictResolution::KeepSource => ConflictResolutionAction::KeepSource,
        FrontendConflictResolution::KeepDest => ConflictResolutionAction::KeepDest,
        FrontendConflictResolution::KeepBoth => ConflictResolutionAction::KeepBoth,
        FrontendConflictResolution::Skip => ConflictResolutionAction::Skip,
    }
}

/// Maps a user decision onto the recorded action, variant for variant.
pub fn resolution_action(r: FrontendConflictResolution) -> (a: ConflictResolutionAction)
    ensures
        a == action_of(r),
{
    match r {
        FrontendConflictResolution::KeepSource => ConflictResolutionAction::KeepSource,
        FrontendConflictResolution::KeepDest => ConflictResolutionAction::KeepDest,
        FrontendConflictResolution::KeepBoth => ConflictResolutionAction::KeepBoth,
        FrontendConflictResolution::Skip => ConflictResolutionAction::Skip,
    }
}

/// A conflict decision with the time (milliseconds since the epoch) it was taken.
#[derive(Debug, Clone)]
pub struct ResolvedConflict {
    pub conflict_id: String,
    pub resolution: ConflictResolutionAction,
    pub resolved_at_ms: u64,
}

#[derive(Debug, Clone)]
pub struct SyncOptions {
    pub source: String,
    pub destination: String,
    pub mode: SyncMode,
    pub conflict_resolution: ConflictResolution,
    pub verify_integrity: bool,
    pub preserve_metadata: bool,
    pub delete_orphans: bool,
    pub buffer_size: Option<usize>,
    pub dry_run: bool,
    pub follow_symlinks: bool,
    /// Files copied in parallel; clamped to `[1, 8]` when used.
    pub max_concurrent_files: usize,
    /// Overwrite when the source is strictly newer or the sizes differ.
    pub overwrite_newer: bool,
    /// Overwrite when the source is strictly older.
    pub overwrite_older: bool,
    /// Never overwrite a file that already exists at the destination.
    pub skip_existing: bool,
    pub exclude_patterns: Vec<String>,
    /// Bytes per second for each copy; 0 disables throttling.
    pub bandwidth_limit: u64,
}

pub const DEFAULT_MAX_CONCURRENT_FILES: usize = 4;

pub const MAX_CONCURRENT_FILES: usize = 8;

/// Parallelism used when the caller does not choose one.
pub fn default_max_concurrent_files() -> (r: usize)
    ensures
        r == 4,
{
    DEFAULT_MAX_CONCURRENT_FILES
}

impl SyncOptions {
    /// Copy mode with the `Overwrite` conflict policy: metadata preserved,
    /// every other flag off, no exclusions, no throttle, default parallelism.
    pub fn new(source: String, destination: String) -> (r: SyncOptions)
        ensures
            r.source@ == source@,
            r.destination@ == destination@,
            r.is_default_policy(),
            r.mode == SyncMode::Copy,
            !r.verify_integrity,
            r.preserve_metadata,
            !r.delete_orphans,
            r.buffer_size.is_none(),
            !r.dry_run,
            !r.follow_symlinks,
            r.max_concurrent_files == 4,
            r.exclude_patterns@.len() == 0,
            r.bandwidth_limit == 0,
    {
        SyncOptions {
            source,
            destination,
            mode: SyncMode::Copy,
            conflict_resolution: ConflictResolution::Overwrite,
            verify_integrity: false,
            preserve_metadata: true,
            delete_orphans: false,
            buffer_size: None,
            dry_run: false,
            follow_symlinks: false,
            max_concurrent_files: DEFAULT_MAX_CONCURRENT_FILES,
            overwrite_newer: false,
            overwrite_older: false,
            skip_existing: false,
            exclude_patterns: Vec::new(),
            bandwidth_limit: 0,
        }
    }

    /// The default conflict policy: overwrite, with none of the mtime flags.
    pub open spec fn is_default_policy(self) -> bool {
        &&& self.conflict_resolution == ConflictResolution::Overwrite
        &&& !self.overwrite_newer
        &&& !self.overwrite_older
        &&& !self.skip_existing
    }
}

pub open spec fn clamp_spec(n: usize) -> usize {
    if n < 1 { 1 } else if n > 8 { 8 } else { n }
}

/// Number of copy workers actually used: `max_concurrent_files` clamped to `[1, 8]`.
pub fn effective_concurrency(options: &SyncOptions) -> (r: usize)
    ensures
        r == clamp_spec(options.max_concurrent_files),
        1 <= r <= 8,
{
    if options.max_concurrent_files < 1 {
        1
    } else if options.max_concurrent_files > MAX_CONCURRENT_FILES {
        MAX_CONCURRENT_FILES
    } else {
        options.max_concurrent_files
    }
}

/// What happens to one regular file of the source.
#[derive(Debug, Clone, Copy, PartialEq, Eq, Structural)]
pub enum FileAction {
    /// Leave the destination as it is.
    Skip,
    /// Copy over the destination path.
    Copy,
    /// Copy next to the destination under a generated conflict name.
    CopyRenamed,
}

/// Whether a `Modified` file is overwritten under `options`.
pub open spec fn overwrites(d: DeltaInfo, o: SyncOptions) -> bool {
    if o.overwrite_newer && o.overwrite_older {
        true
    } else if o.overwrite_newer {
        d.source_newer || d.size_differs
    } else if o.overwrite_older {
        d.source_older
    } else {
        match o.conflict_resolution {
            ConflictResolution::Skip | ConflictResolution::Ask => false,
            ConflictResolution::Overwrite | ConflictResolution::Rename => true,
        }
    }
}

/// The per-file decision algorithm.
pub open spec fn action_spec(d: DeltaInfo, o: SyncOptions) -> FileAction {
    match d.status {
        DeltaStatus::Unchanged | DeltaStatus::Orphan => FileAction::Skip,
        DeltaStatus::New => FileAction::Copy,
        DeltaStatus::Modified => {
            if o.skip_existing || !overwrites(d, o) {
                FileAction::Skip
            } else if o.conflict_resolution == ConflictResolution::Rename && !o.overwrite_newer
                && !o.overwrite_older {
                FileAction::CopyRenamed
            } else {
                FileAction::Copy
            }
        },
    }
}

/// Decides what to do with one regular file given its delta.
pub fn decide_file_action(delta: &DeltaInfo, options: &SyncOptions) -> (r: FileAction)
    ensures
        r == action_spec(*delta, *options),
{
    match delta.status {
        DeltaStatus::Unchanged | DeltaStatus::Orphan => FileAction::Skip,
        DeltaStatus::New => FileAction::Copy,
        DeltaStatus::Modified => {
            if options.skip_existing {
                return FileAction::Skip;
            }
            let overwrite = if options.overwrite_newer && options.overwrite_older {
                true
            } else if options.overwrite_newer {
                delta.source_newer || delta.size_differs
            } else if options.overwrite_older {
                delta.source_older
            } else {
                match options.conflict_resolution {
                    ConflictResolution::Skip | ConflictResolution::Ask => false,
                    ConflictResolution::Overwrite | ConflictResolution::Rename => true,
                }
            };
            if !overwrite {
                FileAction::Skip
            } else if options.conflict_resolution == ConflictResolution::Rename
                && !options.overwrite_newer && !options.overwrite_older {
                FileAction::CopyRenamed
            } else {
                FileAction::Copy
            }
        },
    }
}

} // verus!
