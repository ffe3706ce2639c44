//! The copy engine's decisions: options, where bytes are written, the free
//! space pre-check, the integrity verdict and the bandwidth throttle.

use vstd::prelude::*;
use vstd::string::*;
use crate::delta::Timestamp;
use crate::error::SyncError;
use crate::options::SyncOptions;
use crate::paths::{file_name_of, get_temp_path, name_or_default, with_file_name_of};

verus! {

/// Copy buffer: 8 MiB.
pub const COPY_BUFFER_SIZE: usize = 8 * 1024 * 1024;

/// Hash buffer: 1 MiB.
pub const HASH_BUFFER_SIZE: usize = 1024 * 1024;

/// Length of one throttle window in microseconds (100 ms).
pub const THROTTLE_WINDOW_MICROS: u64 = 100_000;

/// Shorter sleeps than this (1 ms) are skipped.
pub const MIN_SLEEP_MICROS: u64 = 1000;

pub const BANDWIDTH_UNLIMITED: u64 = 0;

/// Room kept free beside the copied bytes.
pub const SPACE_MARGIN: u64 = 4096;

#[derive(Debug, Clone)]
pub struct CopyOptions {
    pub buffer_size: usize,
    pub preserve_metadata: bool,
    pub verify_integrity: bool,
    /// Offset a resumed copy starts at; 0 for a fresh, atomic copy.
    pub resume_offset: u64,
    /// Bytes per second; 0 disables throttling.
    pub bandwidth_limit: u64,
    /// Hash of the source taken before the copy.
    pub pre_copy_source_hash: Option<u64>,
    /// Modification time of the source taken before the copy.
    pub source_mtime_before_copy: Option<Timestamp>,
}

impl CopyOptions {
    /// 8 MiB buffer, metadata preserved, no verification, fresh copy, no throttle.
    pub fn new() -> (r: CopyOptions)
        ensures
            r.buffer_size == 8 * 1024 * 1024,
            r.preserve_metadata,
            !r.verify_integrity,
            r.resume_offset == 0,
            r.bandwidth_limit == 0,
            r.pre_copy_source_hash.is_none(),
            r.source_mtime_before_copy.is_none(),
    {
        CopyOptions {
            buffer_size: COPY_BUFFER_SIZE,
            preserve_metadata: true,
            verify_integrity: false,
            resume_offset: 0,
            bandwidth_limit: BANDWIDTH_UNLIMITED,
            pre_copy_source_hash: None,
            source_mtime_before_copy: None,
        }
    }

    /// The options a sync run hands the copy engine for one file. The
    /// pre-copy hash and time are kept only for a verified fresh copy.
    pub fn for_sync(
        options: &SyncOptions,
        resume_offset: u64,
        pre_copy_source_hash: Option<u64>,
        source_mtime_before_copy: Option<Timestamp>,
    ) -> (r: CopyOptions)
        ensures
            r.buffer_size == match options.buffer_size {
                Some(b) => b as int,
                None => 8388608int,
            },
            r.preserve_metadata == options.preserve_metadata,
            r.verify_integrity == options.verify_integrity,
            r.resume_offset == resume_offset,
            r.bandwidth_limit == options.bandwidth_limit,
            r.pre_copy_source_hash == if options.verify_integrity && resume_offset == 0 {
                pre_copy_source_hash
            } else {
                None
            },
            r.source_mtime_before_copy == if options.verify_integrity && resume_offset == 0 {
                source_mtime_before_copy
            } else {
                None
            },
    {
        let fresh_verified = options.verify_integrity && resume_offset == 0;
        CopyOptions {
            buffer_size: match options.buffer_size {
                Some(b) => b,
                None => COPY_BUFFER_SIZE,
            },
            preserve_metadata: options.preserve_metadata,
            verify_integrity: options.verify_integrity,
            resume_offset,
            bandwidth_limit: options.bandwidth_limit,
            pre_copy_source_hash: if fresh_verified { pre_copy_source_hash } else { None },
            source_mtime_before_copy: if fresh_verified { source_mtime_before_copy } else { None },
        }
    }
}

/// Where the copy engine writes the bytes for `dest`.
pub struct WriteTarget {
    pub path: String,
    /// Published by renaming over `dest` once complete and checked.
    pub atomic: bool,
}

/// A fresh copy (`resume_offset == 0`) writes the staging file beside `dest`,
/// never `dest` itself (for a name free of `\\`, which std would split on
/// Windows); a resumed copy continues in `dest`.
pub fn write_target(dest: &str, resume_offset: u64) -> (r: WriteTarget)
    ensures
        r.atomic == (resume_offset == 0),
        r.atomic ==> r.path@ == with_file_name_of(dest@, name_or_default(dest@) + ".rsync-tmp"@),
        r.atomic && !name_or_default(dest@).contains('\\') ==> file_name_of(r.path@) == Some(
            name_or_default(dest@) + ".rsync-tmp"@,
        ) && r.path@ != dest@,
        !r.atomic ==> r.path@ == dest@,
{
    if resume_offset == 0 {
        WriteTarget { path: get_temp_path(dest), atomic: true }
    } else {
        WriteTarget { path: String::from_str(dest), atomic: false }
    }
}

pub open spec fn space_ok(file_size: u64, available: Option<u64>) -> bool {
    match available {
        Some(a) => a >= file_size + 4096,
        None => true,
    }
}

/// The free-space pre-check of a fresh copy: the file plus a 4 KiB margin
/// must fit. An unreadable free-space figure does not stop the copy.
pub fn check_disk_space(dest: &str, file_size: u64, available: Option<u64>) -> (r: Result<(), SyncError>)
    requires
        file_size <= u64::MAX - 4096,
    ensures
        r.is_ok() == space_ok(file_size, available),
        r.is_err() ==> (r matches Err(SyncError::DiskFull { path: p, required_bytes: q, available_bytes: a })
            && p@ == dest@ && q == file_size + 4096 && a == available.unwrap()),
{
    match available {
        Some(a) => {
            let required = file_size + SPACE_MARGIN;
            if a < required {
                Err(SyncError::DiskFull { path: String::from_str(dest), required_bytes: required, available_bytes: a })
            } else {
                Ok(())
            }
        },
        None => Ok(()),
    }
}

/// The end-to-end check after a copy: the source must still carry the
/// modification time seen before the copy, and the copy must hash like the
/// source did.
pub open spec fn integrity_ok(expected_mtime: Option<Timestamp>, actual_mtime: Timestamp, source_hash: u64, dest_hash: u64) -> bool {
    (expected_mtime.is_none() || expected_mtime == Some(actual_mtime)) && source_hash == dest_hash
}

pub fn verify_copy(
    source: &str,
    dest: &str,
    expected_mtime: Option<Timestamp>,
    actual_mtime: Timestamp,
    source_hash: u64,
    dest_hash: u64,
) -> (r: Result<(), SyncError>)
    ensures
        r.is_ok() == integrity_ok(expected_mtime, actual_mtime, source_hash, dest_hash),
        expected_mtime.is_some() && expected_mtime != Some(actual_mtime) ==> (r matches Err(
            SyncError::SourceModifiedDuringCopy { path: p, expected_mtime: e, actual_mtime: a },
        ) && p@ == source@ && Some(e) == expected_mtime && a == actual_mtime),
        (expected_mtime.is_none() || expected_mtime == Some(actual_mtime)) && source_hash != dest_hash ==> (r matches Err(
            SyncError::HashMismatch(p),
        ) && p@ == dest@),
{
    match expected_mtime {
        Some(e) => {
            if e != actual_mtime {
                return Err(SyncError::SourceModifiedDuringCopy {
                    path: String::from_str(source),
                    expected_mtime: e,
                    actual_mtime,
                });
            }
        },
        None => {},
    }
    if source_hash != dest_hash {
        return Err(SyncError::HashMismatch(String::from_str(dest)));
    }
    Ok(())
}

/// Integrity detection: a source whose time or content changed between the
/// pre-copy capture and the check never passes.
pub proof fn lemma_mutation_detected(
    expected_mtime: Timestamp,
    actual_mtime: Timestamp,
    source_hash: u64,
    dest_hash: u64,
)
    requires
        expected_mtime != actual_mtime || source_hash != dest_hash,
    ensures
        !integrity_ok(Some(expected_mtime), actual_mtime, source_hash, dest_hash),
{
}

/// Per-copy bandwidth throttle over 100 ms windows.
#[derive(Debug, Clone, Copy, PartialEq, Eq, Structural)]
pub struct Throttle {
    /// Bytes per second; 0 disables the throttle.
    pub limit: u64,
    /// Bytes written in the current window.
    pub window_bytes: u64,
}

/// Bytes one window admits: a tenth of the per-second limit.
pub open spec fn window_quota(limit: u64) -> int {
    limit as int / 10
}

/// Sleep owed when the window's quota is met after `elapsed` microseconds:
/// the rest of the 100 ms window, unless that is under 1 ms.
pub open spec fn sleep_spec(elapsed_micros: u64) -> int {
    if elapsed_micros < 100_000 && 100_000 - elapsed_micros >= 1000 {
        100_000 - elapsed_micros
    } else {
        0
    }
}

impl Throttle {
    pub fn new(limit: u64) -> (r: Throttle)
        ensures
            r.limit == limit,
            r.window_bytes == 0,
    {
        Throttle { limit, window_bytes: 0 }
    }

    /// Accounts `n` bytes written `elapsed_micros` after the window opened and
    /// returns how long to sleep; a return of `Some` closes the window (the
    /// caller opens the next one after sleeping), `None` keeps it open.
    pub fn after_chunk(&mut self, n: u64, elapsed_micros: u64) -> (r: Option<u64>)
        ensures
            final(self).limit == old(self).limit,
            old(self).limit == 0 ==> r.is_none() && *final(self) == *old(self),
            old(self).limit > 0 ==> {
                let total = if old(self).window_bytes + n > u64::MAX { u64::MAX as int } else { old(self).window_bytes + n };
                if total >= window_quota(old(self).limit) {
                    r == Some(sleep_spec(elapsed_micros) as u64) && final(self).window_bytes == 0
                } else {
                    r.is_none() && final(self).window_bytes == total
                }
            },
    {
        if self.limit == BANDWIDTH_UNLIMITED {
            return None;
        }
        let total = self.window_bytes.saturating_add(n);
        let quota = self.limit / 10;
        if total >= quota {
            self.window_bytes = 0;
            let sleep = if elapsed_micros < THROTTLE_WINDOW_MICROS {
                THROTTLE_WINDOW_MICROS - elapsed_micros
            } else {
                0
            };
            if sleep >= MIN_SLEEP_MICROS {
                Some(sleep)
            } else {
                Some(0)
            }
        } else {
            self.window_bytes = total;
            None
        }
    }
}

/// Bandwidth bound of one window: a window closes as soon as its bytes reach
/// the quota (a tenth of the limit), so it holds less than the quota plus the
/// last chunk; and it lasts, sleep included, at least 99 ms.
pub proof fn lemma_window_bound(before: u64, n: u64, limit: u64, elapsed_micros: u64)
    requires
        limit > 0,
        before < window_quota(limit),
    ensures
        before + n < window_quota(limit) + n,
        before + n >= window_quota(limit) ==> elapsed_micros + sleep_spec(elapsed_micros) >= 99_000,
{
}

} // verus!
