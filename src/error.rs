//! The error taxonomy of the engine and the classification of OS errors into it.

use vstd::prelude::*;
use crate::delta::Timestamp;
use crate::paths::{components, path_parts, PathPart, PartView, parts_view};

verus! {

/// The kinds of I/O failure the engine tells apart.
#[derive(Debug, Clone, Copy, PartialEq, Eq, Structural)]
pub enum IoErrorKind {
    NotFound,
    PermissionDenied,
    AlreadyExists,
    InvalidInput,
    InvalidData,
    TimedOut,
    Interrupted,
    UnexpectedEof,
    Unsupported,
    OutOfMemory,
    Other,
}

/// An I/O failure as the OS reported it.
#[derive(Debug, Clone)]
pub struct IoFailure {
    pub kind: IoErrorKind,
    pub raw_os_error: Option<i32>,
    pub message: String,
}

#[derive(Debug, Clone)]
pub enum SyncError {
    Io(IoFailure),
    Serialization(String),
    TransferNotFound(String),
    TransferAlreadyExists(String),
    TransferCancelled(String),
    TransferPaused(String),
    SourceNotFound(String),
    DestinationNotWritable(String),
    PermissionDenied(String),
    HashMismatch(String),
    InvalidPath(String),
    Conflict(String),
    Timeout(String),
    Internal(String),
    IncompleteScan(String),
    DiskFull { path: String, required_bytes: u64, available_bytes: u64 },
    DriveDisconnected { path: String, device_name: Option<String> },
    FileLocked { path: String, retry_after_ms: u64 },
    FileModifiedDuringTransfer { path: String, expected_mtime: u64, actual_mtime: u64 },
    SourceModifiedDuringCopy { path: String, expected_mtime: Timestamp, actual_mtime: Timestamp },
    NetworkTimeout { path: String, timeout_secs: u64 },
    QuotaExceeded { path: String },
    PathTooLong { path: String, max_length: usize },
    SymlinkLoop { path: String },
    CorruptedState { path: String },
    IntegrityCheckFailed { path: String, reason: String },
    PartialFile { path: String, expected_size: u64, actual_size: u64 },
    TransferInterrupted { transfer_id: String, can_resume: bool, last_file: Option<String> },
}

/// The platform's numbers for the OS errors the classifier recognises.
#[derive(Debug, Clone, Copy, PartialEq, Eq, Structural)]
pub struct ErrnoTable {
    pub no_space: i32,
    pub busy: i32,
    pub io: i32,
    pub no_device: i32,
    pub name_too_long: i32,
    pub symlink_loop: i32,
    pub quota: i32,
}

/// Relies on the errno constants of `libc` for the target platform.
#[verifier::external_body]
pub(crate) fn platform_errno_table() -> (r: ErrnoTable) {
    ErrnoTable {
        no_space: libc::ENOSPC,
        busy: libc::EBUSY,
        io: libc::EIO,
        no_device: libc::ENODEV,
        name_too_long: libc::ENAMETOOLONG,
        symlink_loop: libc::ELOOP,
        quota: libc::EDQUOT,
    }
}

/// The name of the device of a path under the external mount root: its third component.
pub open spec fn device_name_of(p: Seq<char>) -> Option<Seq<char>> {
    let parts = path_parts(p);
    if parts.len() > 2 {
        Some(part_text(parts[2]))
    } else {
        None
    }
}

/// A component as text, the root being `/`.
pub open spec fn part_text(c: PartView) -> Seq<char> {
    match c {
        PartView::Prefix(s) => s,
        PartView::Root => "/"@,
        PartView::CurDir => "."@,
        PartView::ParentDir => ".."@,
        PartView::Normal(s) => s,
    }
}

fn part_to_text(c: &PathPart) -> (r: String)
    ensures
        r@ == part_text(c@),
{
    match c {
        PathPart::Prefix(s) => s.clone(),
        PathPart::Root => String::from_str("/"),
        PathPart::CurDir => String::from_str("."),
        PathPart::ParentDir => String::from_str(".."),
        PathPart::Normal(s) => s.clone(),
    }
}

/// The device name of a path: its third component, when it has one.
pub fn device_name(p: &str) -> (r: Option<String>)
    ensures
        r.is_some() == device_name_of(p@).is_some(),
        r.is_some() ==> r.unwrap()@ == device_name_of(p@).unwrap(),
{
    let parts = components(p);
    proof {
        assert(parts_view(parts@).len() == parts@.len());
    }
    if parts.len() > 2 {
        proof {
            assert(parts_view(parts@)[2] == parts@[2]@);
        }
        Some(part_to_text(&parts[2]))
    } else {
        None
    }
}

/// The classification of an OS error met at `path`, knowing whether `path`
/// lies on a removable volume and the free space of its filesystem when it
/// could be read.
pub open spec fn classified(
    error: IoFailure,
    path: Seq<char>,
    on_removable: bool,
    available: Option<u64>,
    t: ErrnoTable,
    r: SyncError,
) -> bool {
    match error.kind {
        IoErrorKind::PermissionDenied => r matches SyncError::PermissionDenied(p) && p@ == path,
        IoErrorKind::NotFound => if on_removable {
            match r {
                SyncError::DriveDisconnected { path: p, device_name: d } => p@ == path && d.is_some()
                    == device_name_of(path).is_some() && (d.is_some() ==> d.unwrap()@ == device_name_of(
                    path,
                ).unwrap()),
                _ => false,
            }
        } else {
            r matches SyncError::SourceNotFound(p) && p@ == path
        },
        _ => {
            let c = error.raw_os_error;
            if c == Some(t.no_space) && available.is_some() {
                r matches SyncError::DiskFull { path: p, required_bytes: 0, available_bytes: a } && p@ == path
                    && a == available.unwrap()
            } else if c == Some(t.busy) {
                r matches SyncError::FileLocked { path: p, retry_after_ms: 1000 } && p@ == path
            } else if c == Some(t.io) || c == Some(t.no_device) {
                r matches SyncError::DriveDisconnected { path: p, device_name: None } && p@ == path
            } else if c == Some(t.name_too_long) {
                r matches SyncError::PathTooLong { path: p, max_length: 255 } && p@ == path
            } else if c == Some(t.symlink_loop) {
                r matches SyncError::SymlinkLoop { path: p } && p@ == path
            } else if c == Some(t.quota) {
                r matches SyncError::QuotaExceeded { path: p } && p@ == path
            } else {
                r matches SyncError::Io(e) && e.kind == error.kind && e.raw_os_error == error.raw_os_error
                    && e.message@ == error.message@
            }
        },
    }
}

/// Maps an OS error met at `path` onto the error taxonomy under the errno numbers `t`.
pub fn classify_io_error_with(
    error: IoFailure,
    path: &str,
    on_removable: bool,
    available: Option<u64>,
    t: &ErrnoTable,
) -> (r: SyncError)
    ensures
        classified(error, path@, on_removable, available, *t, r),
{
    let owned = String::from_str(path);
    match error.kind {
        IoErrorKind::PermissionDenied => SyncError::PermissionDenied(owned),
        IoErrorKind::NotFound => {
            if on_removable {
                SyncError::DriveDisconnected { path: owned, device_name: device_name(path) }
            } else {
                SyncError::SourceNotFound(owned)
            }
        },
        _ => {
            match error.raw_os_error {
                Some(c) => {
                    if c == t.no_space && available.is_some() {
                        return SyncError::DiskFull {
                            path: owned,
                            required_bytes: 0,
                            available_bytes: available.unwrap(),
                        };
                    }
                    if c == t.busy {
                        return SyncError::FileLocked { path: owned, retry_after_ms: 1000 };
                    }
                    if c == t.io || c == t.no_device {
                        return SyncError::DriveDisconnected { path: owned, device_name: None };
                    }
                    if c == t.name_too_long {
                        return SyncError::PathTooLong { path: owned, max_length: 255 };
                    }
                    if c == t.symlink_loop {
                        return SyncError::SymlinkLoop { path: owned };
                    }
                    if c == t.quota {
                        return SyncError::QuotaExceeded { path: owned };
                    }
                    SyncError::Io(error)
                },
                None => SyncError::Io(error),
            }
        },
    }
}

/// Maps an OS error met at `path` onto the error taxonomy under this
/// platform's errno numbers; a missing path on a removable volume is a
/// disconnected drive.
pub fn classify_io_error(error: IoFailure, path: &str, on_removable: bool, available: Option<u64>) -> (r: SyncError)
    ensures
        exists|t: ErrnoTable| classified(error, path@, on_removable, available, t, r),
        error.kind == IoErrorKind::PermissionDenied ==> (r matches SyncError::PermissionDenied(p) && p@ == path@),
        error.kind == IoErrorKind::NotFound && !on_removable ==> (r matches SyncError::SourceNotFound(p) && p@ == path@),
        error.kind == IoErrorKind::NotFound && on_removable ==> (r matches SyncError::DriveDisconnected { path: p, device_name: d }
            && p@ == path@ && d.is_some() == device_name_of(path@).is_some()),
{
    let t = platform_errno_table();
    classify_io_error_with(error, path, on_removable, available, &t)
}

} // verus!
