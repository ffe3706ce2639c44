//! Which canonical paths a sync may touch.

use vstd::prelude::*;
use vstd::string::*;
use crate::error::SyncError;
use crate::paths::{components, parts_view, path_parts, PathPart, PartView};
use crate::text::{is_prefix, starts_with};

verus! {

/// System directories that are never synced.
pub open spec fn blocked_paths() -> Seq<Seq<char>> {
    seq![
        "/System"@,
        "/Library"@,
        "/private/var"@,
        "/private/etc"@,
        "/etc"@,
        "/var"@,
        "/usr"@,
        "/bin"@,
        "/sbin"@,
        "/dev"@,
        "/cores"@,
    ]
}

fn blocked_path(k: usize) -> (r: &'static str)
    requires
        k < 11,
    ensures
        r@ == blocked_paths()[k as int],
{
    if k == 0 {
        "/System"
    } else if k == 1 {
        "/Library"
    } else if k == 2 {
        "/private/var"
    } else if k == 3 {
        "/private/etc"
    } else if k == 4 {
        "/etc"
    } else if k == 5 {
        "/var"
    } else if k == 6 {
        "/usr"
    } else if k == 7 {
        "/bin"
    } else if k == 8 {
        "/sbin"
    } else if k == 9 {
        "/dev"
    } else {
        "/cores"
    }
}

/// The first blocked directory whose text begins `p`.
pub open spec fn first_blocked(p: Seq<char>) -> Option<int> {
    if exists|k: int| 0 <= k < 11 && is_prefix(blocked_paths()[k], p) {
        Some(choose|k: int| 0 <= k < 11 && is_prefix(blocked_paths()[k], p) && forall|j: int| 0 <= j < k ==> !is_prefix(blocked_paths()[j], p))
    } else {
        None
    }
}

pub open spec fn has_parent_dir(p: Seq<char>) -> bool {
    exists|i: int| 0 <= i < path_parts(p).len() && path_parts(p)[i] == PartView::ParentDir
}

/// Admits a canonical path unless its text begins with a blocked system
/// directory or it has a `..` component; both refusals are `PermissionDenied`.
pub fn validate_path(canonical: String) -> (r: Result<String, SyncError>)
    ensures
        r.is_ok() == (first_blocked(canonical@).is_none() && !has_parent_dir(canonical@)),
        r.is_ok() ==> r.unwrap()@ == canonical@,
        r.is_err() ==> r matches Err(SyncError::PermissionDenied(_)),
{
    let mut k: usize = 0;
    while k < 11
        invariant
            forall|j: int| 0 <= j < k ==> !is_prefix(#[trigger] blocked_paths()[j], canonical@),
        decreases 11 - k,
    {
        let b = blocked_path(k);
        if starts_with(canonical.as_str(), b) {
            let mut msg = String::from_str("Access to system directory '");
            msg.append(b);
            msg.append("' is not allowed for security reasons");
            return Err(SyncError::PermissionDenied(msg));
        }
        k += 1;
    }
    assert(first_blocked(canonical@).is_none());
    let parts = components(canonical.as_str());
    let ghost pv = parts_view(parts@);
    let mut i: usize = 0;
    while i < parts.len()
        invariant
            pv == parts_view(parts@),
            pv == path_parts(canonical@),
            pv.len() == parts@.len(),
            i <= parts@.len(),
            forall|j: int| 0 <= j < i ==> pv[j] != PartView::ParentDir,
        decreases parts@.len() - i,
    {
        proof {
            assert(pv[i as int] == parts@[i as int]@);
        }
        match &parts[i] {
            PathPart::ParentDir => {
                return Err(SyncError::PermissionDenied(String::from_str("Path traversal sequences (..) are not allowed")));
            },
            _ => {},
        }
        i += 1;
    }
    Ok(canonical)
}

/// Full-disk access as the engine sees it: no platform prompt is consulted,
/// so access is assumed.
pub fn check_full_disk_access() -> (r: bool)
    ensures
        r,
{
    true
}

} // verus!
