use rsync_core::delta::{FileInfo, Timestamp};
use rsync_core::scan::ChunkBuffer;
use rsync_core::drive_info::{drive_kind, is_network_mount, maker_in_diskutil, maker_in_profile, parse_diskutil_info, DriveType};
use rsync_core::security::{check_full_disk_access, validate_path};
use rsync_core::error::SyncError;
use rsync_core::text::{contains, decimal, ends_with, find, starts_with, str_eq};
use rsync_core::tray::{PowerAssertion, TrayStatus};

#[test]
fn diskutil_facts() {
    let info = "   Device / Media Name:      Samsung Portable SSD T7\n   Protocol:                 USB\n   Removable Media:          Removable\n";
    let f = parse_diskutil_info(info);
    assert!(f.is_external);
    assert!(f.is_removable);
    assert_eq!(f.model, Some("Samsung Portable SSD T7".to_string()));
    assert_eq!(f.drive_type, DriveType::Ssd);
    assert_eq!(f.drive_type.label(), "SSD");
    let g = parse_diskutil_info("Solid State: No\nDevice Location: Internal\nRemovable Media: Fixed\n");
    assert_eq!(g.drive_type, DriveType::Hdd);
    assert!(!g.is_external);
    let h = parse_diskutil_info("Media Type: Rotational\n");
    assert_eq!(h.drive_type, DriveType::Hdd);
}

#[test]
fn drive_makers() {
    assert_eq!(maker_in_diskutil("Device / Media Name: seagate expansion\n"), Some("Seagate"));
    assert_eq!(maker_in_diskutil("Device / Media Name: western digital passport\n"), Some("WD"));
    assert_eq!(maker_in_diskutil("nothing here\n"), None);
    assert_eq!(maker_in_profile("Vendor: OWC and LaCie"), Some("LaCie"));
    assert_eq!(maker_in_profile("vendor: lacie"), None);
}

#[test]
fn network_mounts() {
    let mounts = "/dev/disk1 on / (apfs)\n//u@srv/share on /Volumes/share (smbfs, nodev)\n";
    assert!(is_network_mount(mounts, "/Volumes/share"));
    assert!(!is_network_mount(mounts, "/Volumes/other"));
}

#[test]
fn path_validation() {
    assert_eq!(validate_path("/Users/me/docs".to_string()).ok(), Some("/Users/me/docs".to_string()));
    assert!(matches!(validate_path("/System/Library".to_string()), Err(SyncError::PermissionDenied(m)) if m.contains("'/System'")));
    assert!(matches!(validate_path("/usrdata".to_string()), Err(SyncError::PermissionDenied(_))));
    assert!(matches!(validate_path("/home/../x".to_string()), Err(SyncError::PermissionDenied(m)) if m.contains("..")));
    assert!(check_full_disk_access());
}

#[test]
fn tray_tooltips() {
    assert_eq!(TrayStatus::Idle.tooltip(), "RSync - Idle");
    assert_eq!(TrayStatus::Syncing.tooltip(), "RSync - Syncing...");
    assert_eq!(TrayStatus::Paused.tooltip(), "RSync - Paused");
    assert_eq!(TrayStatus::Error.tooltip(), "RSync - Error");
}

#[test]
fn power_assertion_bookkeeping() {
    let mut p = PowerAssertion::new();
    assert!(!p.is_preventing_sleep());
    assert!(p.record_created(Some(42)));
    assert!(p.is_preventing_sleep());
    assert_eq!(p.take(), Some(42));
    assert!(!p.is_preventing_sleep());
    assert_eq!(p.take(), None);
    assert!(!p.record_created(None));
}

#[test]
fn text_helpers() {
    assert!(str_eq("abc", "abc") && !str_eq("abc", "abd"));
    assert!(starts_with("abc", "ab") && !starts_with("ab", "abc"));
    assert!(ends_with("abc", "bc"));
    assert_eq!(find("xx.app/y.app/", ".app/"), Some(2));
    assert!(contains("héllo", "él"));
    assert_eq!(decimal(0), "0");
    assert_eq!(decimal(1_048_679), "1048679");
}

#[test]
fn network_mount_overrides_drive_kind() {
    let f = parse_diskutil_info("Solid State: Yes\n");
    let mounts = "//u@srv/share on /Volumes/share (smbfs, nodev)\n";
    assert_eq!(drive_kind(&f, "/Volumes/share", Some(mounts)), (DriveType::Network, true));
    assert_eq!(drive_kind(&f, "/Volumes/share", None), (DriveType::Ssd, false));
    assert_eq!(drive_kind(&f, "/mnt/share", Some(mounts)), (DriveType::Ssd, false));
}

#[test]
fn streamed_scan_batches() {
    let entry = |p: &str| FileInfo { path: p.to_string(), size: 1, modified: Timestamp { secs: 0, nanos: 0 }, is_dir: false, is_symlink: false };
    let mut b = ChunkBuffer::new("s".to_string(), 2);
    assert!(b.push(entry("a")).is_none());
    let c = b.push(entry("b")).unwrap();
    assert_eq!((c.chunk_index, c.files.len(), c.is_final), (0, 2, false));
    assert!(b.push(entry("c")).is_none());
    let rest = b.finish();
    assert_eq!(rest.len(), 2);
    assert_eq!((rest[0].chunk_index, rest[0].files.len(), rest[0].is_final), (1, 1, false));
    assert_eq!((rest[1].chunk_index, rest[1].files.len(), rest[1].is_final), (2, 0, true));
}
