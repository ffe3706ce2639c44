use rsync_core::error::{ErrnoTable, IoErrorKind, IoFailure, SyncError};
use rsync_core::volume::{
    diff_volumes, find_volume_for_path, validate_volumes_for_sync, volume_accessible, PathProbe,
    TransferVolumeMap, VolumeInfo, VolumeWatcherConfig,
};

fn volume(mount: &str, name: &str) -> VolumeInfo {
    VolumeInfo {
        mount_point: mount.to_string(),
        name: name.to_string(),
        total_bytes: 1000,
        available_bytes: 500,
        is_removable: true,
        fs_type: Some("apfs".to_string()),
        is_mounted: true,
    }
}

#[test]
fn test_transfer_volume_map() {
    let mut map = TransferVolumeMap::new();
    let volumes = vec![VolumeInfo {
        mount_point: "/Volumes/External".to_string(),
        name: "External".to_string(),
        total_bytes: 1000,
        available_bytes: 500,
        is_removable: true,
        fs_type: Some("apfs".to_string()),
        is_mounted: true,
    }];

    map.register_transfer("transfer-1", &["/Volumes/External/source".to_string()], &volumes);

    let affected = map.get_affected_transfers("/Volumes/External");
    assert_eq!(affected, vec!["transfer-1"]);

    map.unregister_transfer("transfer-1");
    let affected = map.get_affected_transfers("/Volumes/External");
    assert!(affected.is_empty());
}

#[test]
fn longest_mount_point_wins() {
    let vols = vec![volume("/", "root"), volume("/Volumes/Ext", "Ext"), volume("/Volumes", "all")];
    assert_eq!(find_volume_for_path("/Volumes/Ext/data/a.txt", &vols), Some(1));
    assert_eq!(find_volume_for_path("/Users/me", &vols), Some(0));
    assert_eq!(find_volume_for_path("/Volumes/ExtX/a", &vols), Some(2));
    assert_eq!(find_volume_for_path("relative", &vols), None);
}

#[test]
fn reregistering_replaces_volumes() {
    let vols = vec![volume("/Volumes/A", "A"), volume("/Volumes/B", "B")];
    let mut map = TransferVolumeMap::new();
    map.register_transfer("t", &["/Volumes/A/x".to_string()], &vols);
    map.register_transfer("u", &["/Volumes/A/y".to_string(), "/Volumes/B/z".to_string()], &vols);
    assert_eq!(map.get_affected_transfers("/Volumes/A"), vec!["t", "u"]);
    map.register_transfer("t", &["/Volumes/B/x".to_string()], &vols);
    assert_eq!(map.get_affected_transfers("/Volumes/A"), vec!["u"]);
    assert_eq!(map.get_affected_transfers("/Volumes/B"), vec!["u", "t"]);
}

#[test]
fn poll_diff_reports_mounts_and_removals() {
    let known = vec![volume("/", "root"), volume("/Volumes/Old", "Old")];
    let current = vec![volume("/", "root"), volume("/Volumes/New", "New")];
    let d = diff_volumes(&known, &current);
    assert_eq!(d.mounted, vec![1]);
    assert_eq!(d.removed, vec![1]);
}

fn table() -> ErrnoTable {
    ErrnoTable { no_space: 28, busy: 16, io: 5, no_device: 19, name_too_long: 36, symlink_loop: 40, quota: 122 }
}

#[test]
fn permission_denied_probe_is_no_disconnect() {
    let denied = Some(IoFailure { kind: IoErrorKind::PermissionDenied, raw_os_error: Some(13), message: String::new() });
    assert!(volume_accessible(&denied, &table()));
    let eio = Some(IoFailure { kind: IoErrorKind::Other, raw_os_error: Some(5), message: String::new() });
    assert!(!volume_accessible(&eio, &table()));
    let enodev = Some(IoFailure { kind: IoErrorKind::Other, raw_os_error: Some(19), message: String::new() });
    assert!(!volume_accessible(&enodev, &table()));
    assert!(volume_accessible(&None, &table()));
}

fn probe(exists: bool, removable: bool) -> PathProbe {
    PathProbe { exists, removable, device_name: if removable { Some("Ext".to_string()) } else { None } }
}

#[test]
fn sync_volume_validation() {
    assert!(validate_volumes_for_sync("/s", probe(true, false), "/d", probe(true, false)).is_ok());
    match validate_volumes_for_sync("/Volumes/Ext/s", probe(false, true), "/d", probe(true, false)) {
        Err(SyncError::DriveDisconnected { path, device_name }) => {
            assert_eq!(path, "/Volumes/Ext/s");
            assert_eq!(device_name, Some("Ext".to_string()));
        }
        _ => panic!("expected a disconnected drive"),
    }
    assert!(matches!(
        validate_volumes_for_sync("/s", probe(false, false), "/d", probe(true, false)),
        Err(SyncError::SourceNotFound(p)) if p == "/s"
    ));
    assert!(matches!(
        validate_volumes_for_sync("/s", probe(true, false), "/d", probe(false, false)),
        Err(SyncError::DestinationNotWritable(p)) if p == "/d"
    ));
    assert!(matches!(
        validate_volumes_for_sync("/s", probe(true, false), "/Volumes/Ext/d", probe(false, true)),
        Err(SyncError::DriveDisconnected { .. })
    ));
}

#[test]
fn watcher_defaults() {
    let c = VolumeWatcherConfig::new(vec!["/Volumes".to_string()]);
    assert_eq!(c.poll_interval_ms, 2000);
    assert_eq!(c.debounce_ms, 500);
    assert!(!c.include_system_volumes);
}
