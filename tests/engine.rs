use rsync_core::clock::LocalTime;
use rsync_core::paths::stamp_of;
use rsync_core::copy::{check_disk_space, verify_copy, write_target, CopyOptions, Throttle};
use rsync_core::delta::Timestamp;
use rsync_core::error::{classify_io_error, classify_io_error_with, device_name, ErrnoTable, IoErrorKind, IoFailure, SyncError};
use rsync_core::hash::compute_hash;
use rsync_core::options::SyncOptions;
use rsync_core::exclude::validate_glob_pattern;
use rsync_core::paths::{
    file_name, generate_conflict_name, get_partial_path, get_temp_path, is_external_drive, is_stale_artifact,
    path_starts_with,
};
use rsync_core::plan::resume_final_status;
use rsync_core::tray::TrayState;
use rsync_core::volume::can_access_volume;
use rsync_core::transfer_state::{
    active_positions, interrupted_positions, should_remove_state, state_file_name, state_temp_name, FileTransferState,
    TransferState, TransferStatus,
};

fn ts(secs: i64) -> Timestamp {
    Timestamp { secs, nanos: 0 }
}

#[test]
fn temp_and_partial_paths_sit_beside_destination() {
    assert_eq!(get_temp_path("/d/sub/b.bin"), "/d/sub/b.bin.rsync-tmp");
    assert_eq!(get_partial_path("/d/sub/b.bin"), "/d/sub/b.bin.rsync-partial");
    assert_eq!(get_temp_path("/"), "/file.rsync-tmp");
    assert!(is_stale_artifact("x.bin.rsync-tmp"));
    assert!(is_stale_artifact("x.rsync-partial"));
    assert!(!is_stale_artifact("x.bin"));
}

#[test]
fn fresh_copy_writes_staging_file_only() {
    let t = write_target("/d/a.txt", 0);
    assert!(t.atomic);
    assert_eq!(t.path, "/d/a.txt.rsync-tmp");
    let t = write_target("/d/a.txt", 1 << 20);
    assert!(!t.atomic);
    assert_eq!(t.path, "/d/a.txt");
}

#[test]
fn path_helpers() {
    assert_eq!(file_name("/a/b.txt"), Some("b.txt".to_string()));
    assert_eq!(file_name("/a/.."), None);
    assert!(path_starts_with("/Volumes/X/y", "/Volumes/X"));
    assert!(!path_starts_with("/Volumes/XY", "/Volumes/X"));
    assert!(is_external_drive("/Volumes/Ext/a"));
    assert!(!is_external_drive("/home/me"));
    assert_eq!(device_name("/Volumes/Ext/a"), Some("Ext".to_string()));
    assert_eq!(device_name("/Volumes"), None);
}

#[test]
fn generated_conflict_name_carries_a_timestamp() {
    let n = generate_conflict_name("/d/a.txt");
    assert!(n.starts_with("/d/a_"));
    assert!(n.ends_with(".txt"));
    assert_eq!(n.len(), "/d/a_YYYYMMDD_HHMMSS.txt".len());
}

fn table() -> ErrnoTable {
    ErrnoTable { no_space: 28, busy: 16, io: 5, no_device: 19, name_too_long: 36, symlink_loop: 40, quota: 122 }
}

fn failure(kind: IoErrorKind, raw: Option<i32>) -> IoFailure {
    IoFailure { kind, raw_os_error: raw, message: "m".to_string() }
}

#[test]
fn errno_classification() {
    let t = table();
    assert!(matches!(classify_io_error_with(failure(IoErrorKind::PermissionDenied, Some(13)), "/p", false, None, &t), SyncError::PermissionDenied(p) if p == "/p"));
    assert!(matches!(classify_io_error_with(failure(IoErrorKind::NotFound, Some(2)), "/home/x", false, None, &t), SyncError::SourceNotFound(p) if p == "/home/x"));
    match classify_io_error_with(failure(IoErrorKind::NotFound, Some(2)), "/Volumes/Ext/x", true, None, &t) {
        SyncError::DriveDisconnected { path, device_name } => {
            assert_eq!(path, "/Volumes/Ext/x");
            assert_eq!(device_name, Some("Ext".to_string()));
        }
        _ => panic!("expected a disconnected drive"),
    }
    assert!(matches!(classify_io_error_with(failure(IoErrorKind::Other, Some(28)), "/p", false, Some(7), &t), SyncError::DiskFull { required_bytes: 0, available_bytes: 7, .. }));
    assert!(matches!(classify_io_error_with(failure(IoErrorKind::Other, Some(28)), "/p", false, None, &t), SyncError::Io(_)));
    assert!(matches!(classify_io_error_with(failure(IoErrorKind::Other, Some(16)), "/p", false, None, &t), SyncError::FileLocked { retry_after_ms: 1000, .. }));
    assert!(matches!(classify_io_error_with(failure(IoErrorKind::Other, Some(5)), "/p", false, None, &t), SyncError::DriveDisconnected { device_name: None, .. }));
    assert!(matches!(classify_io_error_with(failure(IoErrorKind::Other, Some(19)), "/p", false, None, &t), SyncError::DriveDisconnected { device_name: None, .. }));
    assert!(matches!(classify_io_error_with(failure(IoErrorKind::Other, Some(36)), "/p", false, None, &t), SyncError::PathTooLong { max_length: 255, .. }));
    assert!(matches!(classify_io_error_with(failure(IoErrorKind::Other, Some(40)), "/p", false, None, &t), SyncError::SymlinkLoop { .. }));
    assert!(matches!(classify_io_error_with(failure(IoErrorKind::Other, Some(122)), "/p", false, None, &t), SyncError::QuotaExceeded { .. }));
    assert!(matches!(classify_io_error_with(failure(IoErrorKind::Other, None), "/p", false, None, &t), SyncError::Io(e) if e.message == "m"));
}

#[test]
fn platform_errno_numbers_are_used() {
    assert!(matches!(classify_io_error(failure(IoErrorKind::Other, Some(libc::EBUSY)), "/p", false, None), SyncError::FileLocked { .. }));
    assert!(matches!(classify_io_error(failure(IoErrorKind::Other, Some(libc::ELOOP)), "/p", false, None), SyncError::SymlinkLoop { .. }));
}

#[test]
fn disk_space_precheck() {
    assert!(check_disk_space("/d/a", 100, Some(4196)).is_ok());
    assert!(matches!(check_disk_space("/d/a", 100, Some(4195)), Err(SyncError::DiskFull { required_bytes: 4196, available_bytes: 4195, .. })));
    assert!(check_disk_space("/d/a", 100, None).is_ok());
}

#[test]
fn integrity_verdicts() {
    assert!(verify_copy("/s", "/d", Some(ts(5)), ts(5), 9, 9).is_ok());
    assert!(verify_copy("/s", "/d", None, ts(6), 9, 9).is_ok());
    assert!(matches!(verify_copy("/s", "/d", Some(ts(5)), ts(6), 9, 9), Err(SyncError::SourceModifiedDuringCopy { .. })));
    assert!(matches!(verify_copy("/s", "/d", Some(ts(5)), ts(5), 9, 8), Err(SyncError::HashMismatch(p)) if p == "/d"));
}

#[test]
fn throttle_windows() {
    let mut t = Throttle::new(0);
    assert_eq!(t.after_chunk(1 << 30, 0), None);
    let mut t = Throttle::new(1000);
    assert_eq!(t.after_chunk(40, 10_000), None);
    assert_eq!(t.window_bytes, 40);
    assert_eq!(t.after_chunk(60, 30_000), Some(70_000));
    assert_eq!(t.window_bytes, 0);
    assert_eq!(t.after_chunk(100, 99_500), Some(0));
    assert_eq!(t.after_chunk(100, 150_000), Some(0));
}

#[test]
fn copy_options_for_a_run() {
    let d = CopyOptions::new();
    assert_eq!(d.buffer_size, 8 * 1024 * 1024);
    assert!(d.preserve_metadata && !d.verify_integrity);
    let mut o = SyncOptions::new("/s".to_string(), "/d".to_string());
    o.verify_integrity = true;
    o.buffer_size = Some(4096);
    let c = CopyOptions::for_sync(&o, 0, Some(3), Some(ts(1)));
    assert_eq!(c.buffer_size, 4096);
    assert_eq!(c.pre_copy_source_hash, Some(3));
    let c = CopyOptions::for_sync(&o, 10, Some(3), Some(ts(1)));
    assert_eq!(c.pre_copy_source_hash, None);
    assert_eq!(c.source_mtime_before_copy, None);
}

fn record(path: &str, size: u64) -> FileTransferState {
    FileTransferState::new(path.to_string(), format!("/d{}", path), size, ts(1))
}

#[test]
fn transfer_accounting_keeps_invariants() {
    let mut st = TransferState::new("t1".to_string(), "/s".to_string(), "/d".to_string(), vec![]);
    assert_eq!(st.id, "t1");
    assert!(st.started_at.secs > 0);
    st.add_file(record("/s/a", 100));
    st.add_file(record("/s/b", 50));
    st.add_file(record("/s/a", 999));
    assert_eq!((st.total_files, st.total_bytes), (2, 150));
    st.update_file_progress("/s/a", 500, None);
    assert_eq!(st.files[0].bytes_transferred, 100);
    st.update_file_progress("/s/a", 30, None);
    assert_eq!(st.bytes_transferred, 30);
    st.fail_file("/s/a", "boom".to_string());
    assert_eq!(st.files_failed, 1);
    st.complete_file("/s/a");
    assert_eq!((st.files_failed, st.files_completed), (0, 1));
    assert_eq!(st.bytes_transferred, 100);
    st.complete_file("/s/a");
    assert_eq!(st.files_completed, 1);
    st.skip_file("/s/b");
    assert_eq!(st.files_skipped, 1);
    assert_eq!(st.bytes_transferred, 150);
    assert!(st.files_completed + st.files_failed + st.files_skipped <= st.total_files);
    st.set_status(TransferStatus::Completed, None);
    assert!(st.is_finished());
    assert!(st.completed_at.is_some());
}

#[test]
fn chunk_progress_records_block_hash() {
    let mut st = TransferState::new("t1".to_string(), "/s".to_string(), "/d".to_string(), vec![]);
    st.add_file(record("/s/a", 10));
    st.record_chunk("/s/a", 4, b"abcd");
    assert_eq!(st.files[0].last_block_hash, Some(xxhash_rust::xxh3::xxh3_64(b"abcd")));
    assert_eq!(compute_hash(b"abcd"), xxhash_rust::xxh3::xxh3_64(b"abcd"));
    assert_ne!(compute_hash(b"abcd"), compute_hash(b"abce"));
}

#[test]
fn interrupted_and_active_selection() {
    let mut states = Vec::new();
    for status in [TransferStatus::Pending, TransferStatus::Running, TransferStatus::Paused, TransferStatus::Completed, TransferStatus::Failed, TransferStatus::Cancelled] {
        let mut st = TransferState::new("t1".to_string(), "/s".to_string(), "/d".to_string(), vec![]);
        st.set_status(status, None);
        states.push(st);
    }
    assert_eq!(interrupted_positions(&states, &vec![]), vec![1, 2, 4]);
    states[1].id = "live".to_string();
    assert_eq!(interrupted_positions(&states, &vec!["live".to_string()]), vec![2, 4]);
    assert_eq!(active_positions(&states), vec![0, 1, 2]);
    states[0].add_file(record("/s/a", 10));
    states[0].update_file_progress("/s/a", 5, None);
    assert_eq!(interrupted_positions(&states, &vec![]), vec![0, 1, 2, 4]);
}

#[test]
fn state_files_and_retention() {
    assert_eq!(state_file_name("abc"), "abc.json");
    assert_eq!(state_temp_name("abc"), "abc.tmp");
    assert!(should_remove_state(7 * 86400 + 1, 7, true));
    assert!(!should_remove_state(7 * 86400, 7, true));
    assert!(!should_remove_state(100 * 86400, 7, false));
}

#[test]
fn glob_pattern_validation() {
    assert!(validate_glob_pattern("node_modules").is_ok());
    assert!(validate_glob_pattern("*.log").is_ok());
    assert_eq!(validate_glob_pattern("   "), Err("Pattern cannot be empty".to_string()));
    let e = validate_glob_pattern("a[").unwrap_err();
    assert!(e.starts_with("Invalid glob pattern: "));
}

#[test]
fn resumed_run_status() {
    assert_eq!(resume_final_status(true, 0), TransferStatus::Cancelled);
    assert_eq!(resume_final_status(false, 1), TransferStatus::Failed);
    assert_eq!(resume_final_status(false, 0), TransferStatus::Completed);
}

#[test]
fn tray_state_flags() {
    let mut t = TrayState::new();
    assert_eq!(t.get_status(), rsync_core::tray::TrayStatus::Idle);
    t.set_status(rsync_core::tray::TrayStatus::Syncing);
    t.set_window_visible(false);
    t.set_minimize_to_tray(false);
    assert_eq!(t.get_status(), rsync_core::tray::TrayStatus::Syncing);
    assert!(!t.is_window_visible());
    assert!(!t.is_minimize_to_tray_enabled());
}

#[test]
fn volume_probe_with_platform_errno() {
    assert!(can_access_volume(&None));
    let eio = Some(IoFailure { kind: IoErrorKind::Other, raw_os_error: Some(libc::EIO), message: String::new() });
    assert!(!can_access_volume(&eio));
    let denied = Some(IoFailure { kind: IoErrorKind::PermissionDenied, raw_os_error: Some(libc::EACCES), message: String::new() });
    assert!(can_access_volume(&denied));
}

#[test]
fn missing_path_on_removable_volume_is_a_disconnect() {
    let t = table();
    assert!(matches!(classify_io_error_with(failure(IoErrorKind::NotFound, Some(2)), "/media/usb/x", true, None, &t), SyncError::DriveDisconnected { .. }));
    assert!(matches!(classify_io_error(failure(IoErrorKind::NotFound, Some(2)), "/media/usb/x", true, None), SyncError::DriveDisconnected { .. }));
    assert!(matches!(classify_io_error(failure(IoErrorKind::NotFound, Some(2)), "/Volumes/x", false, None), SyncError::SourceNotFound(_)));
}

#[test]
fn staging_and_partial_paths_differ() {
    assert_ne!(get_temp_path("/d/a"), get_partial_path("/d/a"));
    assert_eq!(file_name(&get_temp_path("/d/a")), Some("a.rsync-tmp".to_string()));
}

#[test]
fn conflict_stamps_have_fixed_shape() {
    let t = LocalTime { year: 2024, month: 1, day: 2, hour: 3, minute: 4, second: 5 };
    assert_eq!(stamp_of(&t), "20240102_030405");
    let far = LocalTime { year: 12345, month: 12, day: 31, hour: 23, minute: 59, second: 59 };
    assert_eq!(stamp_of(&far), "99991231_235959");
    let n = generate_conflict_name("/d/a.tar.gz");
    assert!(n.starts_with("/d/a.tar_"));
    assert!(n.ends_with(".gz"));
    let stamp = &n["/d/a.tar_".len()..n.len() - 3];
    assert_eq!(stamp.len(), 15);
    assert!(stamp.chars().enumerate().all(|(i, c)| if i == 8 { c == '_' } else { c.is_ascii_digit() }));
}
