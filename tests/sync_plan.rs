use rsync_core::exclude::build_exclude_matcher;
use rsync_core::delta::{detect_delta, detect_delta_detailed, DeltaStatus, DestMeta, FileInfo, Timestamp};
use rsync_core::error::SyncError;
use rsync_core::options::{
    decide_file_action, default_max_concurrent_files, effective_concurrency, resolution_action,
    ConflictResolution, ConflictResolutionAction, FileAction, FrontendConflictResolution, SyncOptions,
};
use rsync_core::paths::conflict_name_with_stamp;
use rsync_core::plan::{final_status, files_to_resume, plan_sync, seed_records, select_orphans, SyncResult_};
use rsync_core::scan::{DirectoryInfo, ScanResult, ScanTally};
use rsync_core::transfer_state::{FileTransferState, TransferState, TransferStatus};

fn ts(secs: i64) -> Timestamp {
    Timestamp { secs, nanos: 0 }
}

fn file(path: &str, size: u64, secs: i64) -> FileInfo {
    FileInfo { path: path.to_string(), size, modified: ts(secs), is_dir: false, is_symlink: false }
}

fn dir(path: &str) -> FileInfo {
    FileInfo { path: path.to_string(), size: 0, modified: ts(0), is_dir: true, is_symlink: false }
}

fn opts() -> SyncOptions {
    SyncOptions::new("/src".to_string(), "/dst".to_string())
}

/// Runs the decision part of a sync over a manifest and a destination
/// listing, as the orchestrator does, returning the summary.
fn run(manifest: &DirectoryInfo, dest: &dyn Fn(&str) -> Option<DestMeta>, o: &SyncOptions) -> (SyncResult_, Vec<(String, FileAction)>) {
    let plan = plan_sync(manifest, o);
    let mut summary = SyncResult_::for_manifest(manifest);
    summary.record_skipped(plan.excluded);
    let mut actions = Vec::new();
    for &i in &plan.regular {
        let f = &manifest.files[i];
        let delta = detect_delta_detailed(f, dest(&f.path));
        let action = decide_file_action(&delta, o);
        match action {
            FileAction::Skip => summary.record_skipped(1),
            _ => summary.record_copied(f.size),
        }
        actions.push((f.path.clone(), action));
    }
    (summary, actions)
}

fn three_files() -> DirectoryInfo {
    DirectoryInfo::from_entries(
        "/src".to_string(),
        vec![file("a.txt", 100, 10), dir("sub"), file("sub/b.bin", 1_048_576, 10), file("sub/c.bin", 3, 10)],
    )
    .ok()
    .unwrap()
}

#[test]
fn empty_source_gives_empty_summary() {
    let m = DirectoryInfo::from_entries("/src".to_string(), vec![]).ok().unwrap();
    let (s, actions) = run(&m, &|_| None, &opts());
    assert_eq!(s.files_total, 0);
    assert_eq!(s.files_copied, 0);
    assert_eq!(s.bytes_total, 0);
    assert_eq!(s.bytes_copied, 0);
    assert!(s.errors.is_empty());
    assert!(actions.is_empty());
}

#[test]
fn fresh_tree_copies_three_files() {
    let m = three_files();
    assert_eq!(m.file_count, 3);
    assert_eq!(m.dir_count, 1);
    assert_eq!(m.total_size, 1_048_679);
    let (s, _) = run(&m, &|_| None, &opts());
    assert_eq!(s.files_total, 3);
    assert_eq!(s.files_copied, 3);
    assert_eq!(s.bytes_copied, 1_048_679);
}

#[test]
fn rerun_skips_everything() {
    let m = three_files();
    let copied = |p: &str| match p {
        "a.txt" => Some(DestMeta { size: 100, modified: ts(10) }),
        "sub/b.bin" => Some(DestMeta { size: 1_048_576, modified: ts(10) }),
        "sub/c.bin" => Some(DestMeta { size: 3, modified: ts(10) }),
        _ => None,
    };
    let (s, _) = run(&m, &copied, &opts());
    assert_eq!(s.files_copied, 0);
    assert_eq!(s.files_skipped, 3);
    assert_eq!(s.bytes_copied, 0);
}

fn modified_a() -> (DirectoryInfo, impl Fn(&str) -> Option<DestMeta>) {
    let m = DirectoryInfo::from_entries("/src".to_string(), vec![file("a.txt", 200, 20)]).ok().unwrap();
    (m, |p: &str| if p == "a.txt" { Some(DestMeta { size: 100, modified: ts(10) }) } else { None })
}

#[test]
fn modified_file_with_skip_policy_is_kept() {
    let (m, dest) = modified_a();
    let mut o = opts();
    o.conflict_resolution = ConflictResolution::Skip;
    let (s, actions) = run(&m, &dest, &o);
    assert_eq!(s.files_copied, 0);
    assert_eq!(s.files_skipped, 1);
    assert_eq!(actions[0].1, FileAction::Skip);
}

#[test]
fn modified_file_with_rename_policy_is_copied_aside() {
    let (m, dest) = modified_a();
    let mut o = opts();
    o.conflict_resolution = ConflictResolution::Rename;
    let (s, actions) = run(&m, &dest, &o);
    assert_eq!(s.files_copied, 1);
    assert_eq!(s.files_skipped, 0);
    assert_eq!(actions[0].1, FileAction::CopyRenamed);
    assert_eq!(conflict_name_with_stamp("/dst/a.txt", "20240102_030405"), "/dst/a_20240102_030405.txt");
    assert_eq!(conflict_name_with_stamp("/dst/README", "20240102_030405"), "/dst/README_20240102_030405");
}

#[test]
fn exclude_pattern_keeps_node_modules_out() {
    let m = DirectoryInfo::from_entries(
        "/src".to_string(),
        vec![file("keep.txt", 4, 1), dir("node_modules"), file("node_modules/x.js", 7, 1)],
    )
    .ok()
    .unwrap();
    let mut o = opts();
    o.exclude_patterns = vec!["node_modules".to_string()];
    let plan = plan_sync(&m, &o);
    assert_eq!(plan.regular, vec![0]);
    assert!(plan.dirs.is_empty());
    assert_eq!(plan.excluded, 2);
    let st = TransferState::new("t1".to_string(), "/src".to_string(), "/dst".to_string(), vec![]);
    let todo = files_to_resume(&m, &st, plan.exclusion.as_ref(), &vec![0, 0, 0]);
    assert_eq!(todo.len(), 1);
    assert_eq!(todo[0].index, 0);
    let (s, actions) = run(&m, &|_| None, &o);
    assert_eq!(actions.len(), 1);
    assert_eq!(actions[0].0, "keep.txt");
    assert_eq!(s.files_skipped, 2);
}

#[test]
fn basename_and_path_globs_exclude() {
    let m = DirectoryInfo::from_entries(
        "/src".to_string(),
        vec![file("a/.DS_Store", 1, 1), file("a/b.log", 1, 1), file("a/c.txt", 1, 1), file("build/out.o", 1, 1)],
    )
    .ok()
    .unwrap();
    let mut o = opts();
    o.exclude_patterns = vec![".DS_Store".to_string(), "*.log".to_string(), "build/**".to_string(), "[".to_string()];
    let plan = plan_sync(&m, &o);
    assert_eq!(plan.regular, vec![2]);
    assert_eq!(plan.excluded, 3);
}

#[test]
fn symlinks_are_recreated_unless_followed() {
    let link = FileInfo { path: "l".to_string(), size: 0, modified: ts(0), is_dir: false, is_symlink: true };
    let m = DirectoryInfo::from_entries("/src".to_string(), vec![link, file("f", 1, 1)]).ok().unwrap();
    let plan = plan_sync(&m, &opts());
    assert_eq!(plan.symlinks, vec![0]);
    assert_eq!(plan.regular, vec![1]);
    let mut o = opts();
    o.follow_symlinks = true;
    let plan = plan_sync(&m, &o);
    assert!(plan.symlinks.is_empty());
    assert_eq!(plan.regular, vec![0, 1]);
}

#[test]
fn orphan_sweep_refused_after_scan_error() {
    let info = DirectoryInfo::from_entries("/src".to_string(), vec![file("a", 1, 1)]).ok().unwrap();
    let scan = ScanResult::with_errors(info, vec!["Scan error: permission denied".to_string()]);
    assert!(!scan.is_complete());
    let dest = vec!["a".to_string(), "stale".to_string()];
    match select_orphans(&scan.info, &dest, scan.is_complete(), &scan.scan_errors) {
        Err(SyncError::IncompleteScan(msg)) => {
            assert!(msg.contains("(1 errors)"));
            assert!(msg.contains("Scan error: permission denied"));
        }
        _ => panic!("the sweep must be refused"),
    }
}

#[test]
fn orphan_sweep_selects_unknown_entries() {
    let info = DirectoryInfo::from_entries("/src".to_string(), vec![file("a", 1, 1), dir("d")]).ok().unwrap();
    let scan = ScanResult::new(info);
    let dest = vec!["d/x".to_string(), "d".to_string(), "a".to_string(), "b".to_string()];
    let r = select_orphans(&scan.info, &dest, scan.is_complete(), &scan.scan_errors).ok().unwrap();
    assert_eq!(r, vec![0, 3]);
}

#[test]
fn interrupted_large_file_resumes_one_mib_back() {
    let mut st = TransferState::new("t1".to_string(), "/src".to_string(), "/dst".to_string(), vec![]);
    st.add_file(FileTransferState::new("/src/big.bin".to_string(), "/dst/big.bin".to_string(), 100 << 20, ts(5)));
    st.update_file_progress("/src/big.bin", 40 << 20, Some(7));
    assert_eq!(st.bytes_transferred, 40 << 20);
    assert_eq!(st.files[0].get_resume_offset(), 39 << 20);
    let m = DirectoryInfo::from_entries("/src".to_string(), vec![file("big.bin", 100 << 20, 5)]).ok().unwrap();
    let todo = files_to_resume(&m, &st, None, &vec![40 << 20]);
    assert_eq!(todo.len(), 1);
    assert_eq!(todo[0].index, 0);
    assert_eq!(todo[0].offset, 39 << 20);
    let staging_lost = files_to_resume(&m, &st, None, &vec![0]);
    assert_eq!(staging_lost[0].offset, 0);
    st.complete_file("/src/big.bin");
    assert!(files_to_resume(&m, &st, None, &vec![100 << 20]).is_empty());
}

#[test]
fn delta_table() {
    let f = file("x", 10, 100);
    assert_eq!(detect_delta(&f, None), DeltaStatus::New);
    let d = detect_delta_detailed(&f, None);
    assert!(d.source_newer && !d.source_older && !d.size_differs);
    assert_eq!(detect_delta(&f, Some(DestMeta { size: 10, modified: ts(100) })), DeltaStatus::Unchanged);
    assert_eq!(detect_delta(&f, Some(DestMeta { size: 10, modified: ts(200) })), DeltaStatus::Unchanged);
    let d = detect_delta_detailed(&f, Some(DestMeta { size: 10, modified: ts(200) }));
    assert_eq!(d.status, DeltaStatus::Unchanged);
    assert!(!d.source_newer && !d.source_older && !d.size_differs);
    let d = detect_delta_detailed(&f, Some(DestMeta { size: 10, modified: ts(50) }));
    assert_eq!(d.status, DeltaStatus::Modified);
    assert!(d.source_newer && !d.source_older && !d.size_differs);
    let d = detect_delta_detailed(&f, Some(DestMeta { size: 11, modified: ts(200) }));
    assert_eq!(d.status, DeltaStatus::Modified);
    assert!(!d.source_newer && d.source_older && d.size_differs);
    let later_nanos = Timestamp { secs: 100, nanos: 1 };
    let d = detect_delta_detailed(&FileInfo { modified: later_nanos, ..f.clone() }, Some(DestMeta { size: 10, modified: ts(100) }));
    assert_eq!(d.status, DeltaStatus::Modified);
}

#[test]
fn overwrite_flags_decide_modified_files() {
    let older_src = detect_delta_detailed(&file("x", 10, 50), Some(DestMeta { size: 10, modified: ts(100) }));
    assert_eq!(older_src.status, DeltaStatus::Unchanged);
    let older_bigger = detect_delta_detailed(&file("x", 11, 50), Some(DestMeta { size: 10, modified: ts(100) }));
    let mut o = opts();
    o.overwrite_older = true;
    assert_eq!(decide_file_action(&older_bigger, &o), FileAction::Copy);
    o.overwrite_older = false;
    o.overwrite_newer = true;
    assert_eq!(decide_file_action(&older_bigger, &o), FileAction::Copy);
    let newer_same = detect_delta_detailed(&file("x", 10, 200), Some(DestMeta { size: 10, modified: ts(100) }));
    o.overwrite_newer = false;
    o.overwrite_older = true;
    assert_eq!(decide_file_action(&newer_same, &o), FileAction::Skip);
    o.skip_existing = true;
    assert_eq!(decide_file_action(&newer_same, &o), FileAction::Skip);
    let mut ask = opts();
    ask.conflict_resolution = ConflictResolution::Ask;
    assert_eq!(decide_file_action(&newer_same, &ask), FileAction::Skip);
    let mut rename_newer = opts();
    rename_newer.conflict_resolution = ConflictResolution::Rename;
    rename_newer.overwrite_newer = true;
    assert_eq!(decide_file_action(&newer_same, &rename_newer), FileAction::Copy);
}

#[test]
fn concurrency_is_clamped() {
    let mut o = opts();
    assert_eq!(default_max_concurrent_files(), 4);
    assert_eq!(effective_concurrency(&o), 4);
    o.max_concurrent_files = 0;
    assert_eq!(effective_concurrency(&o), 1);
    o.max_concurrent_files = 64;
    assert_eq!(effective_concurrency(&o), 8);
}

#[test]
fn conflict_resolutions_map_one_for_one() {
    assert_eq!(resolution_action(FrontendConflictResolution::KeepBoth), ConflictResolutionAction::KeepBoth);
    assert_eq!(resolution_action(FrontendConflictResolution::KeepDest), ConflictResolutionAction::KeepDest);
    assert_eq!(resolution_action(FrontendConflictResolution::KeepSource), ConflictResolutionAction::KeepSource);
    assert_eq!(resolution_action(FrontendConflictResolution::Skip), ConflictResolutionAction::Skip);
}

#[test]
fn final_status_of_a_run() {
    assert_eq!(final_status(true, 3, 0, 0), TransferStatus::Cancelled);
    assert_eq!(final_status(false, 0, 0, 2), TransferStatus::Failed);
    assert_eq!(final_status(false, 0, 5, 2), TransferStatus::Completed);
    assert_eq!(final_status(false, 1, 0, 2), TransferStatus::Completed);
    assert_eq!(final_status(false, 0, 0, 0), TransferStatus::Completed);
}

#[test]
fn summary_records_failures() {
    let mut s = SyncResult_::new();
    s.record_failed("a: boom".to_string());
    s.record_error("Orphan cleanup skipped".to_string());
    assert_eq!(s.files_failed, 1);
    assert_eq!(s.errors, vec!["a: boom".to_string(), "Orphan cleanup skipped".to_string()]);
}

#[test]
fn manifest_and_tally_totals() {
    let mut t = ScanTally::new();
    assert!(t.add(false, 10));
    assert!(t.add(true, 999));
    assert!(t.add(false, 5));
    assert_eq!((t.total_size, t.file_count, t.dir_count), (15, 2, 1));
    assert!(!t.add(false, u64::MAX));
    assert_eq!(t.total_size, 15);
    let too_big = DirectoryInfo::from_entries("/s".to_string(), vec![file("a", u64::MAX, 1), file("b", 1, 1)]);
    assert!(matches!(too_big, Err(SyncError::Internal(_))));
}

#[test]
fn planned_files_get_pending_records() {
    let m = three_files();
    let plan = plan_sync(&m, &opts());
    let mut st = TransferState::new("t1".to_string(), "/src".to_string(), "/dst".to_string(), vec![]);
    assert!(seed_records(&mut st, &m, &plan.regular, "/src", "/dst"));
    assert_eq!(st.total_files, 3);
    assert_eq!(st.total_bytes, 1_048_679);
    assert!(st.find_file("/src/sub/b.bin").is_some());
    assert_eq!(st.files[1].dest_path, "/dst/sub/b.bin");
    assert!(seed_records(&mut st, &m, &plan.regular, "/src", "/dst"));
    assert_eq!(st.total_files, 3);
    assert_eq!(st.files[0].status, TransferStatus::Pending);
    assert_eq!(st.files[2].total_bytes, 3);
    assert_eq!(st.files[2].source_mtime, ts(10));
}

#[test]
fn exclusion_matcher_is_built_from_usable_patterns() {
    assert!(build_exclude_matcher(&vec![]).is_none());
    assert!(build_exclude_matcher(&vec!["[".to_string()]).is_none());
    let m = build_exclude_matcher(&vec!["[".to_string(), "*.log".to_string()]).unwrap();
    assert_eq!(m.globs, vec!["*.log".to_string()]);
    assert!(m.is_match("a/b.log"));
    assert!(!m.is_match("a/b.txt"));
}
