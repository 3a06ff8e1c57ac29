use media_scanner::scanner::{classify, normalize_path};
use media_scanner::{
    FileDecision, FileIndex, FileRecord, FileStatus, ScanConfig, ScanError, ScanResult,
    ScanState, ScannedFile,
};

fn record(path: &str, size: u64, mtime: i64) -> FileRecord {
    FileRecord {
        path: path.to_string(),
        name: path.rsplit('/').next().unwrap().to_string(),
        size,
        mtime,
        hash: None,
        status: "new".to_string(),
    }
}

fn file(path: &str, size: u64, mtime: i64) -> ScannedFile {
    let name = path.rsplit('/').next().unwrap().to_string();
    let ext = name.rsplit('.').next().unwrap().to_string();
    ScannedFile::new(path.to_string(), name, size, mtime, mtime, ext)
}

/// Feed one file to the scan, reading it when asked to.
fn visit(
    state: &mut ScanState,
    config: &ScanConfig,
    snapshot: Option<&FileIndex>,
    path: &str,
    size: u64,
    mtime: i64,
) -> FileDecision {
    let ext = path.rsplit('.').next().unwrap();
    let decision = state.observe_file(config, snapshot, path, ext, size, mtime);
    if let FileDecision::Process(status) = decision {
        state.record_file(file(path, size, mtime), status);
    }
    decision
}

fn scan(config: &ScanConfig, snapshot: Option<&FileIndex>, files: &[(&str, u64, i64)]) -> ScanResult {
    let mut state = ScanState::new();
    assert!(state.enter_directory(config, Some("media"), "/media".to_string()));
    for (p, s, m) in files {
        visit(&mut state, config, snapshot, p, *s, *m);
    }
    state.finish(snapshot, 0)
}

fn counts(r: &ScanResult) -> (u64, u64, u64, u64, u64, u64) {
    (r.total_files, r.total_dirs, r.new_files, r.modified_files, r.unchanged_files, r.deleted_files)
}

#[test]
fn full_scan_twice_gives_same_counts() {
    let config = ScanConfig::default();
    let tree = [("/media/a.mp4", 10, 1), ("/media/b.jpg", 20, 2), ("/media/c.txt", 5, 3)];
    let first = scan(&config, None, &tree);
    let second = scan(&config, None, &tree);
    assert_eq!(counts(&first), counts(&second));
    assert_eq!(counts(&first), (2, 1, 2, 0, 0, 0));
}

#[test]
fn incremental_scan_classifies_changes() {
    let config = ScanConfig::default();
    let mut index = FileIndex::new();
    index.insert(record("/media/a.mp4", 10, 1));
    index.insert(record("/media/b.mp4", 20, 2));
    let result = scan(
        &config,
        Some(&index),
        &[("/media/a.mp4", 10, 1), ("/media/b.mp4", 21, 2), ("/media/c.mp4", 30, 3)],
    );
    assert_eq!(result.unchanged_files, 1);
    assert_eq!(result.modified_files, 1);
    assert_eq!(result.new_files, 1);
    assert_eq!(result.total_files, 3);
    assert_eq!(result.deleted_files, 0);
    assert!(result.deleted_paths.is_empty());
    assert_eq!(result.files.len(), 2);
    assert_eq!(result.files[0].path, Some("/media/b.mp4".to_string()));
    assert_eq!(result.files[0].status, FileStatus::Modified);
    assert_eq!(result.files[1].status, FileStatus::New);
}

#[test]
fn removed_file_is_reported_deleted_once() {
    let config = ScanConfig::default();
    let mut index = FileIndex::new();
    index.insert(record("/media/a.mp4", 10, 1));
    index.insert(record("/media/d.mp4", 40, 4));
    index.insert(record("/media/d.mp4", 40, 4));
    let result = scan(&config, Some(&index), &[("/media/a.mp4", 10, 1)]);
    assert_eq!(result.deleted_paths, vec!["/media/d.mp4".to_string()]);
    assert_eq!(result.deleted_files, 1);
    assert!(result.files.iter().all(|f| f.path != Some("/media/d.mp4".to_string())));
}

#[test]
fn filtered_files_and_ignored_dirs_leave_no_trace() {
    let config = ScanConfig::builder().video_only().build();
    let mut state = ScanState::new();
    assert!(!state.enter_directory(&config, Some(".git"), "/m/.git".to_string()));
    assert!(!state.enter_directory(&config, Some("node_modules"), "/m/node_modules".to_string()));
    assert_eq!(visit(&mut state, &config, None, "/m/photo.jpg", 1, 1), FileDecision::Skip);
    let result = state.finish(None, 0);
    assert_eq!(counts(&result), (0, 0, 0, 0, 0, 0));
    assert!(result.files.is_empty());
}

#[test]
fn unknown_category_is_still_tracked() {
    let config = ScanConfig::builder().extensions(Vec::new()).build();
    let result = scan(&config, None, &[("/media/notes.txt", 3, 1)]);
    assert_eq!(result.total_files, 1);
    assert_eq!(result.files[0].media_type, media_scanner::MediaType::Unknown);
}

#[test]
fn classification_uses_size_and_mtime_only() {
    let mut index = FileIndex::new();
    index.insert(record("/m/a.mp4", 10, 1));
    let key = "/m/a.mp4".to_string();
    assert_eq!(classify(Some(&index), &key, 10, 1), FileStatus::Unchanged);
    assert_eq!(classify(Some(&index), &key, 10, 2), FileStatus::Modified);
    assert_eq!(classify(Some(&index), &key, 11, 1), FileStatus::Modified);
    assert_eq!(classify(Some(&index), &"/m/z.mp4".to_string(), 1, 1), FileStatus::New);
    assert_eq!(classify(None, &key, 10, 1), FileStatus::New);
}

#[test]
fn keys_use_forward_slashes() {
    assert_eq!(normalize_path("C:\\media\\a.mp4"), "C:/media/a.mp4");
    let mut index = FileIndex::new();
    index.insert(record("C:/media/a.mp4", 10, 1));
    let config = ScanConfig::default();
    let result = scan(&config, Some(&index), &[("C:\\media\\a.mp4", 10, 1)]);
    assert_eq!(result.unchanged_files, 1);
    assert!(result.deleted_paths.is_empty());
}

#[test]
fn insert_replaces_same_path() {
    let mut index = FileIndex::new();
    index.insert(record("/m/a.mp4", 10, 1));
    index.insert(record("/m/a.mp4", 11, 2));
    assert_eq!(index.len(), 1);
    assert_eq!(index.get(&"/m/a.mp4".to_string()).unwrap().size, 11);
    assert!(index.get(&"/m/b.mp4".to_string()).is_none());
}

#[test]
fn errors_and_progress_are_collected() {
    let config = ScanConfig::default();
    let mut state = ScanState::new();
    state.enter_directory(&config, None, "/root".to_string());
    visit(&mut state, &config, None, "/root/a.mp4", 1, 1);
    visit(&mut state, &config, None, "/root/b.png", 1, 1);
    state.record_error(ScanError::not_found("/gone".to_string()));
    let p = state.progress(12);
    assert_eq!((p.scanned_files, p.scanned_dirs, p.video_count, p.image_count), (2, 1, 1, 1));
    assert_eq!(p.current_dir, "/root");
    assert_eq!(p.elapsed_ms, 12);
    let result = state.finish(None, 99);
    assert_eq!(result.error_count(), 1);
    assert!(!result.is_success());
    assert_eq!(result.duration_ms, 99);
}

#[test]
fn filtered_file_in_snapshot_is_not_deleted() {
    let config = ScanConfig::builder().video_only().build();
    let mut index = FileIndex::new();
    index.insert(record("/media/photo.jpg", 10, 1));
    let result = scan(&config, Some(&index), &[("/media/photo.jpg", 10, 1)]);
    assert!(result.deleted_paths.is_empty());
    assert_eq!(result.total_files, 0);
}

#[test]
fn unreadable_file_in_snapshot_is_not_deleted() {
    let mut index = FileIndex::new();
    index.insert(record("/media/a.mp4", 10, 1));
    let mut state = ScanState::new();
    state.mark_seen("/media/a.mp4");
    let result = state.finish(Some(&index), 0);
    assert!(result.deleted_paths.is_empty());
    assert_eq!(counts(&result), (0, 0, 0, 0, 0, 0));
}
