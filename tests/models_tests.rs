use media_scanner::error::IoFailure;
use media_scanner::scanner::ScanProgress as CategoryProgress;
use media_scanner::{
    CompactFile, FileStatus, MediaType, ScanError, ScanErrorKind, ScanProgress, ScanResult,
    ScannedDirectory, ScannedFile,
};

#[test]
fn test_media_type_from_extension() {
    assert_eq!(MediaType::from_extension("mp4"), MediaType::Video);
    assert_eq!(MediaType::from_extension("MKV"), MediaType::Video);
    assert_eq!(MediaType::from_extension("avi"), MediaType::Video);
    assert_eq!(MediaType::from_extension("webm"), MediaType::Video);

    assert_eq!(MediaType::from_extension("jpg"), MediaType::Image);
    assert_eq!(MediaType::from_extension("JPEG"), MediaType::Image);
    assert_eq!(MediaType::from_extension("png"), MediaType::Image);
    assert_eq!(MediaType::from_extension("webp"), MediaType::Image);

    assert_eq!(MediaType::from_extension("mp3"), MediaType::Audio);
    assert_eq!(MediaType::from_extension("FLAC"), MediaType::Audio);

    assert_eq!(MediaType::from_extension("txt"), MediaType::Unknown);
    assert_eq!(MediaType::from_extension("exe"), MediaType::Unknown);
}

#[test]
fn test_media_type_detection() {
    assert_eq!(MediaType::from_extension("mp4"), MediaType::Video);
    assert_eq!(MediaType::from_extension("jpg"), MediaType::Image);
    assert_eq!(MediaType::from_extension("mp3"), MediaType::Audio);
    assert_eq!(MediaType::from_extension("txt"), MediaType::Unknown);
}

#[test]
fn test_scanned_file_creation() {
    let file = ScannedFile::new(
        "/test/video.mp4".to_string(),
        "video.mp4".to_string(),
        1024,
        1234567890,
        1234567800,
        "mp4".to_string(),
    );

    assert_eq!(file.name, "video.mp4");
    assert_eq!(file.size, 1024);
    assert_eq!(file.media_type, MediaType::Video);
    assert!(file.hash.is_none());
    assert!(!file.is_partial_hash);
}

#[test]
fn test_scanned_file_with_hash() {
    let file = ScannedFile::new(
        "/test/image.jpg".to_string(),
        "image.jpg".to_string(),
        512,
        1234567890,
        1234567800,
        "jpg".to_string(),
    )
    .with_hash("abc123".to_string(), false);

    assert_eq!(file.hash, Some("abc123".to_string()));
    assert!(!file.is_partial_hash);
}

#[test]
fn test_scan_progress_estimated_remaining() {
    let progress = ScanProgress {
        scanned_dirs: 10,
        scanned_files: 100,
        current_path: "/test".to_string(),
        elapsed_ms: 1000,
    };
    let remaining = progress.estimated_remaining_ms(1000);
    assert_eq!(remaining, Some(9000));
}

#[test]
fn test_scan_result_default() {
    let result = ScanResult::new();
    assert_eq!(result.total_files, 0);
    assert_eq!(result.error_count(), 0);
    assert!(result.is_success());
}

#[test]
fn estimate_needs_files_and_time() {
    let mut progress = ScanProgress::new();
    assert_eq!(progress.estimated_remaining_ms(10), None);
    progress.scanned_files = 5;
    assert_eq!(progress.estimated_remaining_ms(10), None);
    progress.elapsed_ms = 50;
    assert_eq!(progress.estimated_remaining_ms(10), Some(50));
    assert_eq!(progress.estimated_remaining_ms(3), Some(0));
}

#[test]
fn estimate_caps_at_largest_value() {
    let progress = ScanProgress {
        scanned_dirs: 0,
        scanned_files: 1,
        current_path: String::new(),
        elapsed_ms: u64::MAX,
    };
    assert_eq!(progress.estimated_remaining_ms(u64::MAX), Some(u64::MAX));
}

#[test]
fn progress_with_path() {
    let progress = ScanProgress::new().with_path("/media".to_string());
    assert_eq!(progress.current_path, "/media");
    let counts = CategoryProgress::default();
    assert_eq!(counts.video_count, 0);
}

#[test]
fn status_codes_and_names() {
    assert_eq!(FileStatus::New.as_char(), 'n');
    assert_eq!(FileStatus::Modified.as_char(), 'm');
    assert_eq!(FileStatus::Unchanged.as_char(), 'u');
    assert_eq!(FileStatus::Deleted.as_char(), 'd');
    assert_eq!(FileStatus::Modified.as_str(), "modified");
    assert_eq!(FileStatus::default(), FileStatus::New);
    assert_eq!(MediaType::Audio.as_str(), "audio");
    assert_eq!(MediaType::Unknown.as_str(), "unknown");
}

#[test]
fn compact_file_codes() {
    let file = ScannedFile::new(
        "/m/song.flac".to_string(),
        "song.flac".to_string(),
        42,
        7,
        6,
        "flac".to_string(),
    )
    .with_status(FileStatus::Modified)
    .with_hash("h".to_string(), true);
    let compact = CompactFile::from_scanned(&file);
    assert_eq!(compact.name, "song.flac");
    assert_eq!(compact.size, 42);
    assert_eq!(compact.mtime, 7);
    assert_eq!(compact.media_type, 'a');
    assert_eq!(compact.status, 'm');
    assert_eq!(compact.hash, Some("h".to_string()));
    assert_eq!(file.full_path(), Some(&"/m/song.flac".to_string()));
}

#[test]
fn error_constructors() {
    let e = ScanError::permission_denied("/x".to_string());
    assert_eq!(e.kind, ScanErrorKind::PermissionDenied);
    assert_eq!(e.message, "Permission denied: \"/x\"");
    let e = ScanError::not_found("/y".to_string());
    assert_eq!(e.kind, ScanErrorKind::NotFound);
    assert_eq!(e.path, Some("/y".to_string()));
    assert_eq!(e.message, "Not found: \"/y\"");
    let e = ScanError::io_error(None, "boom".to_string());
    assert_eq!(e.kind, ScanErrorKind::IoError);
    let e = ScanError::database_error("db".to_string());
    assert_eq!(e.kind, ScanErrorKind::DatabaseError);
    assert!(e.path.is_none());
    let e = ScanError::hash_error("/z".to_string(), "h".to_string());
    assert_eq!(e.kind, ScanErrorKind::HashError);
    assert_eq!(ScanErrorKind::InvalidPath.name(), "InvalidPath");
    assert_eq!(ScanErrorKind::for_entry_failure(true), ScanErrorKind::PermissionDenied);
    assert_eq!(ScanErrorKind::for_entry_failure(false), ScanErrorKind::IoError);
}

#[test]
fn lowercase_folds_extensions() {
    assert_eq!(media_scanner::text::lowercase("MkV"), "mkv");
    assert_eq!(MediaType::from_lowercase("MKV"), MediaType::Unknown);
}

#[test]
fn files_grouped_by_directory() {
    let mut files = vec![
        ScannedFile::new("/a/x.mp4".to_string(), "x.mp4".to_string(), 1, 1, 1, "mp4".to_string()),
        ScannedFile::new("/b/y.jpg".to_string(), "y.jpg".to_string(), 2, 2, 2, "jpg".to_string()),
        ScannedFile::new("/a/z.mp3".to_string(), "z.mp3".to_string(), 3, 3, 3, "mp3".to_string()),
    ];
    let mut pathless = files[0].clone();
    pathless.path = None;
    files.push(pathless);
    let dirs = ScannedDirectory::group(&files);
    assert_eq!(dirs.len(), 2);
    assert_eq!(dirs[0].path, "/a");
    assert_eq!(dirs[0].files.len(), 2);
    assert_eq!(dirs[0].files[0].name, "x.mp4");
    assert_eq!(dirs[0].files[1].media_type, 'a');
    assert_eq!(dirs[1].path, "/b");
    assert_eq!(dirs[1].files[0].size, 2);
}

#[test]
fn io_failures_map_to_kinds() {
    let e = ScanError::from_io(IoFailure::PermissionDenied, "denied".to_string());
    assert_eq!(e.kind, ScanErrorKind::PermissionDenied);
    assert!(e.path.is_none());
    assert_eq!(ScanError::from_io(IoFailure::NotFound, String::new()).kind, ScanErrorKind::NotFound);
    assert_eq!(ScanError::from_io(IoFailure::Other, String::new()).kind, ScanErrorKind::IoError);
}
