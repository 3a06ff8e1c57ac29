use media_scanner::config::{
    DEFAULT_BATCH_SIZE, DEFAULT_LARGE_FILE_THRESHOLD, DEFAULT_MAX_DEPTH,
};
use media_scanner::ScanConfig;

fn has(list: &[String], s: &str) -> bool {
    list.iter().any(|e| e == s)
}

#[test]
fn test_default_config() {
    let config = ScanConfig::default();
    assert!(config.roots.is_empty());
    assert!(config.compute_hash);
    assert_eq!(config.large_file_threshold, DEFAULT_LARGE_FILE_THRESHOLD);
    assert_eq!(config.batch_size, DEFAULT_BATCH_SIZE);
}

#[test]
fn test_default_extensions() {
    let extensions = ScanConfig::default_extensions();
    assert!(has(&extensions, "mp4"));
    assert!(has(&extensions, "jpg"));
    assert!(has(&extensions, "mp3"));
    assert!(!has(&extensions, "txt"));
}

#[test]
fn test_should_include_extension() {
    let config = ScanConfig::default();
    assert!(config.should_include_extension("mp4"));
    assert!(config.should_include_extension("MP4"));
    assert!(config.should_include_extension("jpg"));
    assert!(!config.should_include_extension("txt"));
}

#[test]
fn test_should_ignore_dir() {
    let config = ScanConfig::default();
    assert!(config.should_ignore_dir(".git"));
    assert!(config.should_ignore_dir(".hidden"));
    assert!(config.should_ignore_dir("$RECYCLE.BIN"));
    assert!(config.should_ignore_dir("System Volume Information"));
    assert!(!config.should_ignore_dir("Videos"));
    assert!(!config.should_ignore_dir("Photos"));
}

#[test]
fn test_config_builder() {
    let config = ScanConfig::builder()
        .add_root("/test".to_string())
        .video_only()
        .compute_hash(false)
        .num_threads(4)
        .batch_size(500)
        .build();

    assert_eq!(config.roots.len(), 1);
    assert!(!config.compute_hash);
    assert_eq!(config.num_threads, 4);
    assert_eq!(config.batch_size, 500);
    assert!(has(&config.extensions, "mp4"));
    assert!(!has(&config.extensions, "jpg"));
}

#[test]
fn empty_allow_list_includes_everything() {
    let config = ScanConfig::builder().extensions(Vec::new()).build();
    assert!(config.should_include_extension("txt"));
    assert!(config.should_include_extension(""));
}

#[test]
fn image_only_allows_images() {
    let config = ScanConfig::builder().image_only().build();
    assert!(config.should_include_extension("PNG"));
    assert!(!config.should_include_extension("mp4"));
}

#[test]
fn added_ignore_dir_is_pruned_once() {
    let config = ScanConfig::builder()
        .add_ignore_dir("Backups".to_string())
        .add_ignore_dir("Backups".to_string())
        .build();
    assert!(config.should_ignore_dir("Backups"));
    assert_eq!(config.ignore_dirs.iter().filter(|d| *d == "Backups").count(), 1);
    assert!(!config.should_ignore_dir("backups"));
}

#[test]
fn effective_max_depth_follows_recursion() {
    let config = ScanConfig::builder().max_depth(7).build();
    assert_eq!(config.effective_max_depth(), 7);
    let flat = ScanConfig::builder().max_depth(7).recursive(false).build();
    assert_eq!(flat.effective_max_depth(), 1);
    assert_eq!(ScanConfig::default().effective_max_depth(), DEFAULT_MAX_DEPTH);
}

#[test]
fn threads_from_cores() {
    let config = ScanConfig::builder().num_threads(8).build();
    assert_eq!(config.threads_for_cores(Some(3)), 8);
    let auto = ScanConfig::default();
    assert_eq!(auto.threads_for_cores(Some(3)), 6);
    assert_eq!(auto.threads_for_cores(None), 4);
    assert_eq!(auto.threads_for_cores(Some(usize::MAX)), usize::MAX);
}

#[test]
fn new_config_keeps_roots_and_defaults() {
    let config = ScanConfig::new(vec!["/a".to_string(), "/b".to_string()]);
    assert_eq!(config.roots, vec!["/a".to_string(), "/b".to_string()]);
    assert!(config.recursive);
    assert_eq!(config.ignore_dirs.len(), 10);
    assert_eq!(config.extensions.len(), 25);
}

#[test]
fn allow_list_entries_match_in_any_case() {
    let config = ScanConfig::builder().extensions(vec!["MP4".to_string()]).build();
    assert!(config.should_include_extension("mp4"));
    assert!(config.should_include_extension("Mp4"));
    assert!(!config.should_include_extension("mkv"));
}
