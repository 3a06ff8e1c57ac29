use media_scanner::db::{
    counts_from_rows, file_row, hash_index_from_rows, index_from_rows, needs_status_column,
    record_from_row, rows_for, tombstones_from_rows,
};
use media_scanner::{FileStatus, ScanDatabase, ScannedFile};

fn file(path: &str, size: u64, mtime: i64, hash: Option<&str>) -> ScannedFile {
    let f = ScannedFile::new(path.to_string(), "x.mp4".to_string(), size, mtime, mtime, "mp4".to_string());
    match hash {
        Some(h) => f.with_hash(h.to_string(), false),
        None => f,
    }
}

#[test]
fn upserted_records_come_back_in_snapshot() {
    let mut db = ScanDatabase::open_memory().unwrap();
    let files = vec![
        file("/m/a.mp4", 10, 1, Some("aa")),
        file("/m/b.mp4", u64::MAX, -5, None),
    ];
    db.upsert_files(&files).unwrap();
    let index = db.load_file_index().unwrap();
    assert_eq!(index.len(), 2);
    let a = index.get(&"/m/a.mp4".to_string()).unwrap();
    assert_eq!((a.size, a.mtime, a.hash.clone()), (10, 1, Some("aa".to_string())));
    assert_eq!(a.status, "new");
    let b = index.get(&"/m/b.mp4".to_string()).unwrap();
    assert_eq!((b.size, b.mtime, b.hash.clone()), (u64::MAX, -5, None));
    assert_eq!(db.file_count().unwrap(), 2);
}

#[test]
fn upsert_replaces_by_path() {
    let mut db = ScanDatabase::open_memory().unwrap();
    db.upsert_files(&vec![file("/m/a.mp4", 10, 1, None)]).unwrap();
    let modified = file("/m/a.mp4", 11, 2, None).with_status(FileStatus::Modified);
    db.upsert_files(&vec![modified]).unwrap();
    let index = db.load_file_index().unwrap();
    assert_eq!(index.len(), 1);
    let a = index.get(&"/m/a.mp4".to_string()).unwrap();
    assert_eq!((a.size, a.status.as_str()), (11, "modified"));
    assert_eq!(db.get_files_by_status(FileStatus::Modified).unwrap().len(), 1);
    assert_eq!(db.get_files_by_status(FileStatus::New).unwrap().len(), 0);
}

#[test]
fn deletions_move_records_to_tombstones() {
    let mut db = ScanDatabase::open_memory().unwrap();
    db.upsert_files(&vec![file("/m/a.mp4", 10, 1, Some("h")), file("/m/b.mp4", 5, 1, None)]).unwrap();
    db.move_to_deleted(&Vec::new()).unwrap();
    db.move_to_deleted(&vec!["/m/a.mp4".to_string()]).unwrap();
    assert_eq!(db.file_count().unwrap(), 1);
    assert_eq!(db.deleted_files_count().unwrap(), 1);
    let gone = db.get_deleted_files(None).unwrap();
    assert_eq!(gone.len(), 1);
    assert_eq!(gone[0].path, "/m/a.mp4");
    assert_eq!(gone[0].hash, Some("h".to_string()));
    assert!(db.get_deleted_files(Some(i64::MAX)).unwrap().is_empty());
    assert_eq!(db.clear_deleted_files().unwrap(), 1);
    assert_eq!(db.deleted_files_count().unwrap(), 0);
    db.delete_files(&vec!["/m/b.mp4".to_string()]).unwrap();
    assert_eq!(db.file_count().unwrap(), 0);
}

#[test]
fn statuses_reset_and_counted() {
    let mut db = ScanDatabase::open_memory().unwrap();
    db.upsert_files(&vec![file("/m/a.mp4", 1, 1, Some("h")), file("/m/b.mp4", 1, 1, Some("h"))]).unwrap();
    assert_eq!(db.load_hash_index().unwrap().len(), 1);
    db.reset_statuses().unwrap();
    let counts = db.get_status_counts().unwrap();
    assert_eq!(counts, vec![("unchanged".to_string(), 2)]);
}

#[test]
fn rows_normalize_paths_and_round_trip() {
    let f = file("C:\\m\\a.mp4", 7, 3, Some("hh"));
    let row = file_row(&f);
    assert_eq!(row.path, "C:/m/a.mp4");
    assert_eq!(row.media_type, "video");
    assert_eq!(row.status, "new");
    let back = record_from_row((row.path, row.name, row.size, row.mtime, row.hash, None));
    assert_eq!(back.path, "C:/m/a.mp4");
    assert_eq!(back.size, 7);
    assert_eq!(back.status, "unchanged");
}

#[test]
fn decoders_keep_order_and_filter() {
    let rows = vec![
        ("/a".to_string(), "a".to_string(), 1, None, 10),
        ("/b".to_string(), "b".to_string(), -1, Some("h".to_string()), 5),
        ("/c".to_string(), "c".to_string(), 3, None, 20),
    ];
    let kept = tombstones_from_rows(rows, 10);
    assert_eq!(kept.len(), 2);
    assert_eq!(kept[0].path, "/a");
    assert_eq!(kept[1].deleted_at, 20);
    let counts = counts_from_rows(vec![("new".to_string(), 4), ("odd".to_string(), -1)]);
    assert_eq!(counts, vec![("new".to_string(), 4), ("odd".to_string(), u64::MAX)]);
    let index = index_from_rows(vec![
        ("/a".to_string(), "a".to_string(), 1, 1, None, None),
        ("/a".to_string(), "a".to_string(), 2, 2, None, Some("modified".to_string())),
    ]);
    assert_eq!(index.len(), 1);
    assert_eq!(index.get(&"/a".to_string()).unwrap().status, "modified");
    let files = vec![file("/x.mp4", 1, 1, None), file("/y.mp4", 2, 2, None)];
    let rows = rows_for(&files);
    assert_eq!(rows.len(), 2);
    assert_eq!(rows[1].path, "/y.mp4");
    assert_eq!(rows[0].is_partial_hash, 0);
}

#[test]
fn hash_index_keeps_last_row_per_hash() {
    let rows = vec![
        ("/a".to_string(), "a".to_string(), 1, 1, Some("h1".to_string()), None),
        ("/b".to_string(), "b".to_string(), 2, 2, None, None),
        ("/c".to_string(), "c".to_string(), 3, 3, Some("h2".to_string()), None),
        ("/d".to_string(), "d".to_string(), 4, 4, Some("h1".to_string()), None),
    ];
    let index = hash_index_from_rows(rows);
    assert_eq!(index.len(), 2);
    assert_eq!(index[0].path, "/d");
    assert_eq!(index[0].hash, Some("h1".to_string()));
    assert_eq!(index[1].path, "/c");
}

#[test]
fn status_column_probe() {
    assert!(needs_status_column(None));
    assert!(needs_status_column(Some(0)));
    assert!(!needs_status_column(Some(1)));
}
