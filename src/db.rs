//! The persistent index: records of known files, tombstones of deleted ones,
//! the in-memory snapshot that a scan compares against, and the store.

use vstd::prelude::*;
use crate::error::{ScanError, ScanErrorKind};
use crate::models::{media_name, status_name, FileStatus, ScannedFile};
use crate::text::{forward_slashes, replace_backslashes};

verus! {

/// A file as the index remembers it.
#[derive(Debug, Clone)]
pub struct FileRecord {
    /// Forward-slash normalized path; the key of the index.
    pub path: String,
    /// File name.
    pub name: String,
    /// Size in bytes.
    pub size: u64,
    /// Modification time, seconds since the epoch.
    pub mtime: i64,
    /// Content fingerprint, if one was stored.
    pub hash: Option<String>,
    /// Stored status name.
    pub status: String,
}

/// A tombstone of a file removed from the index.
#[derive(Debug, Clone)]
pub struct DeletedFileRecord {
    /// Path the file had.
    pub path: String,
    /// File name.
    pub name: String,
    /// Size in bytes.
    pub size: u64,
    /// Content fingerprint, if one was stored.
    pub hash: Option<String>,
    /// When the file was removed from the index, seconds since the epoch.
    pub deleted_at: i64,
}

/// No two records share a path.
pub open spec fn paths_unique(s: Seq<FileRecord>) -> bool {
    forall|i: int, j: int|
        0 <= i < s.len() && 0 <= j < s.len() && i != j ==> #[trigger] s[i].path@ != #[trigger] s[j].path@
}

/// Whether some record has path `p`.
pub open spec fn has_path(s: Seq<FileRecord>, p: Seq<char>) -> bool {
    exists|i: int| 0 <= i < s.len() && #[trigger] s[i].path@ == p
}

/// The record with path `p`, if any.
pub open spec fn lookup(s: Seq<FileRecord>, p: Seq<char>) -> Option<FileRecord> {
    if has_path(s, p) {
        Some(s[choose|i: int| 0 <= i < s.len() && #[trigger] s[i].path@ == p])
    } else {
        None
    }
}

pub proof fn lemma_lookup_at(s: Seq<FileRecord>, i: int)
    requires
        paths_unique(s),
        0 <= i < s.len(),
    ensures
        lookup(s, s[i].path@) == Some(s[i]),
{
    let p = s[i].path@;
    assert(has_path(s, p));
    let k = choose|k: int| 0 <= k < s.len() && #[trigger] s[k].path@ == p;
    assert(k == i);
}

/// A snapshot of the index: one record per path, keyed by path.
#[derive(Debug, Clone)]
pub struct FileIndex {
    records: Vec<FileRecord>,
}

impl View for FileIndex {
    type V = Seq<FileRecord>;

    closed spec fn view(&self) -> Seq<FileRecord> {
        self.records@
    }
}

impl FileIndex {
    /// Paths are unique.
    pub open spec fn wf(&self) -> bool {
        paths_unique(self@)
    }

    /// The empty snapshot.
    pub fn new() -> (r: FileIndex)
        ensures
            r.wf(),
            r@.len() == 0,
    {
        FileIndex { records: Vec::new() }
    }

    /// Number of records.
    pub fn len(&self) -> (r: usize)
        ensures
            r == self@.len(),
    {
        self.records.len()
    }

    /// The records, in the order they were first inserted.
    pub fn records(&self) -> (r: &Vec<FileRecord>)
        ensures
            r@ == self@,
    {
        &self.records
    }

    /// Position of the record with path `path`, if any.
    fn position(&self, path: &String) -> (r: Option<usize>)
        ensures
            match r {
                Some(i) => i < self@.len() && self@[i as int].path@ == path@,
                None => !has_path(self@, path@),
            },
    {
        let mut i: usize = 0;
        while i < self.records.len()
            invariant
                i <= self@.len(),
                self@ == self.records@,
                forall|j: int| 0 <= j < i ==> #[trigger] self@[j].path@ != path@,
            decreases self@.len() - i,
        {
            if self.records[i].path == *path {
                return Some(i);
            }
            i = i + 1;
        }
        None
    }

    /// The record with path `path`, if any.
    pub fn get(&self, path: &String) -> (r: Option<&FileRecord>)
        requires
            self.wf(),
        ensures
            match r {
                Some(rec) => lookup(self@, path@) == Some(*rec),
                None => lookup(self@, path@).is_none(),
            },
    {
        match self.position(path) {
            Some(i) => {
                proof { lemma_lookup_at(self@, i as int); }
                Some(&self.records[i])
            },
            None => None,
        }
    }

    /// Insert a record, replacing the one with the same path if there is one.
    pub fn insert(&mut self, record: FileRecord)
        requires
            old(self).wf(),
        ensures
            final(self).wf(),
            lookup(final(self)@, record.path@) == Some(record),
            forall|p: Seq<char>| p != record.path@ ==> lookup(final(self)@, p) == lookup(old(self)@, p),
            has_path(old(self)@, record.path@) ==> final(self)@.len() == old(self)@.len(),
            !has_path(old(self)@, record.path@) ==> final(self)@ == old(self)@.push(record),
    {
        let ghost s0 = self@;
        let ghost key = record.path@;
        match self.position(&record.path) {
            Some(i) => {
                self.records.set(i, record);
                proof {
                    let s1 = self@;
                    assert(s1 == s0.update(i as int, record));
                    assert(paths_unique(s1));
                    lemma_lookup_at(s1, i as int);
                    assert forall|p: Seq<char>| p != key implies lookup(s1, p) == lookup(s0, p) by {
                        if has_path(s0, p) {
                            let k = choose|k: int| 0 <= k < s0.len() && #[trigger] s0[k].path@ == p;
                            assert(s1[k] == s0[k]);
                            lemma_lookup_at(s0, k);
                            lemma_lookup_at(s1, k);
                        } else {
                            assert(!has_path(s1, p)) by {
                                if has_path(s1, p) {
                                    let k = choose|k: int| 0 <= k < s1.len() && #[trigger] s1[k].path@ == p;
                                    assert(s0[k].path@ == p);
                                }
                            }
                        }
                    }
                }
            },
            None => {
                self.records.push(record);
                proof {
                    let s1 = self@;
                    assert(s1 == s0.push(record));
                    assert(paths_unique(s1));
                    lemma_lookup_at(s1, s0.len() as int);
                    assert forall|p: Seq<char>| p != key implies lookup(s1, p) == lookup(s0, p) by {
                        if has_path(s0, p) {
                            let k = choose|k: int| 0 <= k < s0.len() && #[trigger] s0[k].path@ == p;
                            assert(s1[k] == s0[k]);
                            lemma_lookup_at(s0, k);
                            lemma_lookup_at(s1, k);
                        } else {
                            assert(!has_path(s1, p)) by {
                                if has_path(s1, p) {
                                    let k = choose|k: int| 0 <= k < s1.len() && #[trigger] s1[k].path@ == p;
                                    assert(s0[k].path@ == p);
                                }
                            }
                        }
                    }
                }
            },
        }
    }
}


#[verifier::external_type_specification]
#[verifier::external_body]
pub struct ExConnection(rusqlite::Connection);

#[verifier::external_type_specification]
#[verifier::external_body]
pub struct ExSqliteError(rusqlite::Error);

/// Schema of the live table and of the tombstones, with their indexes.
const SCHEMA: &'static str = "
    CREATE TABLE IF NOT EXISTS files (
        path TEXT PRIMARY KEY,
        name TEXT NOT NULL,
        size INTEGER NOT NULL,
        mtime INTEGER NOT NULL,
        ctime INTEGER NOT NULL,
        extension TEXT NOT NULL,
        media_type TEXT NOT NULL,
        hash TEXT,
        is_partial_hash INTEGER DEFAULT 0,
        status TEXT DEFAULT 'new',
        old_path TEXT
    );
    CREATE INDEX IF NOT EXISTS idx_files_mtime ON files(mtime);
    CREATE INDEX IF NOT EXISTS idx_files_size ON files(size);
    CREATE INDEX IF NOT EXISTS idx_files_hash ON files(hash);
    CREATE INDEX IF NOT EXISTS idx_files_status ON files(status);

    CREATE TABLE IF NOT EXISTS deleted_files (
        id INTEGER PRIMARY KEY AUTOINCREMENT,
        path TEXT NOT NULL,
        name TEXT NOT NULL,
        size INTEGER NOT NULL,
        mtime INTEGER NOT NULL,
        ctime INTEGER NOT NULL,
        extension TEXT NOT NULL,
        media_type TEXT NOT NULL,
        hash TEXT,
        deleted_at INTEGER NOT NULL
    );
    CREATE INDEX IF NOT EXISTS idx_deleted_files_hash ON deleted_files(hash);
    CREATE INDEX IF NOT EXISTS idx_deleted_files_deleted_at ON deleted_files(deleted_at);
";

const UPSERT_FILE: &'static str = "INSERT OR REPLACE INTO files
    (path, name, size, mtime, ctime, extension, media_type, hash, is_partial_hash, status, old_path)
    VALUES (?1, ?2, ?3, ?4, ?5, ?6, ?7, ?8, ?9, ?10, NULL)";

const SELECT_FILES: &'static str = "SELECT path, name, size, mtime, hash, status FROM files";

const SELECT_HASHED_FILES: &'static str =
    "SELECT path, name, size, mtime, hash, status FROM files WHERE hash IS NOT NULL";

const SELECT_FILES_BY_STATUS: &'static str =
    "SELECT path, name, size, mtime, hash, status FROM files WHERE status = ?1";

const SELECT_DELETED: &'static str =
    "SELECT path, name, size, hash, deleted_at FROM deleted_files WHERE deleted_at >= ?1 ORDER BY deleted_at DESC";

const TOMBSTONE_FILE: &'static str = "INSERT INTO deleted_files
    (path, name, size, mtime, ctime, extension, media_type, hash, deleted_at)
    SELECT path, name, size, mtime, ctime, extension, media_type, hash,
        CAST(strftime('%s', 'now') AS INTEGER)
    FROM files WHERE path = ?1";

const DELETE_FILE: &'static str = "DELETE FROM files WHERE path = ?1";

/// A row of the live table as written.
pub struct FileRow {
    pub path: String,
    pub name: String,
    pub size: i64,
    pub mtime: i64,
    pub ctime: i64,
    pub extension: String,
    pub media_type: String,
    pub hash: Option<String>,
    pub is_partial_hash: i64,
    pub status: String,
}

/// A row of the live table as read: path, name, size, mtime, hash, status.
pub type StoredRow = (String, String, i64, i64, Option<String>, Option<String>);

/// A tombstone row as read: path, name, size, hash, deletion time.
pub type DeletedRow = (String, String, i64, Option<String>, i64);

/// Relies on `rusqlite::Connection::open`: opens or creates the database file.
#[verifier::external_body]
fn sqlite_open(path: &str) -> (r: Result<rusqlite::Connection, rusqlite::Error>) {
    rusqlite::Connection::open(path)
}

/// Relies on `rusqlite::Connection::open_in_memory`: a fresh, empty database.
#[verifier::external_body]
fn sqlite_open_in_memory() -> (r: Result<rusqlite::Connection, rusqlite::Error>) {
    rusqlite::Connection::open_in_memory()
}

/// Relies on `rusqlite::Connection::execute_batch`: runs statements without parameters.
#[verifier::external_body]
fn sqlite_batch(conn: &rusqlite::Connection, sql: &str) -> (r: Result<(), rusqlite::Error>) {
    conn.execute_batch(sql)
}

/// Relies on `rusqlite::Connection::execute` with one text parameter.
#[verifier::external_body]
fn sqlite_execute_text(conn: &rusqlite::Connection, sql: &str, arg: &str) -> (r: Result<
    usize,
    rusqlite::Error,
>) {
    conn.execute(sql, (arg,))
}

/// Relies on `rusqlite::Connection::execute` with the ten values of a file row.
#[verifier::external_body]
fn sqlite_execute_row(conn: &rusqlite::Connection, sql: &str, row: &FileRow) -> (r: Result<
    usize,
    rusqlite::Error,
>) {
    conn.execute(
        sql,
        (&row.path, &row.name, row.size, row.mtime, row.ctime, &row.extension, &row.media_type,
        &row.hash, row.is_partial_hash, &row.status),
    )
}

/// Relies on `rusqlite::Connection::query_row`: the integer in the first
/// column of the first row.
#[verifier::external_body]
fn sqlite_query_int(conn: &rusqlite::Connection, sql: &str) -> (r: Result<i64, rusqlite::Error>) {
    conn.query_row(sql, (), |row| row.get(0))
}

/// Relies on `rusqlite::Statement::query_map`: the rows of a query over the
/// live table, with at most one text parameter, read column by column.
#[verifier::external_body]
fn sqlite_query_files(conn: &rusqlite::Connection, sql: &str, arg: Option<&str>) -> (r: Result<
    Vec<StoredRow>,
    rusqlite::Error,
>) {
    let mut stmt = conn.prepare(sql)?;
    let rows = stmt.query_map(rusqlite::params_from_iter(arg.iter()), |row| {
        Ok((row.get(0)?, row.get(1)?, row.get(2)?, row.get(3)?, row.get(4)?, row.get(5)?))
    })?;
    rows.collect()
}

/// Relies on `rusqlite::Statement::query_map`: the tombstone rows of a query
/// with one integer parameter, read column by column.
#[verifier::external_body]
fn sqlite_query_deleted(conn: &rusqlite::Connection, sql: &str, arg: i64) -> (r: Result<
    Vec<DeletedRow>,
    rusqlite::Error,
>) {
    let mut stmt = conn.prepare(sql)?;
    let rows = stmt.query_map((arg,), |row| Ok((row.get(0)?, row.get(1)?, row.get(2)?, row.get(3)?, row.get(4)?)))?;
    rows.collect()
}

/// Relies on `rusqlite::Statement::query_map`: (text, count) rows of a
/// grouping query.
#[verifier::external_body]
fn sqlite_query_counts(conn: &rusqlite::Connection, sql: &str) -> (r: Result<
    Vec<(String, i64)>,
    rusqlite::Error,
>) {
    let mut stmt = conn.prepare(sql)?;
    let rows = stmt.query_map((), |row| Ok((row.get(0)?, row.get(1)?)))?;
    rows.collect()
}

/// Relies on the `Display` impl of `rusqlite::Error` for a readable message.
#[verifier::external_body]
fn sqlite_error_text(e: &rusqlite::Error) -> (r: String) {
    e.to_string()
}

/// A store failure as a scan error of kind `DatabaseError`.
pub fn store_error(e: rusqlite::Error) -> (r: ScanError)
    ensures
        r.kind == ScanErrorKind::DatabaseError,
        r.path.is_none(),
{
    ScanError::database_error(sqlite_error_text(&e))
}

/// Index key that a file is stored under: its path with forward slashes, or
/// the empty text when it has no path.
pub open spec fn key_of(f: ScannedFile) -> Seq<char> {
    match f.path {
        Some(p) => forward_slashes(p@),
        None => Seq::empty(),
    }
}

/// `w` is the row that stores `f`.
pub open spec fn row_for(f: ScannedFile, w: FileRow) -> bool {
    &&& w.path@ == key_of(f)
    &&& w.name == f.name
    &&& w.size == f.size as i64
    &&& w.mtime == f.mtime
    &&& w.ctime == f.ctime
    &&& w.extension == f.extension
    &&& w.media_type@ == media_name(f.media_type)
    &&& w.hash == f.hash
    &&& w.is_partial_hash == (if f.is_partial_hash { 1i64 } else { 0i64 })
    &&& w.status@ == status_name(f.status)
}

/// `r` is the record read back from the stored row `row`; a missing status
/// reads as unchanged.
pub open spec fn record_for(row: StoredRow, r: FileRecord) -> bool {
    &&& r.path == row.0
    &&& r.name == row.1
    &&& r.size == row.2 as u64
    &&& r.mtime == row.3
    &&& r.hash == row.4
    &&& r.status@ == match row.5 {
        Some(s) => s@,
        None => "unchanged"@,
    }
}

/// The row that stores `f`.
pub fn file_row(f: &ScannedFile) -> (r: FileRow)
    ensures
        row_for(*f, r),
{
    let path = match &f.path {
        Some(p) => replace_backslashes(p.as_str()),
        None => String::new(),
    };
    let hash = match &f.hash {
        Some(h) => Some(h.clone()),
        None => None,
    };
    FileRow {
        path,
        name: f.name.clone(),
        size: f.size as i64,
        mtime: f.mtime,
        ctime: f.ctime,
        extension: f.extension.clone(),
        media_type: f.media_type.as_str().to_owned(),
        hash,
        is_partial_hash: if f.is_partial_hash { 1 } else { 0 },
        status: f.status.as_str().to_owned(),
    }
}

/// The rows that store `files`, in order.
pub fn rows_for(files: &Vec<ScannedFile>) -> (r: Vec<FileRow>)
    ensures
        r@.len() == files@.len(),
        forall|i: int| 0 <= i < files@.len() ==> row_for(files@[i], #[trigger] r@[i]),
{
    let mut out: Vec<FileRow> = Vec::new();
    let mut i: usize = 0;
    while i < files.len()
        invariant
            i <= files@.len(),
            out@.len() == i,
            forall|k: int| 0 <= k < i ==> row_for(files@[k], #[trigger] out@[k]),
        decreases files@.len() - i,
    {
        out.push(file_row(&files[i]));
        i = i + 1;
    }
    out
}

/// The record read back from a stored row.
pub fn record_from_row(row: StoredRow) -> (r: FileRecord)
    ensures
        record_for(row, r),
{
    let (path, name, size, mtime, hash, status) = row;
    let status = match status {
        Some(s) => s,
        None => "unchanged".to_owned(),
    };
    FileRecord { path, name, size: size as u64, mtime, hash, status }
}

/// A file written as a row and read back from the same stored values keeps
/// its key, size, modification time and fingerprint.
pub proof fn lemma_row_round_trip(f: ScannedFile, w: FileRow, status: Option<String>, back: FileRecord)
    requires
        row_for(f, w),
        record_for((w.path, w.name, w.size, w.mtime, w.hash, status), back),
    ensures
        back.path@ == key_of(f),
        back.size == f.size,
        back.mtime == f.mtime,
        back.hash == f.hash,
{
    let x = f.size;
    assert((x as i64) as u64 == x) by (bit_vector);
}

/// The records of stored rows, in order.
pub fn records_from_rows(rows: Vec<StoredRow>) -> (r: Vec<FileRecord>)
    ensures
        r@.len() == rows@.len(),
        forall|i: int| 0 <= i < rows@.len() ==> record_for(rows@[i], #[trigger] r@[i]),
{
    let mut out: Vec<FileRecord> = Vec::new();
    let mut i: usize = 0;
    let n = rows.len();
    let mut rest = rows;
    let ghost all = rest@;
    while i < n
        invariant
            n == all.len(),
            i <= n,
            out@.len() == i,
            rest@ == all.subrange(i as int, n as int),
            forall|k: int| 0 <= k < i ==> record_for(all[k], #[trigger] out@[k]),
        decreases n - i,
    {
        let row = rest.remove(0);
        assert(row == all[i as int]);
        out.push(record_from_row(row));
        assert(rest@ =~= all.subrange(i + 1, n as int));
        i = i + 1;
    }
    out
}

/// The tombstones of the rows of `rows` stamped at or after `since`, in order.
pub open spec fn kept_tombstones(rows: Seq<DeletedRow>, since: i64) -> Seq<DeletedFileRecord>
    decreases rows.len(),
{
    if rows.len() == 0 {
        Seq::empty()
    } else {
        let rest = kept_tombstones(rows.drop_last(), since);
        if rows.last().4 >= since {
            rest.push(tombstone_of(rows.last()))
        } else {
            rest
        }
    }
}

/// The tombstones of stored rows stamped at or after `since`, in order.
pub fn tombstones_from_rows(rows: Vec<DeletedRow>, since: i64) -> (r: Vec<DeletedFileRecord>)
    ensures
        r@ == kept_tombstones(rows@, since),
        forall|i: int| 0 <= i < r@.len() ==> (#[trigger] r@[i]).deleted_at >= since,
{
    let mut out: Vec<DeletedFileRecord> = Vec::new();
    let mut i: usize = 0;
    let n = rows.len();
    let mut rest = rows;
    let ghost all = rest@;
    while i < n
        invariant
            n == all.len(),
            i <= n,
            rest@ == all.subrange(i as int, n as int),
            out@ == kept_tombstones(all.subrange(0, i as int), since),
            forall|k: int| 0 <= k < out@.len() ==> (#[trigger] out@[k]).deleted_at >= since,
        decreases n - i,
    {
        let row = rest.remove(0);
        assert(row == all[i as int]);
        assert(all.subrange(0, i + 1).drop_last() =~= all.subrange(0, i as int));
        let (path, name, size, hash, deleted_at) = row;
        if deleted_at >= since {
            out.push(DeletedFileRecord { path, name, size: size as u64, hash, deleted_at });
        }
        assert(rest@ =~= all.subrange(i + 1, n as int));
        i = i + 1;
    }
    assert(all.subrange(0, n as int) =~= all);
    out
}

/// The tombstone read back from a stored row.
pub open spec fn tombstone_of(row: DeletedRow) -> DeletedFileRecord {
    DeletedFileRecord { path: row.0, name: row.1, size: row.2 as u64, hash: row.3, deleted_at: row.4 }
}

/// The (status, count) pairs of stored rows, in order, with counts as unsigned.
pub fn counts_from_rows(rows: Vec<(String, i64)>) -> (r: Vec<(String, u64)>)
    ensures
        r@ == rows@.map_values(|row: (String, i64)| (row.0, row.1 as u64)),
{
    let mut out: Vec<(String, u64)> = Vec::new();
    let mut i: usize = 0;
    let n = rows.len();
    let mut rest = rows;
    let ghost all = rest@;
    while i < n
        invariant
            n == all.len(),
            i <= n,
            rest@ == all.subrange(i as int, n as int),
            out@ == all.subrange(0, i as int).map_values(|row: (String, i64)| (row.0, row.1 as u64)),
        decreases n - i,
    {
        let (status, count) = rest.remove(0);
        out.push((status, count as u64));
        assert(out@ =~= all.subrange(0, i + 1).map_values(|row: (String, i64)| (row.0, row.1 as u64)));
        assert(rest@ =~= all.subrange(i + 1, n as int));
        i = i + 1;
    }
    assert(all.subrange(0, n as int) =~= all);
    out
}

/// The last row of `rows` with path `p`, if any.
pub open spec fn last_row_at(rows: Seq<StoredRow>, p: Seq<char>) -> Option<StoredRow>
    decreases rows.len(),
{
    if rows.len() == 0 {
        None
    } else if rows.last().0@ == p {
        Some(rows.last())
    } else {
        last_row_at(rows.drop_last(), p)
    }
}

/// The snapshot `ix` holds, for path `p`, the record read from the last row
/// of `rows` with that path, and no record when there is no such row.
pub open spec fn indexed_as(ix: Seq<FileRecord>, rows: Seq<StoredRow>, p: Seq<char>) -> bool {
    match last_row_at(rows, p) {
        Some(row) => lookup(ix, p) is Some && record_for(row, lookup(ix, p)->0),
        None => lookup(ix, p) is None,
    }
}

/// Records of stored rows, one per path; a later row replaces an earlier
/// one with the same path.
pub fn index_from_rows(rows: Vec<StoredRow>) -> (r: FileIndex)
    ensures
        r.wf(),
        forall|p: Seq<char>| #[trigger] indexed_as(r@, rows@, p),
{
    let mut index = FileIndex::new();
    let mut rest = rows;
    let ghost all = rest@;
    let mut taken: usize = 0;
    assert(all.len() == rest.len());
    proof {
        assert forall|p: Seq<char>| #[trigger] indexed_as(index@, all.subrange(0, 0), p) by {
            assert(!has_path(index@, p));
        }
    }
    while rest.len() > 0
        invariant
            index.wf(),
            taken + rest@.len() == all.len(),
            all.len() <= usize::MAX,
            rest@ == all.subrange(taken as int, all.len() as int),
            forall|p: Seq<char>| #[trigger] indexed_as(index@, all.subrange(0, taken as int), p),
        decreases rest@.len(),
    {
        let row = rest.remove(0);
        let ghost key = row.0@;
        let ghost the_row = row;
        let record = record_from_row(row);
        let ghost before = index@;
        index.insert(record);
        proof {
            assert(all[taken as int] == the_row);
            let pre = all.subrange(0, taken as int);
            let post = all.subrange(0, taken + 1);
            assert(post.drop_last() =~= pre);
            assert(post.last() == the_row);
            assert forall|p: Seq<char>| #[trigger] indexed_as(index@, post, p) by {
                if p != key {
                    assert(lookup(index@, p) == lookup(before, p));
                    assert(indexed_as(before, pre, p));
                }
            }
            assert(rest@ =~= all.subrange(taken + 1, all.len() as int));
        }
        taken = taken + 1;
    }
    assert(all.subrange(0, all.len() as int) =~= all);
    index
}

/// Whether the live table lacks the status column, given how many columns of
/// that name the schema probe counted (none when the probe failed).
pub fn needs_status_column(count: Option<i64>) -> (r: bool)
    ensures
        r == match count {
            Some(n) => n <= 0,
            None => true,
        },
{
    match count {
        Some(n) => n <= 0,
        None => true,
    }
}

/// The last row of `rows` whose fingerprint has the characters `h`, if any.
pub open spec fn last_row_with_hash(rows: Seq<StoredRow>, h: Seq<char>) -> Option<StoredRow>
    decreases rows.len(),
{
    if rows.len() == 0 {
        None
    } else if opt_view(rows.last().4) == Some(h) {
        Some(rows.last())
    } else {
        last_row_with_hash(rows.drop_last(), h)
    }
}

/// The records `out` hold, for fingerprint `h`, the record read from the
/// last row of `rows` with that fingerprint, and no record when there is no
/// such row.
pub open spec fn hashed_as(out: Seq<FileRecord>, rows: Seq<StoredRow>, h: Seq<char>) -> bool {
    &&& last_row_with_hash(rows, h) is Some ==> exists|i: int|
        0 <= i < out.len() && opt_view(out[i].hash) == Some(h) && #[trigger] record_for(
            last_row_with_hash(rows, h)->0,
            out[i],
        )
    &&& last_row_with_hash(rows, h) is None ==> forall|i: int|
        0 <= i < out.len() ==> #[trigger] opt_view(out[i].hash) != Some(h)
}

/// Records of stored rows that have a fingerprint, one per fingerprint; a
/// later row replaces an earlier one with the same fingerprint.
pub fn hash_index_from_rows(rows: Vec<StoredRow>) -> (r: Vec<FileRecord>)
    ensures
        forall|i: int| 0 <= i < r@.len() ==> (#[trigger] r@[i]).hash is Some,
        forall|i: int, j: int|
            0 <= i < r@.len() && 0 <= j < r@.len() && i != j ==> #[trigger] opt_view(r@[i].hash)
                != #[trigger] opt_view(r@[j].hash),
        forall|h: Seq<char>| #[trigger] hashed_as(r@, rows@, h),
{
    let mut out: Vec<FileRecord> = Vec::new();
    let mut rest = rows;
    let ghost all = rest@;
    let mut taken: usize = 0;
    assert(all.len() == rest.len());
    proof {
        assert forall|h: Seq<char>| #[trigger] hashed_as(out@, all.subrange(0, 0), h) by {}
    }
    while rest.len() > 0
        invariant
            taken + rest@.len() == all.len(),
            all.len() <= usize::MAX,
            rest@ == all.subrange(taken as int, all.len() as int),
            forall|i: int| 0 <= i < out@.len() ==> (#[trigger] out@[i]).hash is Some,
            forall|i: int, j: int|
                0 <= i < out@.len() && 0 <= j < out@.len() && i != j
                    ==> #[trigger] opt_view(out@[i].hash) != #[trigger] opt_view(out@[j].hash),
            forall|h: Seq<char>| #[trigger] hashed_as(out@, all.subrange(0, taken as int), h),
        decreases rest@.len(),
    {
        let row = rest.remove(0);
        let ghost the_row = row;
        let record = record_from_row(row);
        assert(record.hash == the_row.4);
        let ghost before = out@;
        let ghost pre = all.subrange(0, taken as int);
        let ghost post = all.subrange(0, taken + 1);
        proof {
            assert(all[taken as int] == the_row);
            assert(post.drop_last() =~= pre);
            assert(post.last() == the_row);
        }
        if record.hash.is_some() {
            let ghost h0 = opt_view(record.hash)->0;
            match hash_position(&out, &record.hash) {
                Some(k) => {
                    out.set(k, record);
                    proof {
                        assert forall|h: Seq<char>| #[trigger] hashed_as(out@, post, h) by {
                            if h == h0 {
                                assert(last_row_with_hash(post, h) == Some(the_row));
                                assert(opt_view(out@[k as int].hash) == Some(h));
                                assert(record_for(the_row, out@[k as int]));
                                assert(last_row_with_hash(post, h)->0 == the_row);
                                assert(record_for(last_row_with_hash(post, h)->0, out@[k as int]));
                                assert(hashed_as(out@, post, h));
                            } else {
                                assert(last_row_with_hash(post, h) == last_row_with_hash(pre, h));
                                assert(hashed_as(before, pre, h));
                                if let Some(row2) = last_row_with_hash(pre, h) {
                                    let i = choose|i: int|
                                        0 <= i < before.len() && opt_view(before[i].hash) == Some(h)
                                            && #[trigger] record_for(row2, before[i]);
                                    assert(i != k);
                                    assert(out@[i] == before[i]);
                                    assert(record_for(row2, out@[i]));
                                    assert(opt_view(out@[i].hash) == Some(h));
                                } else {
                                    assert forall|i: int| 0 <= i < out@.len() implies #[trigger] opt_view(out@[i].hash) != Some(h) by {
                                        if i != k {
                                            assert(out@[i] == before[i]);
                                            assert(opt_view(before[i].hash) != Some(h));
                                        }
                                    }
                                }
                            }
                        }
                    }
                },
                None => {
                    out.push(record);
                    proof {
                        let n = before.len() as int;
                        assert forall|h: Seq<char>| #[trigger] hashed_as(out@, post, h) by {
                            if h == h0 {
                                assert(last_row_with_hash(post, h) == Some(the_row));
                                assert(opt_view(out@[n].hash) == Some(h));
                                assert(record_for(the_row, out@[n]));
                                assert(last_row_with_hash(post, h)->0 == the_row);
                                assert(record_for(last_row_with_hash(post, h)->0, out@[n]));
                                assert(hashed_as(out@, post, h));
                            } else {
                                assert(last_row_with_hash(post, h) == last_row_with_hash(pre, h));
                                assert(hashed_as(before, pre, h));
                                if let Some(row2) = last_row_with_hash(pre, h) {
                                    let i = choose|i: int|
                                        0 <= i < before.len() && opt_view(before[i].hash) == Some(h)
                                            && #[trigger] record_for(row2, before[i]);
                                    assert(out@[i] == before[i]);
                                    assert(record_for(row2, out@[i]));
                                    assert(opt_view(out@[i].hash) == Some(h));
                                } else {
                                    assert forall|i: int| 0 <= i < out@.len() implies #[trigger] opt_view(out@[i].hash) != Some(h) by {
                                        if i < n {
                                            assert(out@[i] == before[i]);
                                            assert(opt_view(before[i].hash) != Some(h));
                                        }
                                    }
                                }
                            }
                        }
                    }
                },
            }
        } else {
            proof {
                assert forall|h: Seq<char>| #[trigger] hashed_as(out@, post, h) by {
                    assert(hashed_as(before, pre, h));
                }
            }
        }
        proof {
            assert(rest@ =~= all.subrange(taken + 1, all.len() as int));
        }
        taken = taken + 1;
    }
    assert(all.subrange(0, all.len() as int) =~= all);
    out
}

/// The persistent index: live records and tombstones in an SQLite database.
pub struct ScanDatabase {
    conn: rusqlite::Connection,
}

impl ScanDatabase {
    /// Open or create the index at `path`, creating missing tables and adding
    /// columns that an older schema lacks.
    pub fn open(path: &str) -> (r: Result<ScanDatabase, ScanError>)
        ensures
            r is Err ==> r->Err_0.kind == ScanErrorKind::DatabaseError,
    {
        let conn = match sqlite_open(path) {
            Ok(c) => c,
            Err(e) => return Err(store_error(e)),
        };
        let db = ScanDatabase { conn };
        db.init_schema()?;
        db.migrate_schema()?;
        Ok(db)
    }

    /// A fresh index held in memory.
    pub fn open_memory() -> (r: Result<ScanDatabase, ScanError>)
        ensures
            r is Err ==> r->Err_0.kind == ScanErrorKind::DatabaseError,
    {
        let conn = match sqlite_open_in_memory() {
            Ok(c) => c,
            Err(e) => return Err(store_error(e)),
        };
        let db = ScanDatabase { conn };
        db.init_schema()?;
        Ok(db)
    }

    fn init_schema(&self) -> (r: Result<(), ScanError>)
        ensures
            r is Err ==> r->Err_0.kind == ScanErrorKind::DatabaseError,
    {
        match sqlite_batch(&self.conn, SCHEMA) {
            Ok(()) => Ok(()),
            Err(e) => Err(store_error(e)),
        }
    }

    /// Add the status and old-path columns to a live table that predates them;
    /// existing rows read as unchanged. Nothing is dropped.
    fn migrate_schema(&self) -> (r: Result<(), ScanError>)
        ensures
            r is Err ==> r->Err_0.kind == ScanErrorKind::DatabaseError,
    {
        let count = match sqlite_query_int(
            &self.conn,
            "SELECT COUNT(*) FROM pragma_table_info('files') WHERE name = 'status'",
        ) {
            Ok(n) => Some(n),
            Err(_) => None,
        };
        if needs_status_column(count) {
            if let Err(e) = sqlite_batch(
                &self.conn,
                "ALTER TABLE files ADD COLUMN status TEXT DEFAULT 'unchanged'",
            ) {
                return Err(store_error(e));
            }
            if let Err(e) = sqlite_batch(&self.conn, "ALTER TABLE files ADD COLUMN old_path TEXT") {
                return Err(store_error(e));
            }
        }
        Ok(())
    }

    /// The snapshot of all live records, keyed by path.
    pub fn load_file_index(&self) -> (r: Result<FileIndex, ScanError>)
        ensures
            r is Ok ==> r->Ok_0.wf(),
            r is Err ==> r->Err_0.kind == ScanErrorKind::DatabaseError,
    {
        match sqlite_query_files(&self.conn, SELECT_FILES, None) {
            Ok(rows) => Ok(index_from_rows(rows)),
            Err(e) => Err(store_error(e)),
        }
    }

    /// Live records that have a fingerprint, one per fingerprint; a later row
    /// replaces an earlier one with the same fingerprint.
    pub fn load_hash_index(&self) -> (r: Result<Vec<FileRecord>, ScanError>)
        ensures
            r is Ok ==> forall|i: int| 0 <= i < r->Ok_0@.len() ==> (#[trigger] r->Ok_0@[i]).hash is Some,
            r is Ok ==> forall|i: int, j: int|
                0 <= i < r->Ok_0@.len() && 0 <= j < r->Ok_0@.len() && i != j
                    ==> #[trigger] opt_view(r->Ok_0@[i].hash) != #[trigger] opt_view(r->Ok_0@[j].hash),
            r is Err ==> r->Err_0.kind == ScanErrorKind::DatabaseError,
    {
        match sqlite_query_files(&self.conn, SELECT_HASHED_FILES, None) {
            Ok(rows) => Ok(hash_index_from_rows(rows)),
            Err(e) => Err(store_error(e)),
        }
    }

    /// Mark every new, modified or moved record as unchanged and clear its old path.
    pub fn reset_statuses(&mut self) -> (r: Result<(), ScanError>)
        ensures
            r is Err ==> r->Err_0.kind == ScanErrorKind::DatabaseError,
    {
        match sqlite_batch(
            &self.conn,
            "UPDATE files SET status = 'unchanged', old_path = NULL WHERE status IN ('new', 'modified', 'moved')",
        ) {
            Ok(()) => Ok(()),
            Err(e) => Err(store_error(e)),
        }
    }

    /// Finish a transaction that is already open: commit when the writes
    /// succeeded, roll back (keeping their error) when they failed or when the
    /// commit fails.
    fn end_transaction(&self, outcome: Result<(), ScanError>) -> (r: Result<(), ScanError>)
        requires
            outcome is Err ==> outcome->Err_0.kind == ScanErrorKind::DatabaseError,
        ensures
            r is Err ==> r->Err_0.kind == ScanErrorKind::DatabaseError,
            outcome is Err ==> r is Err,
    {
        match outcome {
            Ok(()) => match sqlite_batch(&self.conn, "COMMIT") {
                Ok(()) => Ok(()),
                Err(e) => {
                    let _ = sqlite_batch(&self.conn, "ROLLBACK");
                    Err(store_error(e))
                },
            },
            Err(err) => {
                let _ = sqlite_batch(&self.conn, "ROLLBACK");
                Err(err)
            },
        }
    }

    /// Insert or replace the records of `files` in one transaction: all of
    /// them are written, or none.
    pub fn upsert_files(&mut self, files: &Vec<ScannedFile>) -> (r: Result<(), ScanError>)
        ensures
            r is Err ==> r->Err_0.kind == ScanErrorKind::DatabaseError,
    {
        if let Err(e) = sqlite_batch(&self.conn, "BEGIN") {
            return Err(store_error(e));
        }
        let rows = rows_for(files);
        let mut outcome: Result<(), ScanError> = Ok(());
        let mut i: usize = 0;
        while i < rows.len()
            invariant
                outcome is Err ==> outcome->Err_0.kind == ScanErrorKind::DatabaseError,
            decreases rows@.len() - i,
        {
            if let Err(e) = sqlite_execute_row(&self.conn, UPSERT_FILE, &rows[i]) {
                outcome = Err(store_error(e));
                break;
            }
            i = i + 1;
        }
        self.end_transaction(outcome)
    }

    /// Move the records of `paths` to the tombstones, stamped with the current
    /// time, and remove them from the live table, in one transaction. Nothing
    /// happens for an empty list.
    pub fn move_to_deleted(&mut self, paths: &Vec<String>) -> (r: Result<(), ScanError>)
        ensures
            paths@.len() == 0 ==> r is Ok,
            r is Err ==> r->Err_0.kind == ScanErrorKind::DatabaseError,
    {
        if paths.len() == 0 {
            return Ok(());
        }
        if let Err(e) = sqlite_batch(&self.conn, "BEGIN") {
            return Err(store_error(e));
        }
        let mut outcome: Result<(), ScanError> = Ok(());
        let mut i: usize = 0;
        while i < paths.len()
            invariant
                outcome is Err ==> outcome->Err_0.kind == ScanErrorKind::DatabaseError,
            decreases paths@.len() - i,
        {
            if let Err(e) = sqlite_execute_text(&self.conn, TOMBSTONE_FILE, paths[i].as_str()) {
                outcome = Err(store_error(e));
                break;
            }
            if let Err(e) = sqlite_execute_text(&self.conn, DELETE_FILE, paths[i].as_str()) {
                outcome = Err(store_error(e));
                break;
            }
            i = i + 1;
        }
        self.end_transaction(outcome)
    }

    /// Remove the records of `paths` from the live table, in one transaction,
    /// without tombstones. Nothing happens for an empty list.
    pub fn delete_files(&mut self, paths: &Vec<String>) -> (r: Result<(), ScanError>)
        ensures
            paths@.len() == 0 ==> r is Ok,
            r is Err ==> r->Err_0.kind == ScanErrorKind::DatabaseError,
    {
        if paths.len() == 0 {
            return Ok(());
        }
        if let Err(e) = sqlite_batch(&self.conn, "BEGIN") {
            return Err(store_error(e));
        }
        let mut outcome: Result<(), ScanError> = Ok(());
        let mut i: usize = 0;
        while i < paths.len()
            invariant
                outcome is Err ==> outcome->Err_0.kind == ScanErrorKind::DatabaseError,
            decreases paths@.len() - i,
        {
            if let Err(e) = sqlite_execute_text(&self.conn, DELETE_FILE, paths[i].as_str()) {
                outcome = Err(store_error(e));
                break;
            }
            i = i + 1;
        }
        self.end_transaction(outcome)
    }

    /// Live records whose stored status is the name of `status`.
    pub fn get_files_by_status(&self, status: FileStatus) -> (r: Result<Vec<FileRecord>, ScanError>)
        ensures
            r is Err ==> r->Err_0.kind == ScanErrorKind::DatabaseError,
    {
        match sqlite_query_files(&self.conn, SELECT_FILES_BY_STATUS, Some(status.as_str())) {
            Ok(rows) => Ok(records_from_rows(rows)),
            Err(e) => Err(store_error(e)),
        }
    }

    /// Tombstones, newest first; only those stamped at or after `since_timestamp`
    /// when it is given.
    pub fn get_deleted_files(&self, since_timestamp: Option<i64>) -> (r: Result<
        Vec<DeletedFileRecord>,
        ScanError,
    >)
        ensures
            r is Ok ==> forall|i: int|
                0 <= i < r->Ok_0@.len() ==> match since_timestamp {
                    Some(t) => (#[trigger] r->Ok_0@[i]).deleted_at >= t,
                    None => true,
                },
            r is Err ==> r->Err_0.kind == ScanErrorKind::DatabaseError,
    {
        let since = match since_timestamp {
            Some(t) => t,
            None => i64::MIN,
        };
        match sqlite_query_deleted(&self.conn, SELECT_DELETED, since) {
            Ok(rows) => Ok(tombstones_from_rows(rows, since)),
            Err(e) => Err(store_error(e)),
        }
    }

    /// Number of live records.
    pub fn file_count(&self) -> (r: Result<u64, ScanError>)
        ensures
            r is Err ==> r->Err_0.kind == ScanErrorKind::DatabaseError,
    {
        match sqlite_query_int(&self.conn, "SELECT COUNT(*) FROM files") {
            Ok(n) => Ok(n as u64),
            Err(e) => Err(store_error(e)),
        }
    }

    /// Number of live records per stored status.
    pub fn get_status_counts(&self) -> (r: Result<Vec<(String, u64)>, ScanError>)
        ensures
            r is Err ==> r->Err_0.kind == ScanErrorKind::DatabaseError,
    {
        match sqlite_query_counts(&self.conn, "SELECT status, COUNT(*) FROM files GROUP BY status") {
            Ok(rows) => Ok(counts_from_rows(rows)),
            Err(e) => Err(store_error(e)),
        }
    }

    /// Remove every tombstone; returns how many there were.
    pub fn clear_deleted_files(&mut self) -> (r: Result<u64, ScanError>)
        ensures
            r is Err ==> r->Err_0.kind == ScanErrorKind::DatabaseError,
    {
        let count = match sqlite_query_int(&self.conn, "SELECT COUNT(*) FROM deleted_files") {
            Ok(n) => n,
            Err(e) => return Err(store_error(e)),
        };
        match sqlite_batch(&self.conn, "DELETE FROM deleted_files") {
            Ok(()) => Ok(count as u64),
            Err(e) => Err(store_error(e)),
        }
    }

    /// Number of tombstones.
    pub fn deleted_files_count(&self) -> (r: Result<u64, ScanError>)
        ensures
            r is Err ==> r->Err_0.kind == ScanErrorKind::DatabaseError,
    {
        match sqlite_query_int(&self.conn, "SELECT COUNT(*) FROM deleted_files") {
            Ok(n) => Ok(n as u64),
            Err(e) => Err(store_error(e)),
        }
    }
}

/// The characters of an optional string.
pub open spec fn opt_view(o: Option<String>) -> Option<Seq<char>> {
    match o {
        Some(s) => Some(s@),
        None => None,
    }
}

/// Position of the record whose fingerprint has the characters of `h`.
fn hash_position(records: &Vec<FileRecord>, h: &Option<String>) -> (r: Option<usize>)
    ensures
        match r {
            Some(k) => k < records@.len() && opt_view(records@[k as int].hash) == opt_view(*h),
            None => forall|j: int| 0 <= j < records@.len() ==> #[trigger] opt_view(records@[j].hash) != opt_view(*h),
        },
{
    let mut k: usize = 0;
    while k < records.len()
        invariant
            k <= records@.len(),
            forall|j: int| 0 <= j < k ==> #[trigger] opt_view(records@[j].hash) != opt_view(*h),
        decreases records@.len() - k,
    {
        let same = match (&records[k].hash, h) {
            (Some(x), Some(y)) => *x == *y,
            (None, None) => true,
            _ => false,
        };
        if same {
            return Some(k);
        }
        k = k + 1;
    }
    None
}

/// In rows whose paths are pairwise distinct, the last row with the path of
/// row `i` is row `i`.
proof fn lemma_last_row_at_unique(rows: Seq<StoredRow>, i: int)
    requires
        0 <= i < rows.len(),
        forall|j: int| 0 <= j < rows.len() && j != i ==> #[trigger] rows[j].0@ != rows[i].0@,
    ensures
        last_row_at(rows, rows[i].0@) == Some(rows[i]),
    decreases rows.len(),
{
    if i != rows.len() - 1 {
        let t = rows.drop_last();
        assert forall|j: int| 0 <= j < t.len() && j != i implies #[trigger] t[j].0@ != t[i].0@ by {
            assert(t[j] == rows[j]);
        }
        lemma_last_row_at_unique(t, i);
    }
}

/// Files with distinct keys, written as rows and read back as a snapshot from
/// stored rows that keep each row's path, size, modification time and
/// fingerprint, are found in the snapshot under their key with the size,
/// modification time and fingerprint they had.
pub proof fn lemma_snapshot_round_trip(
    files: Seq<ScannedFile>,
    written: Seq<FileRow>,
    stored: Seq<StoredRow>,
    snapshot: Seq<FileRecord>,
    i: int,
)
    requires
        0 <= i < files.len(),
        forall|a: int, b: int|
            0 <= a < files.len() && 0 <= b < files.len() && a != b ==> key_of(#[trigger] files[a])
                != key_of(#[trigger] files[b]),
        written.len() == files.len(),
        forall|k: int| 0 <= k < files.len() ==> row_for(files[k], #[trigger] written[k]),
        stored.len() == written.len(),
        forall|k: int|
            0 <= k < stored.len() ==> {
                &&& (#[trigger] stored[k]).0 == written[k].path
                &&& stored[k].2 == written[k].size
                &&& stored[k].3 == written[k].mtime
                &&& stored[k].4 == written[k].hash
            },
        forall|p: Seq<char>| #[trigger] indexed_as(snapshot, stored, p),
    ensures
        lookup(snapshot, key_of(files[i])) is Some,
        lookup(snapshot, key_of(files[i]))->0.path@ == key_of(files[i]),
        lookup(snapshot, key_of(files[i]))->0.size == files[i].size,
        lookup(snapshot, key_of(files[i]))->0.mtime == files[i].mtime,
        lookup(snapshot, key_of(files[i]))->0.hash == files[i].hash,
{
    assert forall|j: int| 0 <= j < stored.len() && j != i implies #[trigger] stored[j].0@ != stored[i].0@ by {
        assert(row_for(files[j], written[j]));
        assert(row_for(files[i], written[i]));
    }
    lemma_last_row_at_unique(stored, i);
    assert(row_for(files[i], written[i]));
    assert(indexed_as(snapshot, stored, key_of(files[i])));
    let x = files[i].size;
    assert((x as i64) as u64 == x) by (bit_vector);
}

} // verus!
