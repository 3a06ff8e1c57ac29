//! Change classification and the bookkeeping of one scan.
//!
//! The walk itself (listing directories, reading metadata and content) is
//! done by the caller, who reports each entry here and acts on the decision
//! that comes back.

use vstd::prelude::*;
use crate::config::ScanConfig;
use crate::db::{key_of, has_path, lemma_lookup_at, lookup, paths_unique, FileIndex, FileRecord};
use crate::error::ScanError;
use crate::models::{FileStatus, MediaType, ScanResult, ScannedFile};
use crate::text::{
    contains_text, forward_slashes, lower_of, lowered_views, replace_backslashes, views_of,
};

verus! {

/// Progress counts of a running scan, by media category.
#[derive(Debug, Clone)]
pub struct ScanProgress {
    /// Files counted so far.
    pub scanned_files: u64,
    /// Directories counted so far.
    pub scanned_dirs: u64,
    /// Video files so far.
    pub video_count: u64,
    /// Image files so far.
    pub image_count: u64,
    /// Audio files so far.
    pub audio_count: u64,
    /// Directory being scanned.
    pub current_dir: String,
    /// Elapsed time in milliseconds.
    pub elapsed_ms: u64,
}

impl Default for ScanProgress {
    fn default() -> (r: ScanProgress)
        ensures
            r.scanned_files == 0,
            r.scanned_dirs == 0,
            r.video_count == 0,
            r.image_count == 0,
            r.audio_count == 0,
            r.current_dir@.len() == 0,
            r.elapsed_ms == 0,
    {
        ScanProgress {
            scanned_files: 0,
            scanned_dirs: 0,
            video_count: 0,
            image_count: 0,
            audio_count: 0,
            current_dir: String::new(),
            elapsed_ms: 0,
        }
    }
}

/// The index key of a path: its text with forward slashes.
pub fn normalize_path(path: &str) -> (r: String)
    ensures
        r@ == forward_slashes(path@),
{
    replace_backslashes(path)
}

/// Status of an observed file against a snapshot: new when there is no
/// snapshot or the path is not in it, unchanged when size and modification
/// time both match the stored record, modified otherwise.
pub open spec fn status_for(
    snapshot: Option<Seq<FileRecord>>,
    key: Seq<char>,
    size: u64,
    mtime: i64,
) -> FileStatus {
    match snapshot {
        None => FileStatus::New,
        Some(s) => match lookup(s, key) {
            None => FileStatus::New,
            Some(rec) => if rec.size == size && rec.mtime == mtime {
                FileStatus::Unchanged
            } else {
                FileStatus::Modified
            },
        },
    }
}

/// The records of a snapshot, if there is one.
pub open spec fn snapshot_view(snapshot: Option<&FileIndex>) -> Option<Seq<FileRecord>> {
    match snapshot {
        Some(ix) => Some(ix@),
        None => None,
    }
}

/// A snapshot, if there is one, has unique paths.
pub open spec fn snapshot_wf(snapshot: Option<&FileIndex>) -> bool {
    match snapshot {
        Some(ix) => ix.wf(),
        None => true,
    }
}

/// Classify an observed file against a snapshot by size and modification
/// time only; the fingerprint is never consulted.
pub fn classify(snapshot: Option<&FileIndex>, key: &String, size: u64, mtime: i64) -> (r:
    FileStatus)
    requires
        snapshot_wf(snapshot),
    ensures
        r == status_for(snapshot_view(snapshot), key@, size, mtime),
{
    match snapshot {
        None => FileStatus::New,
        Some(ix) => match ix.get(key) {
            None => FileStatus::New,
            Some(rec) => if rec.size == size && rec.mtime == mtime {
                FileStatus::Unchanged
            } else {
                FileStatus::Modified
            },
        },
    }
}

/// Snapshot paths that were not seen, in snapshot order.
pub open spec fn missing_paths(s: Seq<FileRecord>, seen: Seq<Seq<char>>) -> Seq<Seq<char>>
    decreases s.len(),
{
    if s.len() == 0 {
        Seq::empty()
    } else {
        let rest = missing_paths(s.drop_last(), seen);
        if seen.contains(s.last().path@) {
            rest
        } else {
            rest.push(s.last().path@)
        }
    }
}

/// A snapshot path is missing exactly when it was not seen, and no missing
/// path is listed twice.
pub proof fn lemma_missing_paths(s: Seq<FileRecord>, seen: Seq<Seq<char>>)
    requires
        paths_unique(s),
    ensures
        missing_paths(s, seen).no_duplicates(),
        forall|p: Seq<char>|
            #[trigger] missing_paths(s, seen).contains(p) <==> (has_path(s, p) && !seen.contains(p)),
    decreases s.len(),
{
    if s.len() > 0 {
        let t = s.drop_last();
        assert(paths_unique(t));
        lemma_missing_paths(t, seen);
        let x = s.last();
        assert forall|p: Seq<char>| has_path(s, p) <==> (has_path(t, p) || p == x.path@) by {
            if has_path(s, p) {
                let k = choose|k: int| 0 <= k < s.len() && #[trigger] s[k].path@ == p;
                if k < t.len() {
                    assert(t[k].path@ == p);
                }
            }
            if has_path(t, p) {
                let k = choose|k: int| 0 <= k < t.len() && #[trigger] t[k].path@ == p;
                assert(s[k].path@ == p);
            }
            if p == x.path@ {
                assert(s[s.len() - 1].path@ == p);
            }
        }
        assert(!has_path(t, x.path@)) by {
            if has_path(t, x.path@) {
                let k = choose|k: int| 0 <= k < t.len() && #[trigger] t[k].path@ == x.path@;
                assert(s[k].path@ == s[s.len() - 1].path@);
            }
        }
        if !seen.contains(x.path@) {
            let m = missing_paths(t, seen);
            assert forall|i: int, j: int|
                0 <= i < m.push(x.path@).len() && 0 <= j < m.push(x.path@).len() && i != j
                    implies m.push(x.path@)[i] != m.push(x.path@)[j] by {
                if i == m.len() {
                    assert(m.contains(m[j]));
                } else if j == m.len() {
                    assert(m.contains(m[i]));
                }
            }
            assert forall|p: Seq<char>| #[trigger] m.push(x.path@).contains(p) <==> (has_path(s, p)
                && !seen.contains(p)) by {
                if m.push(x.path@).contains(p) && p != x.path@ {
                    let k = choose|k: int| 0 <= k < m.push(x.path@).len() && m.push(x.path@)[k] == p;
                    assert(m[k] == p);
                }
                if m.contains(p) {
                    let k = choose|k: int| 0 <= k < m.len() && m[k] == p;
                    assert(m.push(x.path@)[k] == p);
                }
                if p == x.path@ {
                    assert(m.push(x.path@)[m.len() as int] == p);
                }
            }
        }
    }
}

/// What to do with a regular file the walk reports.
#[derive(Debug, Clone, Copy, PartialEq, Eq, Structural)]
pub enum FileDecision {
    /// Its extension is not allowed: ignore it entirely.
    Skip,
    /// Same size and modification time as indexed: counted, not read.
    Unchanged,
    /// Read its metadata (and fingerprint), then record it with this status.
    Process(FileStatus),
}

/// The decision for a file with extension `ext` (any letter case) and index
/// key `key`.
pub open spec fn decision_for(
    config: ScanConfig,
    snapshot: Option<Seq<FileRecord>>,
    ext: Seq<char>,
    key: Seq<char>,
    size: u64,
    mtime: i64,
) -> FileDecision {
    if !config.includes_spec(lower_of(ext)) {
        FileDecision::Skip
    } else {
        let st = status_for(snapshot, key, size, mtime);
        if st == FileStatus::Unchanged {
            FileDecision::Unchanged
        } else {
            FileDecision::Process(st)
        }
    }
}

/// One more, unless the count is already at its largest value.
pub open spec fn bump(x: u64) -> u64 {
    if x < u64::MAX {
        (x + 1) as u64
    } else {
        x
    }
}

fn bump_count(x: u64) -> (r: u64)
    ensures
        r == bump(x),
{
    if x < u64::MAX {
        x + 1
    } else {
        x
    }
}

/// What `enter_directory` makes of `v` for a directory with that name and path.
pub open spec fn dir_step(
    config: ScanConfig,
    v: ScanStateView,
    name: Option<Seq<char>>,
    path: Seq<char>,
) -> ScanStateView {
    let descend = match name {
        Some(n) => !config.ignores_spec(n),
        None => true,
    };
    if descend {
        ScanStateView { total_dirs: bump(v.total_dirs), current_dir: path, ..v }
    } else {
        v
    }
}

/// What `observe_file` makes of `v` for a regular file: it is marked as seen,
/// and counted as unchanged when its decision says so.
pub open spec fn observe_step(
    config: ScanConfig,
    snapshot: Option<Seq<FileRecord>>,
    v: ScanStateView,
    path: Seq<char>,
    ext: Seq<char>,
    size: u64,
    mtime: i64,
) -> ScanStateView {
    let v1 = ScanStateView { seen: v.seen.push(forward_slashes(path)), ..v };
    if decision_for(config, snapshot, ext, forward_slashes(path), size, mtime)
        == FileDecision::Unchanged {
        ScanStateView {
            total_files: bump(v.total_files),
            unchanged_files: bump(v.unchanged_files),
            ..v1
        }
    } else {
        v1
    }
}

/// What `record_file` makes of `v` for a file read with the given status.
pub open spec fn record_step(v: ScanStateView, file: ScannedFile, status: FileStatus) -> ScanStateView {
    ScanStateView {
        total_files: bump(v.total_files),
        new_files: if status == FileStatus::New {
            bump(v.new_files)
        } else {
            v.new_files
        },
        modified_files: if status == FileStatus::Modified {
            bump(v.modified_files)
        } else {
            v.modified_files
        },
        video_count: if file.media_type == MediaType::Video {
            bump(v.video_count)
        } else {
            v.video_count
        },
        image_count: if file.media_type == MediaType::Image {
            bump(v.image_count)
        } else {
            v.image_count
        },
        audio_count: if file.media_type == MediaType::Audio {
            bump(v.audio_count)
        } else {
            v.audio_count
        },
        files: v.files.push(ScannedFile { status, ..file }),
        seen: v.seen.push(key_of(file)),
        ..v
    }
}

/// One thing the walk reports, with, for a regular file, the file as it is
/// read when its decision asks for that.
pub enum WalkStep {
    /// A directory, with its name when it has one.
    Dir { name: Option<Seq<char>>, path: Seq<char> },
    /// A regular file with its extension, size and modification time.
    File { path: Seq<char>, ext: Seq<char>, size: u64, mtime: i64, read: ScannedFile },
    /// A regular file whose metadata could not be read.
    Unreadable { path: Seq<char> },
    /// An entry that could not be listed.
    Failure { error: ScanError },
}

/// One step of a scan, as the methods of `ScanState` take it: a regular file
/// goes through `observe_file` and, when its decision is `Process`, through
/// `record_file` with that status; an unreadable one through `mark_seen`; a
/// failure through `record_error`.
pub open spec fn walk_step(
    config: ScanConfig,
    snapshot: Option<Seq<FileRecord>>,
    v: ScanStateView,
    step: WalkStep,
) -> ScanStateView {
    match step {
        WalkStep::Dir { name, path } => dir_step(config, v, name, path),
        WalkStep::File { path, ext, size, mtime, read } => {
            let v1 = observe_step(config, snapshot, v, path, ext, size, mtime);
            match decision_for(config, snapshot, ext, forward_slashes(path), size, mtime) {
                FileDecision::Process(st) => record_step(v1, read, st),
                _ => v1,
            }
        },
        WalkStep::Unreadable { path } => ScanStateView {
            seen: v.seen.push(forward_slashes(path)),
            ..v
        },
        WalkStep::Failure { error } => ScanStateView { errors: v.errors.push(error), ..v },
    }
}

/// The state after the steps of a walk, in order.
pub open spec fn walk(
    config: ScanConfig,
    snapshot: Option<Seq<FileRecord>>,
    v: ScanStateView,
    steps: Seq<WalkStep>,
) -> ScanStateView
    decreases steps.len(),
{
    if steps.len() == 0 {
        v
    } else {
        walk_step(config, snapshot, walk(config, snapshot, v, steps.drop_last()), steps.last())
    }
}

/// The state of a scan that has seen nothing.
pub open spec fn is_fresh(v: ScanStateView) -> bool {
    &&& v.total_files == 0
    &&& v.total_dirs == 0
    &&& v.new_files == 0
    &&& v.modified_files == 0
    &&& v.unchanged_files == 0
    &&& v.video_count == 0
    &&& v.image_count == 0
    &&& v.audio_count == 0
    &&& v.current_dir.len() == 0
    &&& v.files.len() == 0
    &&& v.seen.len() == 0
    &&& v.errors.len() == 0
}

/// The state of a scan as data.
pub struct ScanStateView {
    pub total_files: u64,
    pub total_dirs: u64,
    pub new_files: u64,
    pub modified_files: u64,
    pub unchanged_files: u64,
    pub video_count: u64,
    pub image_count: u64,
    pub audio_count: u64,
    pub current_dir: Seq<char>,
    pub files: Seq<ScannedFile>,
    pub seen: Seq<Seq<char>>,
    pub errors: Seq<ScanError>,
}

/// Accumulated counts, observed paths, recorded files and errors of one scan.
pub struct ScanState {
    total_files: u64,
    total_dirs: u64,
    new_files: u64,
    modified_files: u64,
    unchanged_files: u64,
    video_count: u64,
    image_count: u64,
    audio_count: u64,
    current_dir: String,
    files: Vec<ScannedFile>,
    seen: Vec<String>,
    errors: Vec<ScanError>,
}

impl View for ScanState {
    type V = ScanStateView;

    closed spec fn view(&self) -> ScanStateView {
        ScanStateView {
            total_files: self.total_files,
            total_dirs: self.total_dirs,
            new_files: self.new_files,
            modified_files: self.modified_files,
            unchanged_files: self.unchanged_files,
            video_count: self.video_count,
            image_count: self.image_count,
            audio_count: self.audio_count,
            current_dir: self.current_dir@,
            files: self.files@,
            seen: views_of(self.seen@),
            errors: self.errors@,
        }
    }
}

/// The index key of every recorded file with a path was seen.
pub open spec fn files_seen(v: ScanStateView) -> bool {
    forall|i: int|
        0 <= i < v.files.len() && (#[trigger] v.files[i]).path is Some ==> v.seen.contains(
            forward_slashes(v.files[i].path->0@),
        )
}

impl ScanState {
    pub open spec fn wf(&self) -> bool {
        files_seen(self@)
    }

    /// A scan that has seen nothing yet.
    pub fn new() -> (r: ScanState)
        ensures
            r.wf(),
            r@.total_files == 0,
            r@.total_dirs == 0,
            r@.new_files == 0,
            r@.modified_files == 0,
            r@.unchanged_files == 0,
            r@.video_count == 0,
            r@.image_count == 0,
            r@.audio_count == 0,
            r@.current_dir.len() == 0,
            r@.files.len() == 0,
            r@.seen.len() == 0,
            r@.errors.len() == 0,
            is_fresh(r@),
    {
        let r = ScanState {
            total_files: 0,
            total_dirs: 0,
            new_files: 0,
            modified_files: 0,
            unchanged_files: 0,
            video_count: 0,
            image_count: 0,
            audio_count: 0,
            current_dir: String::new(),
            files: Vec::new(),
            seen: Vec::new(),
            errors: Vec::new(),
        };
        assert(r@.seen =~= Seq::empty());
        r
    }

    /// A directory the walk reached, with its name when it has one. An ignored
    /// directory is not counted and `false` says not to descend into it;
    /// otherwise it is counted, becomes the current directory, and `true` says
    /// to descend.
    pub fn enter_directory(&mut self, config: &ScanConfig, name: Option<&str>, path: String) -> (r:
        bool)
        requires
            old(self).wf(),
        ensures
            final(self).wf(),
            r == match name {
                Some(n) => !config.ignores_spec(n@),
                None => true,
            },
            r ==> final(self)@ == (ScanStateView {
                total_dirs: bump(old(self)@.total_dirs),
                current_dir: path@,
                ..old(self)@
            }),
            !r ==> final(self)@ == old(self)@,
            final(self)@ == dir_step(
                *config,
                old(self)@,
                match name {
                    Some(n) => Some(n@),
                    None => None,
                },
                path@,
            ),
    {
        if let Some(n) = name {
            if config.should_ignore_dir(n) {
                return false;
            }
        }
        self.total_dirs = bump_count(self.total_dirs);
        self.current_dir = path;
        true
    }

    /// A regular file the walk reached but could not read: it is marked as
    /// seen, so that it is not reported deleted, and nothing is counted.
    pub fn mark_seen(&mut self, path: &str)
        requires
            old(self).wf(),
        ensures
            final(self).wf(),
            final(self)@ == (ScanStateView {
                seen: old(self)@.seen.push(forward_slashes(path@)),
                ..old(self)@
            }),
    {
        let key = normalize_path(path);
        let ghost s0 = self@;
        self.seen.push(key);
        proof {
            assert(views_of(self.seen@) =~= s0.seen.push(forward_slashes(path@)));
            assert forall|i: int| 0 <= i < self@.files.len() && (#[trigger] self@.files[i]).path is Some
                implies self@.seen.contains(forward_slashes(self@.files[i].path->0@)) by {
                let p = forward_slashes(self@.files[i].path->0@);
                let k = choose|k: int| 0 <= k < s0.seen.len() && s0.seen[k] == p;
                assert(self@.seen[k] == p);
            }
        }
    }

    /// A regular file the walk reached. Every such file is marked as seen.
    /// Files whose extension is not allowed are then skipped and counted
    /// nowhere; an unchanged one is counted here. For `Process`, the caller
    /// reads the file and hands it to `record_file` with the given status.
    pub fn observe_file(
        &mut self,
        config: &ScanConfig,
        snapshot: Option<&FileIndex>,
        path: &str,
        extension: &str,
        size: u64,
        mtime: i64,
    ) -> (r: FileDecision)
        requires
            old(self).wf(),
            snapshot_wf(snapshot),
        ensures
            final(self).wf(),
            r == decision_for(
                *config,
                snapshot_view(snapshot),
                extension@,
                forward_slashes(path@),
                size,
                mtime,
            ),
            r == FileDecision::Skip ==> final(self)@ == (ScanStateView {
                seen: old(self)@.seen.push(forward_slashes(path@)),
                ..old(self)@
            }),
            r == FileDecision::Unchanged ==> final(self)@ == (ScanStateView {
                total_files: bump(old(self)@.total_files),
                unchanged_files: bump(old(self)@.unchanged_files),
                seen: old(self)@.seen.push(forward_slashes(path@)),
                ..old(self)@
            }),
            r is Process ==> final(self)@ == (ScanStateView {
                seen: old(self)@.seen.push(forward_slashes(path@)),
                ..old(self)@
            }),
            r is Process ==> (r->Process_0 == FileStatus::New || r->Process_0 == FileStatus::Modified),
            final(self)@ == observe_step(
                *config,
                snapshot_view(snapshot),
                old(self)@,
                path@,
                extension@,
                size,
                mtime,
            ),
    {
        self.mark_seen(path);
        if !config.should_include_extension(extension) {
            return FileDecision::Skip;
        }
        let key = normalize_path(path);
        let status = classify(snapshot, &key, size, mtime);
        match status {
            FileStatus::Unchanged => {
                self.total_files = bump_count(self.total_files);
                self.unchanged_files = bump_count(self.unchanged_files);
                FileDecision::Unchanged
            },
            _ => FileDecision::Process(status),
        }
    }

    /// Record a file that was read, with the status its decision gave. It goes
    /// to the result's file list and is counted by status and category.
    pub fn record_file(&mut self, file: ScannedFile, status: FileStatus)
        requires
            old(self).wf(),
            status == FileStatus::New || status == FileStatus::Modified,
        ensures
            final(self).wf(),
            final(self)@ == record_step(old(self)@, file, status),
    {
        let ghost s0 = self@;
        match status {
            FileStatus::New => { self.new_files = bump_count(self.new_files); },
            FileStatus::Modified => { self.modified_files = bump_count(self.modified_files); },
            _ => {},
        }
        match file.media_type {
            MediaType::Video => { self.video_count = bump_count(self.video_count); },
            MediaType::Image => { self.image_count = bump_count(self.image_count); },
            MediaType::Audio => { self.audio_count = bump_count(self.audio_count); },
            MediaType::Unknown => {},
        }
        self.total_files = bump_count(self.total_files);
        let file = file.with_status(status);
        let path = match &file.path {
            Some(p) => p.clone(),
            None => String::new(),
        };
        let key = normalize_path(path.as_str());
        proof {
            if file.path is None {
                assert(path@ =~= Seq::<char>::empty());
                assert(forward_slashes(path@) =~= Seq::<char>::empty());
            }
        }
        self.seen.push(key);
        self.files.push(file);
        proof {
            assert(views_of(self.seen@) =~= s0.seen.push(key@));
            assert forall|i: int| 0 <= i < self@.files.len() && (#[trigger] self@.files[i]).path is Some
                implies self@.seen.contains(forward_slashes(self@.files[i].path->0@)) by {
                if i < s0.files.len() {
                    let p = forward_slashes(self@.files[i].path->0@);
                    let k = choose|k: int| 0 <= k < s0.seen.len() && s0.seen[k] == p;
                    assert(self@.seen[k] == p);
                } else {
                    assert(self@.seen[s0.seen.len() as int] == key@);
                }
            }
        }
    }

    /// Record a non-fatal error.
    pub fn record_error(&mut self, error: ScanError)
        requires
            old(self).wf(),
        ensures
            final(self).wf(),
            final(self)@ == (ScanStateView { errors: old(self)@.errors.push(error), ..old(self)@ }),
    {
        self.errors.push(error);
    }

    /// The counts so far, for a progress event.
    pub fn progress(&self, elapsed_ms: u64) -> (r: ScanProgress)
        ensures
            r.scanned_files == self@.total_files,
            r.scanned_dirs == self@.total_dirs,
            r.video_count == self@.video_count,
            r.image_count == self@.image_count,
            r.audio_count == self@.audio_count,
            r.current_dir@ == self@.current_dir,
            r.elapsed_ms == elapsed_ms,
    {
        ScanProgress {
            scanned_files: self.total_files,
            scanned_dirs: self.total_dirs,
            video_count: self.video_count,
            image_count: self.image_count,
            audio_count: self.audio_count,
            current_dir: self.current_dir.clone(),
            elapsed_ms,
        }
    }

    /// Snapshot paths that this scan has not seen, in snapshot order.
    fn deleted_paths(&self, snapshot: &FileIndex) -> (r: Vec<String>)
        ensures
            views_of(r@) == missing_paths(snapshot@, self@.seen),
    {
        let records = snapshot.records();
        let mut out: Vec<String> = Vec::new();
        let mut i: usize = 0;
        while i < records.len()
            invariant
                i <= records@.len(),
                records@ == snapshot@,
                views_of(out@) == missing_paths(records@.subrange(0, i as int), self@.seen),
            decreases records@.len() - i,
        {
            let ghost before = out@;
            let path = &records[i].path;
            let seen = contains_text(&self.seen, path.as_str());
            assert(records@.subrange(0, i + 1).drop_last() =~= records@.subrange(0, i as int));
            if !seen {
                out.push(path.clone());
                assert(views_of(out@) =~= views_of(before).push(path@));
            }
            i = i + 1;
        }
        assert(records@.subrange(0, records@.len() as int) =~= records@);
        out
    }

    /// The result of the scan. With a snapshot, every snapshot path that was
    /// not seen is reported deleted, once.
    pub fn finish(self, snapshot: Option<&FileIndex>, duration_ms: u64) -> (r: ScanResult)
        requires
            self.wf(),
        ensures
            r.total_files == self@.total_files,
            r.total_dirs == self@.total_dirs,
            r.new_files == self@.new_files,
            r.modified_files == self@.modified_files,
            r.unchanged_files == self@.unchanged_files,
            r.files@ == self@.files,
            views_of(r.deleted_paths@) == match snapshot {
                Some(ix) => missing_paths(ix@, self@.seen),
                None => Seq::<Seq<char>>::empty(),
            },
            r.deleted_files == r.deleted_paths@.len(),
            r.errors@ == self@.errors,
            r.duration_ms == duration_ms,
    {
        let deleted_paths = match snapshot {
            Some(ix) => self.deleted_paths(ix),
            None => Vec::new(),
        };
        proof {
            if snapshot is None {
                assert(views_of(deleted_paths@) =~= Seq::<Seq<char>>::empty());
            }
        }
        let deleted_files = deleted_paths.len() as u64;
        ScanResult {
            total_files: self.total_files,
            total_dirs: self.total_dirs,
            new_files: self.new_files,
            modified_files: self.modified_files,
            unchanged_files: self.unchanged_files,
            deleted_files,
            files: self.files,
            deleted_paths,
            errors: self.errors,
            duration_ms,
        }
    }
}

/// After a change to the tree: a file whose size and modification time match
/// its record is unchanged, one whose size differs is modified, one missing
/// from the snapshot is new, and when every snapshot path was seen again
/// nothing is deleted.
pub proof fn lemma_incremental_classification(
    s: Seq<FileRecord>,
    seen: Seq<Seq<char>>,
    a: int,
    b: int,
    b_size: u64,
    b_mtime: i64,
    c: Seq<char>,
    c_size: u64,
    c_mtime: i64,
)
    requires
        paths_unique(s),
        0 <= a < s.len(),
        0 <= b < s.len(),
        b_size != s[b].size,
        !has_path(s, c),
        forall|i: int| 0 <= i < s.len() ==> seen.contains(#[trigger] s[i].path@),
    ensures
        status_for(Some(s), s[a].path@, s[a].size, s[a].mtime) == FileStatus::Unchanged,
        status_for(Some(s), s[b].path@, b_size, b_mtime) == FileStatus::Modified,
        status_for(Some(s), c, c_size, c_mtime) == FileStatus::New,
        missing_paths(s, seen).len() == 0,
{
    lemma_lookup_at(s, a);
    lemma_lookup_at(s, b);
    lemma_missing_paths(s, seen);
    let m = missing_paths(s, seen);
    if m.len() > 0 {
        assert(m.contains(m[0]));
        let k = choose|k: int| 0 <= k < s.len() && #[trigger] s[k].path@ == m[0];
        assert(seen.contains(s[k].path@));
    }
}

/// A snapshot path that the scan did not see is reported deleted exactly
/// once, and no recorded file carries it.
pub proof fn lemma_deletion_detected(s: Seq<FileRecord>, v: ScanStateView, d: Seq<char>)
    requires
        paths_unique(s),
        has_path(s, d),
        !v.seen.contains(d),
        files_seen(v),
    ensures
        missing_paths(s, v.seen).contains(d),
        missing_paths(s, v.seen).no_duplicates(),
        forall|i: int|
            0 <= i < v.files.len() && (#[trigger] v.files[i]).path is Some ==> forward_slashes(
                v.files[i].path->0@,
            ) != d,
{
    lemma_missing_paths(s, v.seen);
}

/// Without a snapshot every allowed file is new and nothing else: the outcome
/// for a file depends on its extension alone, so two full scans of the same
/// tree classify every file alike.
pub proof fn lemma_full_scan_stable(
    config: ScanConfig,
    ext: Seq<char>,
    key1: Seq<char>,
    size1: u64,
    mtime1: i64,
    key2: Seq<char>,
    size2: u64,
    mtime2: i64,
)
    ensures
        decision_for(config, None, ext, key1, size1, mtime1) == decision_for(
            config,
            None,
            ext,
            key2,
            size2,
            mtime2,
        ),
        decision_for(config, None, ext, key1, size1, mtime1) == if config.includes_spec(
            lower_of(ext),
        ) {
            FileDecision::Process(FileStatus::New)
        } else {
            FileDecision::Skip
        },
{
}

/// A file whose extension is outside a non-empty allow-list is skipped
/// (and `observe_file` then only marks it as seen, counting it nowhere); a directory named
/// `.git`, or named on the ignore list, is pruned (and `enter_directory` then
/// neither counts nor descends into it).
pub proof fn lemma_filtering(
    config: ScanConfig,
    snapshot: Option<Seq<FileRecord>>,
    ext: Seq<char>,
    key: Seq<char>,
    size: u64,
    mtime: i64,
    dir: Seq<char>,
)
    requires
        config.extensions@.len() > 0,
        !lowered_views(config.extensions@).contains(lower_of(ext)),
        views_of(config.ignore_dirs@).contains(dir),
    ensures
        decision_for(config, snapshot, ext, key, size, mtime) == FileDecision::Skip,
        config.ignores_spec(".git"@),
        config.ignores_spec(dir),
{
    reveal_strlit(".git");
}

proof fn lemma_full_scan_counts(config: ScanConfig, v0: ScanStateView, steps: Seq<WalkStep>)
    requires
        v0.modified_files == 0,
        v0.unchanged_files == 0,
        v0.new_files == v0.total_files,
    ensures
        walk(config, None, v0, steps).modified_files == 0,
        walk(config, None, v0, steps).unchanged_files == 0,
        walk(config, None, v0, steps).new_files == walk(config, None, v0, steps).total_files,
    decreases steps.len(),
{
    if steps.len() > 0 {
        lemma_full_scan_counts(config, v0, steps.drop_last());
    }
}

/// Two full scans (no snapshot) that start fresh and see the same walk end in
/// the same state, hence with the same counts; and in a full scan every
/// counted file is new, none modified or unchanged.
pub proof fn lemma_full_scan_repeatable(
    config: ScanConfig,
    steps: Seq<WalkStep>,
    v0: ScanStateView,
    v1: ScanStateView,
)
    requires
        is_fresh(v0),
        is_fresh(v1),
    ensures
        walk(config, None, v0, steps) == walk(config, None, v1, steps),
        walk(config, None, v0, steps).modified_files == 0,
        walk(config, None, v0, steps).unchanged_files == 0,
        walk(config, None, v0, steps).new_files == walk(config, None, v0, steps).total_files,
{
    assert(v0.current_dir =~= v1.current_dir);
    assert(v0.files =~= v1.files);
    assert(v0.seen =~= v1.seen);
    assert(v0.errors =~= v1.errors);
    assert(v0 == v1);
    lemma_full_scan_counts(config, v0, steps);
}

/// An incremental scan from a fresh state over files A (size and
/// modification time as indexed), B (size changed) and C (not indexed), all
/// allowed, against a snapshot of A and B: A is counted unchanged and not
/// listed, B is listed as modified, C as new, and no snapshot path is missing.
pub proof fn lemma_incremental_scan(
    config: ScanConfig,
    s: Seq<FileRecord>,
    v0: ScanStateView,
    a: WalkStep,
    b: WalkStep,
    c: WalkStep,
    ia: int,
    ib: int,
)
    requires
        is_fresh(v0),
        paths_unique(s),
        0 <= ia < s.len(),
        0 <= ib < s.len(),
        forall|i: int| 0 <= i < s.len() ==> #[trigger] s[i].path@ == s[ia].path@ || s[i].path@ == s[ib].path@,
        a is File && b is File && c is File,
        config.includes_spec(lower_of(a->File_ext)),
        config.includes_spec(lower_of(b->File_ext)),
        config.includes_spec(lower_of(c->File_ext)),
        forward_slashes(a->File_path) == s[ia].path@,
        a->File_size == s[ia].size,
        a->File_mtime == s[ia].mtime,
        forward_slashes(b->File_path) == s[ib].path@,
        b->File_size != s[ib].size,
        !has_path(s, forward_slashes(c->File_path)),
    ensures
        ({
            let v = walk(config, Some(s), v0, seq![a, b, c]);
            &&& v.total_files == 3
            &&& v.unchanged_files == 1
            &&& v.modified_files == 1
            &&& v.new_files == 1
            &&& v.files == seq![
                ScannedFile { status: FileStatus::Modified, ..b->File_read },
                ScannedFile { status: FileStatus::New, ..c->File_read },
            ]
            &&& missing_paths(s, v.seen).len() == 0
        }),
{
    lemma_incremental_classification(
        s,
        seq![s[ia].path@, s[ib].path@],
        ia,
        ib,
        b->File_size,
        b->File_mtime,
        forward_slashes(c->File_path),
        c->File_size,
        c->File_mtime,
    );
    let steps = seq![a, b, c];
    assert(steps.drop_last() =~= seq![a, b]);
    assert(seq![a, b].drop_last() =~= seq![a]);
    assert(seq![a].drop_last() =~= Seq::<WalkStep>::empty());
    assert(walk(config, Some(s), v0, Seq::<WalkStep>::empty()) == v0);
    let w1 = walk(config, Some(s), v0, seq![a]);
    let w2 = walk(config, Some(s), v0, seq![a, b]);
    let w3 = walk(config, Some(s), v0, steps);
    assert(w1 == walk_step(config, Some(s), v0, a));
    assert(w2 == walk_step(config, Some(s), w1, b));
    assert(w3 == walk_step(config, Some(s), w2, c));
    assert(decision_for(config, Some(s), a->File_ext, forward_slashes(a->File_path), a->File_size, a->File_mtime)
        == FileDecision::Unchanged);
    assert(decision_for(config, Some(s), b->File_ext, forward_slashes(b->File_path), b->File_size, b->File_mtime)
        == FileDecision::Process(FileStatus::Modified));
    assert(decision_for(config, Some(s), c->File_ext, forward_slashes(c->File_path), c->File_size, c->File_mtime)
        == FileDecision::Process(FileStatus::New));
    assert(w1.files =~= Seq::<ScannedFile>::empty());
    assert(w1.seen =~= seq![s[ia].path@]);
    assert(w3.files =~= seq![
        ScannedFile { status: FileStatus::Modified, ..b->File_read },
        ScannedFile { status: FileStatus::New, ..c->File_read },
    ]);
    assert(w3.seen.contains(s[ia].path@)) by {
        assert(w3.seen[0] == s[ia].path@);
    }
    assert(w3.seen.contains(s[ib].path@)) by {
        assert(w3.seen[1] == s[ib].path@);
    }
    lemma_missing_paths(s, w3.seen);
    if missing_paths(s, w3.seen).len() > 0 {
        let m = missing_paths(s, w3.seen);
        assert(m.contains(m[0]));
        let k = choose|k: int| 0 <= k < s.len() && #[trigger] s[k].path@ == m[0];
        assert(s[k].path@ == s[ia].path@ || s[k].path@ == s[ib].path@);
    }
}

} // verus!
