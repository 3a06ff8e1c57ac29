//! Core data of one scan: statuses, media categories, scanned files and results.

use vstd::prelude::*;
use crate::error::ScanError;
use crate::text::{contains_text, lower_of, str_eq, to_lower, views_of};

verus! {

/// Status of a file relative to the previous scan.
#[derive(Debug, Clone, Copy, PartialEq, Eq, Hash, Structural)]
pub enum FileStatus {
    /// Not present in the previous scan.
    New,
    /// Size or modification time changed.
    Modified,
    /// Same size and modification time as in the previous scan.
    Unchanged,
    /// Present in the previous scan, now missing.
    Deleted,
}

pub open spec fn status_char(s: FileStatus) -> char {
    match s {
        FileStatus::New => 'n',
        FileStatus::Modified => 'm',
        FileStatus::Unchanged => 'u',
        FileStatus::Deleted => 'd',
    }
}

pub open spec fn status_name(s: FileStatus) -> Seq<char> {
    match s {
        FileStatus::New => "new"@,
        FileStatus::Modified => "modified"@,
        FileStatus::Unchanged => "unchanged"@,
        FileStatus::Deleted => "deleted"@,
    }
}

impl FileStatus {
    /// One-letter code used by compact output.
    pub fn as_char(&self) -> (c: char)
        ensures
            c == status_char(*self),
    {
        match self {
            FileStatus::New => 'n',
            FileStatus::Modified => 'm',
            FileStatus::Unchanged => 'u',
            FileStatus::Deleted => 'd',
        }
    }

    /// Lowercase name of the status.
    pub fn as_str(&self) -> (r: &'static str)
        ensures
            r@ == status_name(*self),
    {
        match self {
            FileStatus::New => "new",
            FileStatus::Modified => "modified",
            FileStatus::Unchanged => "unchanged",
            FileStatus::Deleted => "deleted",
        }
    }
}

impl Default for FileStatus {
    fn default() -> (r: FileStatus)
        ensures
            r == FileStatus::New,
    {
        FileStatus::New
    }
}

/// Media category of a file, derived from its extension.
#[derive(Debug, Clone, Copy, PartialEq, Eq, Hash, Structural)]
pub enum MediaType {
    /// Video files (mp4, mkv, avi, ...).
    Video,
    /// Image files (jpg, png, webp, ...).
    Image,
    /// Audio files (mp3, flac, wav, ...).
    Audio,
    /// Anything else; still tracked.
    Unknown,
}

/// Lowercase extensions of video files.
pub open spec fn video_extensions() -> Seq<Seq<char>> {
    seq!["mp4"@, "mkv"@, "avi"@, "wmv"@, "flv"@, "mov"@, "webm"@, "m4v"@, "ts"@, "rmvb"@]
}

/// Lowercase extensions of image files.
pub open spec fn image_extensions() -> Seq<Seq<char>> {
    seq!["jpg"@, "jpeg"@, "png"@, "gif"@, "webp"@, "bmp"@, "tiff"@, "tif"@]
}

/// Lowercase extensions of audio files.
pub open spec fn audio_extensions() -> Seq<Seq<char>> {
    seq!["mp3"@, "flac"@, "wav"@, "aac"@, "ogg"@, "wma"@, "m4a"@]
}

/// Category of an already lowercased extension.
pub open spec fn media_type_for(e: Seq<char>) -> MediaType {
    if video_extensions().contains(e) {
        MediaType::Video
    } else if image_extensions().contains(e) {
        MediaType::Image
    } else if audio_extensions().contains(e) {
        MediaType::Audio
    } else {
        MediaType::Unknown
    }
}

pub open spec fn media_name(m: MediaType) -> Seq<char> {
    match m {
        MediaType::Video => "video"@,
        MediaType::Image => "image"@,
        MediaType::Audio => "audio"@,
        MediaType::Unknown => "unknown"@,
    }
}

pub open spec fn media_char(m: MediaType) -> char {
    match m {
        MediaType::Video => 'v',
        MediaType::Image => 'i',
        MediaType::Audio => 'a',
        MediaType::Unknown => 'u',
    }
}

/// Whether `e` is one of `list`, checked against each literal in turn.
fn is_listed(e: &str, list: &[&str]) -> (r: bool)
    ensures
        r == exists|i: int| 0 <= i < list@.len() && #[trigger] list@[i]@ == e@,
{
    let mut i: usize = 0;
    while i < list.len()
        invariant
            i <= list@.len(),
            forall|j: int| 0 <= j < i ==> #[trigger] list@[j]@ != e@,
        decreases list@.len() - i,
    {
        if str_eq(list[i], e) {
            return true;
        }
        i = i + 1;
    }
    false
}

impl MediaType {
    /// Category of an extension that is already lowercase.
    pub fn from_lowercase(ext: &str) -> (r: MediaType)
        ensures
            r == media_type_for(ext@),
    {
        let video = ["mp4", "mkv", "avi", "wmv", "flv", "mov", "webm", "m4v", "ts", "rmvb"];
        let image = ["jpg", "jpeg", "png", "gif", "webp", "bmp", "tiff", "tif"];
        let audio = ["mp3", "flac", "wav", "aac", "ogg", "wma", "m4a"];
        assert(video@.map_values(|s: &str| s@) =~= video_extensions());
        assert(image@.map_values(|s: &str| s@) =~= image_extensions());
        assert(audio@.map_values(|s: &str| s@) =~= audio_extensions());
        let is_video = is_listed(ext, &video);
        proof { lemma_listed(video@, video_extensions(), ext@); }
        if is_video {
            return MediaType::Video;
        }
        let is_image = is_listed(ext, &image);
        proof { lemma_listed(image@, image_extensions(), ext@); }
        if is_image {
            return MediaType::Image;
        }
        let is_audio = is_listed(ext, &audio);
        proof { lemma_listed(audio@, audio_extensions(), ext@); }
        if is_audio {
            MediaType::Audio
        } else {
            MediaType::Unknown
        }
    }

    /// Category of an extension, in any letter case.
    pub fn from_extension(ext: &str) -> (r: MediaType)
        ensures
            r == media_type_for(lower_of(ext@)),
    {
        let lowered = to_lower(ext);
        MediaType::from_lowercase(lowered.as_str())
    }

    /// Lowercase name of the category.
    pub fn as_str(&self) -> (r: &'static str)
        ensures
            r@ == media_name(*self),
    {
        match self {
            MediaType::Video => "video",
            MediaType::Image => "image",
            MediaType::Audio => "audio",
            MediaType::Unknown => "unknown",
        }
    }

    /// One-letter code used by compact output.
    pub fn as_char(&self) -> (c: char)
        ensures
            c == media_char(*self),
    {
        match self {
            MediaType::Video => 'v',
            MediaType::Image => 'i',
            MediaType::Audio => 'a',
            MediaType::Unknown => 'u',
        }
    }
}

proof fn lemma_listed(list: Seq<&str>, views: Seq<Seq<char>>, e: Seq<char>)
    requires
        list.map_values(|s: &str| s@) == views,
    ensures
        views.contains(e) == exists|i: int| 0 <= i < list.len() && #[trigger] list[i]@ == e,
{
    if views.contains(e) {
        let i = choose|i: int| 0 <= i < views.len() && views[i] == e;
        assert(list[i]@ == e);
    }
    if exists|i: int| 0 <= i < list.len() && #[trigger] list[i]@ == e {
        let i = choose|i: int| 0 <= i < list.len() && #[trigger] list[i]@ == e;
        assert(views[i] == e);
    }
}


/// One file observed during a scan.
#[derive(Debug, Clone)]
pub struct ScannedFile {
    /// Full path to the file.
    pub path: Option<String>,
    /// File name without its directory.
    pub name: String,
    /// Size in bytes.
    pub size: u64,
    /// Modification time, seconds since the epoch.
    pub mtime: i64,
    /// Creation time, seconds since the epoch.
    pub ctime: i64,
    /// Lowercase extension, without the dot.
    pub extension: String,
    /// Category inferred from the extension.
    pub media_type: MediaType,
    /// Content fingerprint, when one was computed.
    pub hash: Option<String>,
    /// Whether the fingerprint covers only the head and tail of the file.
    pub is_partial_hash: bool,
    /// Status relative to the previous scan.
    pub status: FileStatus,
}

impl ScannedFile {
    /// A newly observed file: category from the extension, no fingerprint, status new.
    pub fn new(
        path: String,
        name: String,
        size: u64,
        mtime: i64,
        ctime: i64,
        extension: String,
    ) -> (r: ScannedFile)
        ensures
            r.path == Some(path),
            r.name == name,
            r.size == size,
            r.mtime == mtime,
            r.ctime == ctime,
            r.extension == extension,
            r.media_type == media_type_for(lower_of(extension@)),
            r.hash.is_none(),
            !r.is_partial_hash,
            r.status == FileStatus::New,
    {
        let media_type = MediaType::from_extension(extension.as_str());
        ScannedFile {
            path: Some(path),
            name,
            size,
            mtime,
            ctime,
            extension,
            media_type,
            hash: None,
            is_partial_hash: false,
            status: FileStatus::New,
        }
    }

    /// The same file with a fingerprint.
    pub fn with_hash(self, hash: String, is_partial: bool) -> (r: ScannedFile)
        ensures
            r == (ScannedFile { hash: Some(hash), is_partial_hash: is_partial, ..self }),
    {
        ScannedFile { hash: Some(hash), is_partial_hash: is_partial, ..self }
    }

    /// The same file with another status.
    pub fn with_status(self, status: FileStatus) -> (r: ScannedFile)
        ensures
            r == (ScannedFile { status, ..self }),
    {
        ScannedFile { status, ..self }
    }

    /// The full path, if known.
    pub fn full_path(&self) -> (r: Option<&String>)
        ensures
            r == match self.path {
                Some(p) => Some(&p),
                None => None::<&String>,
            },
    {
        match &self.path {
            Some(p) => Some(p),
            None => None,
        }
    }
}

/// Files of one directory, in compact form.
#[derive(Debug, Clone)]
pub struct ScannedDirectory {
    /// Directory path.
    pub path: String,
    /// Files in this directory.
    pub files: Vec<CompactFile>,
}

/// A file without its directory, with one-letter codes.
#[derive(Debug, Clone)]
pub struct CompactFile {
    /// File name only.
    pub name: String,
    /// Size in bytes.
    pub size: u64,
    /// Modification time, seconds since the epoch.
    pub mtime: i64,
    /// Category code: v, i, a or u.
    pub media_type: char,
    /// Status code: n, m, u or d.
    pub status: char,
    /// Content fingerprint, if any.
    pub hash: Option<String>,
}

impl CompactFile {
    /// Compact form of a scanned file.
    pub fn from_scanned(file: &ScannedFile) -> (r: CompactFile)
        ensures
            r.name == file.name,
            r.size == file.size,
            r.mtime == file.mtime,
            r.media_type == media_char(file.media_type),
            r.status == status_char(file.status),
            r.hash == file.hash,
    {
        let hash = match &file.hash {
            Some(h) => Some(h.clone()),
            None => None,
        };
        CompactFile {
            name: file.name.clone(),
            size: file.size,
            mtime: file.mtime,
            media_type: file.media_type.as_char(),
            status: file.status.as_char(),
            hash,
        }
    }
}

/// What `std::path::Path::parent` makes of a path's text (the empty text
/// when the path has no parent).
pub uninterp spec fn parent_text(p: Seq<char>) -> Seq<char>;

/// Relies on `std::path::Path::parent`: the path without its last component,
/// or nothing for a root or an empty path; it depends on the text alone.
#[verifier::external_body]
fn parent_dir(path: &str) -> (r: String)
    ensures
        r@ == parent_text(path@),
{
    std::path::Path::new(path).parent().map(|p| p.to_string_lossy().to_string()).unwrap_or_default()
}

/// `c` is the compact form of `f`.
pub open spec fn compact_of(c: CompactFile, f: ScannedFile) -> bool {
    &&& c.name == f.name
    &&& c.size == f.size
    &&& c.mtime == f.mtime
    &&& c.media_type == media_char(f.media_type)
    &&& c.status == status_char(f.status)
    &&& c.hash == f.hash
}

/// Whether `f` has a path whose directory is `dir`.
pub open spec fn in_dir(f: ScannedFile, dir: Seq<char>) -> bool {
    f.path is Some && parent_text(f.path->0@) == dir
}

/// The files of `fs` in directory `dir`, in order.
pub open spec fn members(fs: Seq<ScannedFile>, dir: Seq<char>) -> Seq<ScannedFile>
    decreases fs.len(),
{
    if fs.len() == 0 {
        Seq::empty()
    } else {
        let rest = members(fs.drop_last(), dir);
        if in_dir(fs.last(), dir) {
            rest.push(fs.last())
        } else {
            rest
        }
    }
}

impl ScannedDirectory {
    /// The files that have a path, grouped by directory: one entry per
    /// directory in order of first appearance, each holding the compact form of
    /// its files in order.
    pub fn group(files: &Vec<ScannedFile>) -> (r: Vec<ScannedDirectory>)
        ensures
            forall|d: int, e: int|
                0 <= d < r@.len() && 0 <= e < r@.len() && d != e ==> #[trigger] r@[d].path@
                    != #[trigger] r@[e].path@,
            forall|i: int|
                0 <= i < files@.len() && (#[trigger] files@[i]).path is Some ==> exists|d: int|
                    0 <= d < r@.len() && #[trigger] r@[d].path@ == parent_text(files@[i].path->0@),
            forall|d: int|
                0 <= d < r@.len() ==> (#[trigger] r@[d]).files@.len() == members(
                    files@,
                    r@[d].path@,
                ).len(),
            forall|d: int, k: int|
                0 <= d < r@.len() && 0 <= k < r@[d].files@.len() ==> compact_of(
                    #[trigger] r@[d].files@[k],
                    members(files@, r@[d].path@)[k],
                ),
    {
        let mut parents: Vec<Option<String>> = Vec::new();
        let mut i: usize = 0;
        while i < files.len()
            invariant
                i <= files@.len(),
                parents@.len() == i,
                forall|j: int|
                    0 <= j < i ==> match #[trigger] parents@[j] {
                        Some(p) => files@[j].path is Some && p@ == parent_text(files@[j].path->0@),
                        None => files@[j].path is None,
                    },
            decreases files@.len() - i,
        {
            let parent = match &files[i].path {
                Some(p) => Some(parent_dir(p.as_str())),
                None => None,
            };
            parents.push(parent);
            i = i + 1;
        }
        let mut dirs: Vec<String> = Vec::new();
        let mut i: usize = 0;
        while i < files.len()
            invariant
                i <= files@.len(),
                parents@.len() == files@.len(),
                forall|j: int|
                    0 <= j < files@.len() ==> match #[trigger] parents@[j] {
                        Some(p) => files@[j].path is Some && p@ == parent_text(files@[j].path->0@),
                        None => files@[j].path is None,
                    },
                forall|d: int, e: int|
                    0 <= d < dirs@.len() && 0 <= e < dirs@.len() && d != e ==> #[trigger] dirs@[d]@
                        != #[trigger] dirs@[e]@,
                forall|j: int|
                    0 <= j < i && (#[trigger] files@[j]).path is Some ==> views_of(dirs@).contains(
                        parent_text(files@[j].path->0@),
                    ),
            decreases files@.len() - i,
        {
            let ghost f = files@[i as int];
            if let Some(p) = &parents[i] {
                if !contains_text(&dirs, p.as_str()) {
                    let ghost before = dirs@;
                    dirs.push(p.clone());
                    proof {
                        assert(views_of(dirs@) == views_of(before).push(p@));
                        assert forall|j: int|
                            0 <= j < i + 1 && (#[trigger] files@[j]).path is Some implies views_of(
                                dirs@,
                            ).contains(parent_text(files@[j].path->0@)) by {
                            if j < i {
                                let q = parent_text(files@[j].path->0@);
                                let k = choose|k: int| 0 <= k < views_of(before).len() && views_of(before)[k] == q;
                                assert(views_of(dirs@)[k] == q);
                            } else {
                                assert(views_of(dirs@)[before.len() as int] == p@);
                            }
                        }
                        assert forall|d: int, e: int|
                            0 <= d < dirs@.len() && 0 <= e < dirs@.len() && d != e implies #[trigger] dirs@[d]@
                                != #[trigger] dirs@[e]@ by {
                            if d == before.len() {
                                assert(views_of(before)[e] == dirs@[e]@);
                            } else if e == before.len() {
                                assert(views_of(before)[d] == dirs@[d]@);
                            }
                        }
                    }
                }
            }
            i = i + 1;
        }
        let mut out: Vec<ScannedDirectory> = Vec::new();
        let mut d: usize = 0;
        while d < dirs.len()
            invariant
                d <= dirs@.len(),
                out@.len() == d,
                parents@.len() == files@.len(),
                forall|j: int|
                    0 <= j < files@.len() ==> match #[trigger] parents@[j] {
                        Some(p) => files@[j].path is Some && p@ == parent_text(files@[j].path->0@),
                        None => files@[j].path is None,
                    },
                forall|k: int| 0 <= k < d ==> #[trigger] out@[k].path == dirs@[k],
                forall|k: int|
                    0 <= k < d ==> (#[trigger] out@[k]).files@.len() == members(
                        files@,
                        out@[k].path@,
                    ).len(),
                forall|k: int, m: int|
                    0 <= k < d && 0 <= m < out@[k].files@.len() ==> compact_of(
                        #[trigger] out@[k].files@[m],
                        members(files@, out@[k].path@)[m],
                    ),
            decreases dirs@.len() - d,
        {
            let dir = dirs[d].clone();
            let mut group: Vec<CompactFile> = Vec::new();
            let mut j: usize = 0;
            while j < files.len()
                invariant
                    j <= files@.len(),
                    parents@.len() == files@.len(),
                    forall|x: int|
                        0 <= x < files@.len() ==> match #[trigger] parents@[x] {
                            Some(p) => files@[x].path is Some && p@ == parent_text(files@[x].path->0@),
                            None => files@[x].path is None,
                        },
                    group@.len() == members(files@.subrange(0, j as int), dir@).len(),
                    forall|m: int|
                        0 <= m < group@.len() ==> compact_of(
                            #[trigger] group@[m],
                            members(files@.subrange(0, j as int), dir@)[m],
                        ),
                decreases files@.len() - j,
            {
                assert(files@.subrange(0, j + 1).drop_last() =~= files@.subrange(0, j as int));
                let matches = match &parents[j] {
                    Some(p) => *p == dir,
                    None => false,
                };
                if matches {
                    let c = CompactFile::from_scanned(&files[j]);
                    group.push(c);
                }
                j = j + 1;
            }
            assert(files@.subrange(0, files@.len() as int) =~= files@);
            out.push(ScannedDirectory { path: dir, files: group });
            d = d + 1;
        }
        proof {
            assert forall|i: int|
                0 <= i < files@.len() && (#[trigger] files@[i]).path is Some implies exists|d: int|
                    0 <= d < out@.len() && #[trigger] out@[d].path@ == parent_text(files@[i].path->0@) by {
                let q = parent_text(files@[i].path->0@);
                let k = choose|k: int| 0 <= k < views_of(dirs@).len() && views_of(dirs@)[k] == q;
                assert(out@[k].path@ == q);
            }
        }
        out
    }
}

/// Aggregate outcome of one scan.
#[derive(Debug, Clone)]
pub struct ScanResult {
    /// Files counted by the scan.
    pub total_files: u64,
    /// Directories traversed.
    pub total_dirs: u64,
    /// Files not in the previous snapshot.
    pub new_files: u64,
    /// Files whose size or modification time changed.
    pub modified_files: u64,
    /// Files with the same size and modification time as before.
    pub unchanged_files: u64,
    /// Snapshot paths not seen in this scan.
    pub deleted_files: u64,
    /// Files to persist: new and modified only.
    pub files: Vec<ScannedFile>,
    /// Paths of deleted files.
    pub deleted_paths: Vec<String>,
    /// Non-fatal errors, in the order they were met.
    pub errors: Vec<ScanError>,
    /// Wall-clock duration in milliseconds.
    pub duration_ms: u64,
}

impl ScanResult {
    /// The empty result: all counts zero, no files, paths or errors.
    pub fn new() -> (r: ScanResult)
        ensures
            r.is_empty_result(),
    {
        ScanResult {
            total_files: 0,
            total_dirs: 0,
            new_files: 0,
            modified_files: 0,
            unchanged_files: 0,
            deleted_files: 0,
            files: Vec::new(),
            deleted_paths: Vec::new(),
            errors: Vec::new(),
            duration_ms: 0,
        }
    }

    pub open spec fn is_empty_result(&self) -> bool {
        &&& self.total_files == 0
        &&& self.total_dirs == 0
        &&& self.new_files == 0
        &&& self.modified_files == 0
        &&& self.unchanged_files == 0
        &&& self.deleted_files == 0
        &&& self.files@.len() == 0
        &&& self.deleted_paths@.len() == 0
        &&& self.errors@.len() == 0
        &&& self.duration_ms == 0
    }

    /// Number of collected errors.
    pub fn error_count(&self) -> (r: usize)
        ensures
            r == self.errors@.len(),
    {
        self.errors.len()
    }

    /// Whether the scan met no error.
    pub fn is_success(&self) -> (r: bool)
        ensures
            r == (self.errors@.len() == 0),
    {
        self.errors.len() == 0
    }
}

impl Default for ScanResult {
    fn default() -> (r: ScanResult)
        ensures
            r.is_empty_result(),
    {
        ScanResult::new()
    }
}

/// Progress of a scan: counts so far, current path and elapsed time.
#[derive(Debug, Clone)]
pub struct ScanProgress {
    /// Directories scanned so far.
    pub scanned_dirs: u64,
    /// Files scanned so far.
    pub scanned_files: u64,
    /// Path being scanned.
    pub current_path: String,
    /// Elapsed time in milliseconds.
    pub elapsed_ms: u64,
}

/// Remaining time at the observed rate, `remaining * elapsed / scanned`,
/// rounded down and capped at the largest `u64`.
pub open spec fn eta_ms(scanned: u64, elapsed: u64, total: u64) -> Option<u64> {
    if scanned == 0 || elapsed == 0 {
        None
    } else {
        let remaining: int = if total >= scanned { total - scanned } else { 0 };
        let q: int = remaining * elapsed / (scanned as int);
        Some(if q > u64::MAX { u64::MAX } else { q as u64 })
    }
}

impl ScanProgress {
    /// Progress at the start: all zero, empty path.
    pub fn new() -> (r: ScanProgress)
        ensures
            r.scanned_dirs == 0,
            r.scanned_files == 0,
            r.current_path@.len() == 0,
            r.elapsed_ms == 0,
    {
        ScanProgress { scanned_dirs: 0, scanned_files: 0, current_path: String::new(), elapsed_ms: 0 }
    }

    /// The same progress at another path.
    pub fn with_path(self, path: String) -> (r: ScanProgress)
        ensures
            r == (ScanProgress { current_path: path, ..self }),
    {
        ScanProgress { current_path: path, ..self }
    }

    /// Estimated time left until `total_expected` files are scanned, at the
    /// rate observed so far; none before any file or any time has passed.
    pub fn estimated_remaining_ms(&self, total_expected: u64) -> (r: Option<u64>)
        ensures
            r == eta_ms(self.scanned_files, self.elapsed_ms, total_expected),
    {
        if self.scanned_files == 0 || self.elapsed_ms == 0 {
            return None;
        }
        let remaining: u64 = total_expected.saturating_sub(self.scanned_files);
        proof {
            let (a, b) = (remaining as int, self.elapsed_ms as int);
            assert(a * b <= u64::MAX as int * u64::MAX as int) by (nonlinear_arith)
                requires 0 <= a <= u64::MAX, 0 <= b <= u64::MAX;
            assert(u64::MAX as int * u64::MAX as int <= u128::MAX);
        }
        let product: u128 = (remaining as u128) * (self.elapsed_ms as u128);
        let q: u128 = product / (self.scanned_files as u128);
        if q > u64::MAX as u128 {
            Some(u64::MAX)
        } else {
            Some(q as u64)
        }
    }
}

impl Default for ScanProgress {
    fn default() -> (r: ScanProgress)
        ensures
            r.scanned_dirs == 0,
            r.scanned_files == 0,
            r.current_path@.len() == 0,
            r.elapsed_ms == 0,
    {
        ScanProgress::new()
    }
}

} // verus!
