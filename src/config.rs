//! Scan parameters, their defaults and the predicates derived from them.

use vstd::prelude::*;
use crate::models::{audio_extensions, image_extensions, video_extensions};
use crate::text::{
    contains_lowered, contains_text, lower_of, lowered_views, starts_with_char, strings_of, to_lower,
    views_of,
};

verus! {

/// Files larger than this many bytes get a partial fingerprint (100 MiB).
pub const DEFAULT_LARGE_FILE_THRESHOLD: u64 = 100 * 1024 * 1024;

/// Records written to the index per batch.
pub const DEFAULT_BATCH_SIZE: usize = 1000;

/// Files processed between checkpoints.
pub const DEFAULT_CHECKPOINT_INTERVAL: u64 = 5000;

/// Depth limit of a recursive scan.
pub const DEFAULT_MAX_DEPTH: usize = 3;

/// Directory names skipped by default.
pub open spec fn default_ignore_names() -> Seq<Seq<char>> {
    seq![
        "$RECYCLE.BIN"@,
        "System Volume Information"@,
        ".Trash"@,
        ".Trash-1000"@,
        "@eaDir"@,
        ".git"@,
        ".svn"@,
        "node_modules"@,
        "__pycache__"@,
        ".cache"@,
    ]
}

/// Resolved parameters of a scan.
#[derive(Debug, Clone)]
pub struct ScanConfig {
    /// Root directories to scan.
    pub roots: Vec<String>,
    /// Lowercase extensions to include; empty means every extension.
    pub extensions: Vec<String>,
    /// Directory names never descended into.
    pub ignore_dirs: Vec<String>,
    /// Whether to compute content fingerprints.
    pub compute_hash: bool,
    /// Files larger than this get a partial fingerprint.
    pub large_file_threshold: u64,
    /// Worker threads; 0 means twice the number of cores.
    pub num_threads: usize,
    /// Records written to the index per batch.
    pub batch_size: usize,
    /// Files processed between checkpoints.
    pub checkpoint_interval: u64,
    /// Location of the index, if one is used.
    pub db_path: Option<String>,
    /// Whether to descend below the roots.
    pub recursive: bool,
    /// Depth limit of a recursive scan.
    pub max_depth: usize,
    /// Whether progress events are emitted.
    pub show_progress: bool,
}

impl ScanConfig {
    /// The configuration that `default` gives, with these roots.
    pub open spec fn is_default_with(&self, roots: Seq<String>) -> bool {
        &&& self.roots@ == roots
        &&& views_of(self.extensions@) == video_extensions() + image_extensions()
            + audio_extensions()
        &&& views_of(self.ignore_dirs@) == default_ignore_names()
        &&& self.compute_hash
        &&& self.large_file_threshold == DEFAULT_LARGE_FILE_THRESHOLD
        &&& self.num_threads == 0
        &&& self.batch_size == DEFAULT_BATCH_SIZE
        &&& self.checkpoint_interval == DEFAULT_CHECKPOINT_INTERVAL
        &&& self.db_path.is_none()
        &&& self.recursive
        &&& self.max_depth == DEFAULT_MAX_DEPTH
        &&& !self.show_progress
    }

    /// Whether an extension that is already lowercase passes the allow-list,
    /// whose entries match in any letter case.
    pub open spec fn includes_spec(&self, lowered: Seq<char>) -> bool {
        self.extensions@.len() == 0 || lowered_views(self.extensions@).contains(lowered)
    }

    /// Whether a directory of this name is pruned from the walk.
    pub open spec fn ignores_spec(&self, name: Seq<char>) -> bool {
        (name.len() > 0 && name[0] == '.') || views_of(self.ignore_dirs@).contains(name)
    }

    /// Depth limit handed to the walk.
    pub open spec fn max_depth_spec(&self) -> usize {
        if !self.recursive {
            1
        } else {
            self.max_depth
        }
    }

    /// The default configuration with the given roots.
    pub fn new(roots: Vec<String>) -> (r: ScanConfig)
        ensures
            r.is_default_with(roots@),
    {
        let mut config = ScanConfig::default();
        config.roots = roots;
        config
    }

    /// A builder that starts from the default configuration.
    pub fn builder() -> (r: ScanConfigBuilder)
        ensures
            r.current().is_default_with(Seq::empty()),
    {
        ScanConfigBuilder::new()
    }

    /// Video extensions.
    pub fn default_video_extensions() -> (r: Vec<String>)
        ensures
            views_of(r@) == video_extensions(),
    {
        let list = ["mp4", "mkv", "avi", "wmv", "flv", "mov", "webm", "m4v", "ts", "rmvb"];
        assert(list@.map_values(|s: &str| s@) =~= video_extensions());
        strings_of(&list)
    }

    /// Image extensions.
    pub fn default_image_extensions() -> (r: Vec<String>)
        ensures
            views_of(r@) == image_extensions(),
    {
        let list = ["jpg", "jpeg", "png", "gif", "webp", "bmp", "tiff", "tif"];
        assert(list@.map_values(|s: &str| s@) =~= image_extensions());
        strings_of(&list)
    }

    /// Audio extensions.
    pub fn default_audio_extensions() -> (r: Vec<String>)
        ensures
            views_of(r@) == audio_extensions(),
    {
        let list = ["mp3", "flac", "wav", "aac", "ogg", "wma", "m4a"];
        assert(list@.map_values(|s: &str| s@) =~= audio_extensions());
        strings_of(&list)
    }

    /// All media extensions: video, then image, then audio.
    pub fn default_extensions() -> (r: Vec<String>)
        ensures
            views_of(r@) == video_extensions() + image_extensions() + audio_extensions(),
    {
        let mut all = ScanConfig::default_video_extensions();
        let mut image = ScanConfig::default_image_extensions();
        let mut audio = ScanConfig::default_audio_extensions();
        let ghost (v0, i0, a0) = (all@, image@, audio@);
        all.append(&mut image);
        all.append(&mut audio);
        assert(views_of(all@) =~= views_of(v0) + views_of(i0) + views_of(a0));
        all
    }

    /// Directory names skipped by default.
    pub fn default_ignore_dirs() -> (r: Vec<String>)
        ensures
            views_of(r@) == default_ignore_names(),
    {
        let list = [
            "$RECYCLE.BIN",
            "System Volume Information",
            ".Trash",
            ".Trash-1000",
            "@eaDir",
            ".git",
            ".svn",
            "node_modules",
            "__pycache__",
            ".cache",
        ];
        assert(list@.map_values(|s: &str| s@) =~= default_ignore_names());
        strings_of(&list)
    }

    /// Whether an extension that is already lowercase passes the allow-list.
    pub fn includes_lowered(&self, lowered: &str) -> (r: bool)
        ensures
            r == self.includes_spec(lowered@),
    {
        if self.extensions.len() == 0 {
            return true;
        }
        contains_lowered(&self.extensions, lowered)
    }

    /// Whether an extension, in any letter case, passes the allow-list.
    pub fn should_include_extension(&self, ext: &str) -> (r: bool)
        ensures
            r == self.includes_spec(lower_of(ext@)),
    {
        if self.extensions.len() == 0 {
            return true;
        }
        let lowered = to_lower(ext);
        self.includes_lowered(lowered.as_str())
    }

    /// Whether a directory of this name is pruned: hidden names (leading dot)
    /// and names on the ignore list.
    pub fn should_ignore_dir(&self, name: &str) -> (r: bool)
        ensures
            r == self.ignores_spec(name@),
    {
        if starts_with_char(name, '.') {
            return true;
        }
        contains_text(&self.ignore_dirs, name)
    }

    /// Worker threads given the number of cores, if it could be learned:
    /// the configured count, or twice the cores (at most `usize::MAX`), or 4.
    pub fn threads_for_cores(&self, cores: Option<usize>) -> (r: usize)
        ensures
            self.num_threads != 0 ==> r == self.num_threads,
            self.num_threads == 0 ==> r == match cores {
                Some(c) => if 2 * c > usize::MAX { usize::MAX } else { (2 * c) as usize },
                None => 4usize,
            },
    {
        if self.num_threads != 0 {
            self.num_threads
        } else {
            match cores {
                Some(c) => if c > usize::MAX / 2 {
                    usize::MAX
                } else {
                    c * 2
                },
                None => 4,
            }
        }
    }

    /// Depth limit of the walk: 1 when not recursive, else the configured depth.
    pub fn effective_max_depth(&self) -> (r: usize)
        ensures
            r == self.max_depth_spec(),
    {
        if !self.recursive {
            1
        } else {
            self.max_depth
        }
    }
}

impl Default for ScanConfig {
    fn default() -> (r: ScanConfig)
        ensures
            r.is_default_with(Seq::empty()),
    {
        ScanConfig {
            roots: Vec::new(),
            extensions: ScanConfig::default_extensions(),
            ignore_dirs: ScanConfig::default_ignore_dirs(),
            compute_hash: true,
            large_file_threshold: DEFAULT_LARGE_FILE_THRESHOLD,
            num_threads: 0,
            batch_size: DEFAULT_BATCH_SIZE,
            checkpoint_interval: DEFAULT_CHECKPOINT_INTERVAL,
            db_path: None,
            recursive: true,
            max_depth: DEFAULT_MAX_DEPTH,
            show_progress: false,
        }
    }
}

/// Staged construction of a `ScanConfig`.
#[derive(Debug)]
pub struct ScanConfigBuilder {
    config: ScanConfig,
}

impl ScanConfigBuilder {
    /// The configuration built so far.
    pub closed spec fn current(&self) -> ScanConfig {
        self.config
    }

    /// A builder that starts from the default configuration.
    pub fn new() -> (r: ScanConfigBuilder)
        ensures
            r.current().is_default_with(Seq::empty()),
    {
        ScanConfigBuilder { config: ScanConfig::default() }
    }

    /// Replace the roots.
    pub fn roots(self, roots: Vec<String>) -> (r: ScanConfigBuilder)
        ensures
            r.current() == (ScanConfig { roots, ..self.current() }),
    {
        ScanConfigBuilder { config: ScanConfig { roots, ..self.config } }
    }

    /// Append a root.
    pub fn add_root(self, root: String) -> (r: ScanConfigBuilder)
        ensures
            r.current().roots@ == self.current().roots@.push(root),
            r.current() == (ScanConfig { roots: r.current().roots, ..self.current() }),
    {
        let mut config = self.config;
        config.roots.push(root);
        ScanConfigBuilder { config }
    }

    /// Replace the extension allow-list.
    pub fn extensions(self, extensions: Vec<String>) -> (r: ScanConfigBuilder)
        ensures
            r.current() == (ScanConfig { extensions, ..self.current() }),
    {
        ScanConfigBuilder { config: ScanConfig { extensions, ..self.config } }
    }

    /// Allow video extensions only.
    pub fn video_only(self) -> (r: ScanConfigBuilder)
        ensures
            views_of(r.current().extensions@) == video_extensions(),
            r.current() == (ScanConfig { extensions: r.current().extensions, ..self.current() }),
    {
        let extensions = ScanConfig::default_video_extensions();
        ScanConfigBuilder { config: ScanConfig { extensions, ..self.config } }
    }

    /// Allow image extensions only.
    pub fn image_only(self) -> (r: ScanConfigBuilder)
        ensures
            views_of(r.current().extensions@) == image_extensions(),
            r.current() == (ScanConfig { extensions: r.current().extensions, ..self.current() }),
    {
        let extensions = ScanConfig::default_image_extensions();
        ScanConfigBuilder { config: ScanConfig { extensions, ..self.config } }
    }

    /// Replace the ignored directory names.
    pub fn ignore_dirs(self, dirs: Vec<String>) -> (r: ScanConfigBuilder)
        ensures
            r.current() == (ScanConfig { ignore_dirs: dirs, ..self.current() }),
    {
        ScanConfigBuilder { config: ScanConfig { ignore_dirs: dirs, ..self.config } }
    }

    /// Add an ignored directory name, unless it is already there.
    pub fn add_ignore_dir(self, dir: String) -> (r: ScanConfigBuilder)
        ensures
            r.current().ignore_dirs@ == if views_of(self.current().ignore_dirs@).contains(dir@) {
                self.current().ignore_dirs@
            } else {
                self.current().ignore_dirs@.push(dir)
            },
            r.current() == (ScanConfig {
                ignore_dirs: r.current().ignore_dirs,
                ..self.current()
            }),
    {
        let mut config = self.config;
        if !contains_text(&config.ignore_dirs, dir.as_str()) {
            config.ignore_dirs.push(dir);
        }
        ScanConfigBuilder { config }
    }

    /// Turn fingerprinting on or off.
    pub fn compute_hash(self, enabled: bool) -> (r: ScanConfigBuilder)
        ensures
            r.current() == (ScanConfig { compute_hash: enabled, ..self.current() }),
    {
        ScanConfigBuilder { config: ScanConfig { compute_hash: enabled, ..self.config } }
    }

    /// Set the partial-fingerprint threshold.
    pub fn large_file_threshold(self, threshold: u64) -> (r: ScanConfigBuilder)
        ensures
            r.current() == (ScanConfig { large_file_threshold: threshold, ..self.current() }),
    {
        ScanConfigBuilder { config: ScanConfig { large_file_threshold: threshold, ..self.config } }
    }

    /// Set the number of worker threads.
    pub fn num_threads(self, threads: usize) -> (r: ScanConfigBuilder)
        ensures
            r.current() == (ScanConfig { num_threads: threads, ..self.current() }),
    {
        ScanConfigBuilder { config: ScanConfig { num_threads: threads, ..self.config } }
    }

    /// Set the index batch size.
    pub fn batch_size(self, size: usize) -> (r: ScanConfigBuilder)
        ensures
            r.current() == (ScanConfig { batch_size: size, ..self.current() }),
    {
        ScanConfigBuilder { config: ScanConfig { batch_size: size, ..self.config } }
    }

    /// Set the checkpoint interval.
    pub fn checkpoint_interval(self, interval: u64) -> (r: ScanConfigBuilder)
        ensures
            r.current() == (ScanConfig { checkpoint_interval: interval, ..self.current() }),
    {
        ScanConfigBuilder { config: ScanConfig { checkpoint_interval: interval, ..self.config } }
    }

    /// Set the index location.
    pub fn db_path(self, path: String) -> (r: ScanConfigBuilder)
        ensures
            r.current() == (ScanConfig { db_path: Some(path), ..self.current() }),
    {
        ScanConfigBuilder { config: ScanConfig { db_path: Some(path), ..self.config } }
    }

    /// Turn recursion on or off.
    pub fn recursive(self, enabled: bool) -> (r: ScanConfigBuilder)
        ensures
            r.current() == (ScanConfig { recursive: enabled, ..self.current() }),
    {
        ScanConfigBuilder { config: ScanConfig { recursive: enabled, ..self.config } }
    }

    /// Set the depth limit of a recursive scan.
    pub fn max_depth(self, depth: usize) -> (r: ScanConfigBuilder)
        ensures
            r.current() == (ScanConfig { max_depth: depth, ..self.current() }),
    {
        ScanConfigBuilder { config: ScanConfig { max_depth: depth, ..self.config } }
    }

    /// Turn progress events on or off.
    pub fn show_progress(self, enabled: bool) -> (r: ScanConfigBuilder)
        ensures
            r.current() == (ScanConfig { show_progress: enabled, ..self.current() }),
    {
        ScanConfigBuilder { config: ScanConfig { show_progress: enabled, ..self.config } }
    }

    /// The configuration built so far.
    pub fn build(self) -> (r: ScanConfig)
        ensures
            r == self.current(),
    {
        self.config
    }
}

impl Default for ScanConfigBuilder {
    fn default() -> (r: ScanConfigBuilder)
        ensures
            r.current().is_default_with(Seq::empty()),
    {
        ScanConfigBuilder::new()
    }
}

} // verus!
