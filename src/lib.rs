//! Incremental media file indexing: configuration, change classification,
//! content fingerprints, a persistent index and a throttled progress protocol.

pub mod config;
pub mod db;
pub mod error;
pub mod fingerprint;
pub mod models;
pub mod progress;
pub mod scanner;
pub mod text;

pub use config::{ScanConfig, ScanConfigBuilder};
pub use db::{DeletedFileRecord, FileIndex, FileRecord, ScanDatabase};
pub use error::{ScanError, ScanErrorKind};
pub use models::{
    CompactFile, FileStatus, MediaType, ScanProgress, ScanResult, ScannedDirectory, ScannedFile,
};
pub use progress::{
    DoneMessage, ErrorProgressMessage, ProgressEvent, ProgressMessage, ProgressReporter,
    ScanPhase, StartMessage,
};
pub use scanner::{FileDecision, ScanState};
