//! Error kinds and the non-fatal errors collected during a scan.

use vstd::prelude::*;
use crate::text::{debug_quoted, debug_text, join_text};

verus! {

/// Kind of an error met while scanning.
#[derive(Debug, Clone, Copy, PartialEq, Eq, Structural)]
pub enum ScanErrorKind {
    /// Permission denied when accessing a file or directory.
    PermissionDenied,
    /// File or directory not found.
    NotFound,
    /// I/O error during file operations.
    IoError,
    /// Index store operation failed.
    DatabaseError,
    /// Fingerprint computation failed.
    HashError,
    /// Path not valid as text.
    InvalidPath,
    /// Anything else.
    Unknown,
}

/// The variant name of a kind, as its `Debug` rendering spells it.
pub open spec fn kind_name(k: ScanErrorKind) -> Seq<char> {
    match k {
        ScanErrorKind::PermissionDenied => "PermissionDenied"@,
        ScanErrorKind::NotFound => "NotFound"@,
        ScanErrorKind::IoError => "IoError"@,
        ScanErrorKind::DatabaseError => "DatabaseError"@,
        ScanErrorKind::HashError => "HashError"@,
        ScanErrorKind::InvalidPath => "InvalidPath"@,
        ScanErrorKind::Unknown => "Unknown"@,
    }
}

impl ScanErrorKind {
    /// The variant name of this kind.
    pub fn name(&self) -> (r: &'static str)
        ensures
            r@ == kind_name(*self),
    {
        match self {
            ScanErrorKind::PermissionDenied => "PermissionDenied",
            ScanErrorKind::NotFound => "NotFound",
            ScanErrorKind::IoError => "IoError",
            ScanErrorKind::DatabaseError => "DatabaseError",
            ScanErrorKind::HashError => "HashError",
            ScanErrorKind::InvalidPath => "InvalidPath",
            ScanErrorKind::Unknown => "Unknown",
        }
    }

    /// Kind of a failed directory entry: permission denied, or else generic I/O.
    pub fn for_entry_failure(permission_denied: bool) -> (r: ScanErrorKind)
        ensures
            r == (if permission_denied {
                ScanErrorKind::PermissionDenied
            } else {
                ScanErrorKind::IoError
            }),
    {
        if permission_denied {
            ScanErrorKind::PermissionDenied
        } else {
            ScanErrorKind::IoError
        }
    }
}

/// Cause of a failed I/O operation, as far as a scan tells causes apart.
#[derive(Debug, Clone, Copy, PartialEq, Eq, Structural)]
pub enum IoFailure {
    PermissionDenied,
    NotFound,
    Other,
}

/// Kind of an error that comes from a failed I/O operation.
pub open spec fn io_kind(f: IoFailure) -> ScanErrorKind {
    match f {
        IoFailure::PermissionDenied => ScanErrorKind::PermissionDenied,
        IoFailure::NotFound => ScanErrorKind::NotFound,
        IoFailure::Other => ScanErrorKind::IoError,
    }
}

/// A non-fatal error met during a scan.
#[derive(Debug, Clone)]
pub struct ScanError {
    /// The kind of error.
    pub kind: ScanErrorKind,
    /// The path where the error occurred.
    pub path: Option<String>,
    /// Human-readable message.
    pub message: String,
}

/// Message of a permission-denied error on `p`.
pub open spec fn permission_message(p: Seq<char>) -> Seq<char> {
    "Permission denied: "@ + debug_text(p)
}

/// Message of a not-found error on `p`.
pub open spec fn not_found_message(p: Seq<char>) -> Seq<char> {
    "Not found: "@ + debug_text(p)
}

impl ScanError {
    /// An error of the given kind, path and message.
    pub fn new(kind: ScanErrorKind, path: Option<String>, message: String) -> (r: ScanError)
        ensures
            r.kind == kind,
            r.path == path,
            r.message == message,
    {
        ScanError { kind, path, message }
    }

    /// Permission denied on `path`.
    pub fn permission_denied(path: String) -> (r: ScanError)
        ensures
            r.kind == ScanErrorKind::PermissionDenied,
            r.path == Some(path),
            r.message@ == permission_message(path@),
    {
        let quoted = debug_quoted(path.as_str());
        let message = join_text("Permission denied: ", quoted.as_str());
        ScanError::new(ScanErrorKind::PermissionDenied, Some(path), message)
    }

    /// `path` does not exist.
    pub fn not_found(path: String) -> (r: ScanError)
        ensures
            r.kind == ScanErrorKind::NotFound,
            r.path == Some(path),
            r.message@ == not_found_message(path@),
    {
        let quoted = debug_quoted(path.as_str());
        let message = join_text("Not found: ", quoted.as_str());
        ScanError::new(ScanErrorKind::NotFound, Some(path), message)
    }

    /// An error from a failed I/O operation, classified by its cause, with no path.
    pub fn from_io(failure: IoFailure, message: String) -> (r: ScanError)
        ensures
            r.kind == io_kind(failure),
            r.path.is_none(),
            r.message == message,
    {
        let kind = match failure {
            IoFailure::PermissionDenied => ScanErrorKind::PermissionDenied,
            IoFailure::NotFound => ScanErrorKind::NotFound,
            IoFailure::Other => ScanErrorKind::IoError,
        };
        ScanError::new(kind, None, message)
    }

    /// A generic I/O error.
    pub fn io_error(path: Option<String>, message: String) -> (r: ScanError)
        ensures
            r.kind == ScanErrorKind::IoError,
            r.path == path,
            r.message == message,
    {
        ScanError::new(ScanErrorKind::IoError, path, message)
    }

    /// An index store error, with no path.
    pub fn database_error(message: String) -> (r: ScanError)
        ensures
            r.kind == ScanErrorKind::DatabaseError,
            r.path.is_none(),
            r.message == message,
    {
        ScanError::new(ScanErrorKind::DatabaseError, None, message)
    }

    /// A fingerprint error on `path`.
    pub fn hash_error(path: String, message: String) -> (r: ScanError)
        ensures
            r.kind == ScanErrorKind::HashError,
            r.path == Some(path),
            r.message == message,
    {
        ScanError::new(ScanErrorKind::HashError, Some(path), message)
    }
}

} // verus!
