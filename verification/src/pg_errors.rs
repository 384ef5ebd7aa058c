//! Errors: every public operation of this library reports failure as one of
//! these kinds. Causes coming from the operating system or from outside code
//! are carried as plain text.

use vstd::prelude::*;

verus! {

/// Common pg_embed errors, one kind per failure a caller can observe.
#[derive(Debug, Clone, PartialEq, Eq)]
pub enum PgEmbedError {
    /// The system has no standard cache directory
    NoSystemCacheDirectory,
    /// Invalid postgresql binaries package
    InvalidPgPackage,
    /// Could not write a file
    WriteFileError { path: String, e: String },
    /// Failed to read the outer archive container
    UnzipFileError { path: String, e: String },
    /// Could not read a file
    ReadFileError { path: String, e: String },
    /// Could not create a directory
    DirCreationError { dir: String, e: String },
    /// Failed to unpack the postgresql binaries tarball
    UnpackFailure { e: String },
    /// Postgresql could not be started
    PgStartFailure,
    /// Postgresql could not be stopped
    PgStopFailure,
    /// Postgresql could not be initialized
    PgInitFailure,
    /// Failed to remove a file or directory
    PgCleanUpFailure { path: String, e: String },
    /// A failure outside the enumerated kinds, wrapping its cause
    PgError { source: String, message: String },
    /// Downloading the binaries package failed
    DownloadFailure { e: String },
    /// A SQL statement or query failed
    SqlxError { e: String },
    /// Running migration scripts failed
    MigrationError { e: String },
}

} // verus!
