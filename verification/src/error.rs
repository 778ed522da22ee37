//! The failures of the boundary.

use vstd::prelude::*;

verus! {

/// Every way an operation of this boundary can fail.
///
/// A failure is handed to the immediate caller; nothing is retried and no
/// failure ends the process.
#[derive(Debug, PartialEq, Eq)]
pub enum BoundaryError {
    /// The bridge was used before a connection was installed.
    NotInitialized,
    /// The database could not be opened; carries the engine's message.
    ConnectionError(String),
    /// Preparing, binding or running a statement failed; carries the engine's
    /// message as it stands.
    SqlError(String),
    /// A single-row query matched no row.
    NoRowFound,
    /// The execution mode is not one of `run`, `get`, `all`; carries the
    /// mode that was received.
    InvalidMode(String),
    /// The file name has no base name.
    InvalidFilename,
    /// Creating the asset directory, resolving it or writing the file
    /// failed; carries the file system's message.
    IoError(String),
    /// The resolved write target does not lie inside the resolved asset
    /// directory.
    PathTraversalDetected,
}

/// The mathematical value of a [`BoundaryError`]: the same cases, with texts
/// as sequences of characters.
pub enum ErrorModel {
    NotInitialized,
    ConnectionError(Seq<char>),
    SqlError(Seq<char>),
    NoRowFound,
    InvalidMode(Seq<char>),
    InvalidFilename,
    IoError(Seq<char>),
    PathTraversalDetected,
}

impl ErrorModel {
    /// The text shown for this failure.
    pub open spec fn message(self) -> Seq<char> {
        match self {
            ErrorModel::NotInitialized => "Database not initialized"@,
            ErrorModel::ConnectionError(text) => text,
            ErrorModel::SqlError(text) => text,
            ErrorModel::NoRowFound => "Query returned no rows"@,
            ErrorModel::InvalidMode(mode) => "Unknown method: "@ + mode,
            ErrorModel::InvalidFilename => "Invalid filename: path traversal detected"@,
            ErrorModel::IoError(text) => text,
            ErrorModel::PathTraversalDetected => "Path traversal attack detected"@,
        }
    }
}

impl View for BoundaryError {
    type V = ErrorModel;

    open spec fn view(&self) -> ErrorModel {
        match self {
            BoundaryError::NotInitialized => ErrorModel::NotInitialized,
            BoundaryError::ConnectionError(text) => ErrorModel::ConnectionError(text@),
            BoundaryError::SqlError(text) => ErrorModel::SqlError(text@),
            BoundaryError::NoRowFound => ErrorModel::NoRowFound,
            BoundaryError::InvalidMode(mode) => ErrorModel::InvalidMode(mode@),
            BoundaryError::InvalidFilename => ErrorModel::InvalidFilename,
            BoundaryError::IoError(text) => ErrorModel::IoError(text@),
            BoundaryError::PathTraversalDetected => ErrorModel::PathTraversalDetected,
        }
    }
}

impl BoundaryError {
    /// The text shown for this failure.
    pub fn message(&self) -> (text: String)
        ensures
            text@ == self@.message(),
    {
        match self {
            BoundaryError::NotInitialized => String::from_str("Database not initialized"),
            BoundaryError::ConnectionError(text) => text.clone(),
            BoundaryError::SqlError(text) => text.clone(),
            BoundaryError::NoRowFound => String::from_str("Query returned no rows"),
            BoundaryError::InvalidMode(mode) => {
                String::from_str("Unknown method: ").concat(mode.as_str())
            },
            BoundaryError::InvalidFilename => {
                String::from_str("Invalid filename: path traversal detected")
            },
            BoundaryError::IoError(text) => text.clone(),
            BoundaryError::PathTraversalDetected => {
                String::from_str("Path traversal attack detected")
            },
        }
    }
}

} // verus!
