//! The engine's error taxonomy: typed, recoverable values that are
//! returned to the caller, never process-fatal.

use crate::renderer::RenderError;
use vstd::prelude::*;

verus! {

/// A failure while loading a file.
#[derive(Debug, Clone)]
pub enum LoadError {
    /// The file does not exist in the loader's store
    FileNotFound {
        /// The path that was asked for
        path: String,
    },
    /// The file exists but could not be read
    ReadFailed {
        /// The path that was asked for
        path: String,
        /// Why reading failed
        reason: String,
    },
    /// The file was read but could not be parsed
    ParseFailed {
        /// The path that was asked for
        path: String,
        /// Why parsing failed
        reason: String,
    },
    /// Any other load failure
    Other {
        /// Why loading failed
        reason: String,
    },
}

impl LoadError {
    /// A short description of the error.
    pub fn message(&self) -> (r: String)
        ensures
            match self {
                LoadError::FileNotFound { path } => r@ == "file not found: "@ + path@,
                LoadError::ReadFailed { path, .. } => r@ == "failed to read: "@ + path@,
                LoadError::ParseFailed { path, .. } => r@ == "failed to parse: "@ + path@,
                LoadError::Other { reason } => r@ == "load error: "@ + reason@,
            },
    {
        match self {
            LoadError::FileNotFound { path } => {
                let mut s = String::from_str("file not found: ");
                s.append(path.as_str());
                s
            },
            LoadError::ReadFailed { path, .. } => {
                let mut s = String::from_str("failed to read: ");
                s.append(path.as_str());
                s
            },
            LoadError::ParseFailed { path, .. } => {
                let mut s = String::from_str("failed to parse: ");
                s.append(path.as_str());
                s
            },
            LoadError::Other { reason } => {
                let mut s = String::from_str("load error: ");
                s.append(reason.as_str());
                s
            },
        }
    }
}

/// A failure of the file watcher.
#[derive(Debug, Clone)]
pub struct WatchError {
    /// Why watching failed
    pub reason: String,
}

impl WatchError {
    /// A short description of the error.
    pub fn message(&self) -> (r: String)
        ensures
            r@ == self.reason@,
    {
        self.reason.clone()
    }
}

/// Any failure the dashboard engine can report.
#[derive(Debug, Clone)]
pub enum EngineError {
    /// A file could not be loaded
    LoadError(LoadError),
    /// The file watcher failed
    WatchError(WatchError),
    /// The rendering backend failed
    Render(RenderError),
    /// An operation was attempted before its precondition held
    InvalidState(String),
}

/// The result type of engine operations.
pub type EngineResult<T> = Result<T, EngineError>;

} // verus!
