//! Error kinds surfaced by the engine.

use vstd::prelude::*;

verus! {

/// Tagged error type of the whole engine.
///
/// Setup-time errors (`InvalidConfig`, `InvalidFormat`) propagate to the API
/// caller; row-level errors (`Sql`, `InputTimeout`, foreign I/O errors) are
/// non-fatal and leave the workers running.
#[derive(Debug)]
pub enum SpringError {
    /// Bad configuration: an unknown key, or a value of the wrong type or range.
    InvalidConfig { msg: String },
    /// A configuration document that is not valid TOML.
    InvalidFormat { s: String },
    /// DDL resolution, column lookup, type mismatch, or runtime expression failure.
    Sql { msg: String },
    /// A queue was starved within its configured timeout.
    InputTimeout,
    /// A foreign source handed no row within its configured timeout.
    ForeignInputTimeout,
    /// A foreign sink failed on write.
    ForeignSinkIo { msg: String },
    /// The operation fell into a pipeline-update window; the caller may retry.
    Unavailable { msg: String },
    /// A worker thread panicked; the pipeline is terminated.
    ThreadPoisoned,
}

impl SpringError {
    /// True of the error kinds that are fatal at `open` time.
    pub open spec fn is_setup_error(&self) -> bool {
        match *self {
            SpringError::InvalidConfig { .. } => true,
            SpringError::InvalidFormat { .. } => true,
            _ => false,
        }
    }
}

} // verus!
