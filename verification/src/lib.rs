//! A safety layer over an embedded, memory-mapped, transactional key-value
//! storage engine.
//!
//! The engine itself is an external collaborator reached through the trusted
//! boundary in [`engine`]; this crate supplies the discipline that makes it
//! safe to use: environment lifecycle with a single implicit table,
//! transaction lifecycle in which every transaction is committed, aborted, or
//! aborted on drop, borrowed data views that cannot outlive or race their
//! transaction, and translation of the engine's integer status codes into a
//! structured error value.

use vstd::prelude::*;

pub mod engine;
pub mod environment;
pub mod model;
pub mod transaction;

pub use environment::Environment;
pub use transaction::Transaction;

verus! {

/// An operational error: a nonzero status code reported by the storage
/// engine. The human-readable message is resolved lazily, only when
/// [`Error::message`] is called, via the engine's own status-to-string
/// facility.
#[derive(Copy, Clone, Debug)]
pub struct Error {
    code: i32,
}

impl Error {
    /// The engine status code carried by this error.
    pub closed spec fn spec_code(&self) -> i32 {
        self.code
    }

    /// Wraps an engine status code. Every error this crate reports carries a
    /// nonzero code: zero means success and is never wrapped.
    pub(crate) fn new(code: i32) -> (r: Error)
        ensures
            r.spec_code() == code,
    {
        Error { code }
    }

    /// Returns the raw engine status code.
    pub fn code(&self) -> (r: i32)
        ensures
            r == self.spec_code(),
    {
        self.code
    }

    /// Resolves the engine's canonical message for this status code. The
    /// text is informational only: for system status codes it can depend
    /// on the process locale, so nothing is specified of it.
    pub fn message(&self) -> String {
        engine::strerror(self.code)
    }
}

} // verus!
