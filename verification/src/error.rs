//! Failures at the cache boundary, reported by return value and never
//! retried here: updating the mirror can fail, and clearing it can fail.

use vstd::prelude::*;

verus! {

/// Error kinds of the cache manager, each carrying a human-readable
/// diagnostic: `UpdateError` for a failed fetch, decompression or
/// extraction, `CacheError` for a filesystem failure while clearing.
#[derive(Debug)]
pub enum TldrError {
    UpdateError(String),
    CacheError(String),
}

impl TldrError {
    /// The diagnostic text, whichever kind the error is.
    pub fn message(&self) -> (r: &str)
        ensures
            (match self {
                TldrError::UpdateError(m) => r@ == m@,
                TldrError::CacheError(m) => r@ == m@,
            }),
    {
        match self {
            TldrError::UpdateError(m) => m.as_str(),
            TldrError::CacheError(m) => m.as_str(),
        }
    }
}

} // verus!
