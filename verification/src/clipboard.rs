//! Error type for the clipboard collaborator.
//!
//! Placing a generated password on the operating system clipboard is a
//! platform-specific side effect performed by the surrounding application;
//! only the error taxonomy lives here, so that callers of the library can
//! name the ways a clipboard hand-off may fail.

use vstd::prelude::*;

verus! {

/// Why a password could not be placed on the system clipboard.
#[derive(Debug, PartialEq, Eq, Structural, Clone, Copy)]
pub enum ClipboardError {
    /// The clipboard helper program was not found on this system.
    NoXclip,
    /// The clipboard facility was present but the copy itself failed.
    FailedToCopy,
}

impl ClipboardError {
    /// A human-readable description of the failure.
    pub fn message(&self) -> (r: &'static str)
        ensures
            self is NoXclip ==> r@ == "XClip not found"@,
            self is FailedToCopy ==> r@ == "Failed to copy"@,
    {
        match self {
            ClipboardError::NoXclip => "XClip not found",
            ClipboardError::FailedToCopy => "Failed to copy",
        }
    }
}

} // verus!
