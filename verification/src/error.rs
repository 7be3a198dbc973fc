//! Core error type.

use vstd::prelude::*;

verus! {

/// Something that went wrong opening or running a watch.
#[derive(Debug, PartialEq, Eq, Structural)]
pub enum Error {
    /// The selected backend is not wired yet.
    NotImplemented,
}

impl Error {
    /// The human-readable message of this error.
    pub fn message(&self) -> (text: String)
        ensures
            text@ == "watch backend not implemented yet"@,
    {
        match self {
            Error::NotImplemented => String::from_str("watch backend not implemented yet"),
        }
    }
}

} // verus!
