//! Errors that cross the boundary to the caller's inputs.

use vstd::prelude::*;

verus! {

/// A recoverable error: the caller handed in something this library does not
/// know or cannot yet handle.
#[derive(Debug, Clone, Copy, PartialEq, Eq, Structural)]
pub enum Error {
    /// A target triple lacks a component or names one that is not known.
    InvalidTargetTriple,
    /// A function has a linkage for which no directive can be emitted yet.
    UnsupportedLinkage,
    /// No assembly emitter exists for the module's architecture.
    UnsupportedArchitecture,
}

impl Error {
    /// The message of the error.
    pub open spec fn message(self) -> Seq<char> {
        match self {
            Error::InvalidTargetTriple => "invalid target triple"@,
            Error::UnsupportedLinkage => "unsupported linkage"@,
            Error::UnsupportedArchitecture => "unsupported architecture"@,
        }
    }

    /// Renders the error as its message.
    pub fn to_string(&self) -> (r: String)
        ensures
            r@ == self.message(),
    {
        match self {
            Error::InvalidTargetTriple => "invalid target triple".to_owned(),
            Error::UnsupportedLinkage => "unsupported linkage".to_owned(),
            Error::UnsupportedArchitecture => "unsupported architecture".to_owned(),
        }
    }
}

} // verus!
