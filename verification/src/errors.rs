//! Typed failures of the module lifecycle. Each carries the platform
//! loader's diagnostic text; all are reported to the user, and none ends
//! the interactive loop.

use vstd::prelude::*;

verus! {

/// Which lifecycle step failed.
#[derive(Clone, Copy, PartialEq, Eq, Structural, Debug)]
pub enum ErrorKind {
    /// The module could not be opened: invalid path or unloadable file.
    Load,
    /// An expected entry point was absent after the module opened.
    Symbol,
    /// The platform call releasing the module failed.
    Unload,
}

/// A lifecycle failure: the step that failed and the loader's diagnostic.
pub struct HostError {
    kind: ErrorKind,
    message: String,
}

impl HostError {
    /// The step that failed.
    pub closed spec fn spec_kind(self) -> ErrorKind {
        self.kind
    }

    /// The diagnostic text.
    pub closed spec fn spec_message(self) -> Seq<char> {
        self.message@
    }

    /// Builds the failure record for `kind` with the given diagnostic.
    pub fn new(kind: ErrorKind, message: String) -> (r: Self)
        ensures
            r.spec_kind() == kind,
            r.spec_message() == message@,
    {
        HostError { kind, message }
    }

    /// The step that failed.
    pub fn kind(&self) -> (r: ErrorKind)
        ensures
            r == self.spec_kind(),
    {
        self.kind
    }

    /// The diagnostic text.
    pub fn message(&self) -> (r: &str)
        ensures
            r@ == self.spec_message(),
    {
        self.message.as_str()
    }
}

} // verus!
