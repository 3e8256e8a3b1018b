use vstd::prelude::*;

verus! {

/// The ways in which loading or querying a plugin can fail.
#[derive(Debug, Clone, Copy, PartialEq, Eq, Structural)]
pub enum RuntimeErrorType {
    /// The module file is missing, unreadable, or not loadable on this platform.
    LoadFailure,
    /// The module loaded, but does not export the plugin entry point.
    SymbolMissing,
    /// No loaded plugin carries the requested name.
    NotFound,
}

/// A recoverable failure reported by the plugin manager.
#[derive(Debug, Clone, Copy, PartialEq, Eq, Structural)]
pub struct RuntimeError {
    pub kind: RuntimeErrorType,
}

impl RuntimeError {
    pub fn new(kind: RuntimeErrorType) -> (r: RuntimeError)
        ensures
            r.kind == kind,
    {
        RuntimeError { kind }
    }

    pub fn kind(&self) -> (r: RuntimeErrorType)
        ensures
            r == self.kind,
    {
        self.kind
    }
}

} // verus!
