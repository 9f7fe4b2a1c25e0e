use vstd::prelude::*;

verus! {

/// Why a repository initialization failed.
///
/// `existing_vcs_repo` never reports one of these: detection swallows every
/// failure and degrades to "no repository found". Initialization propagates
/// each failure to the caller, and performs no rollback of steps that had
/// already completed.
#[derive(Clone, Copy, Debug, PartialEq, Eq, Structural)]
pub enum InitError {
    /// The in-process git library reported an error.
    NativeFailure,
    /// An external tool could not be launched, or produced no exit code.
    SpawnFailure,
    /// An external tool ran and exited with a failure code.
    ToolExitFailure,
    /// A directory could not be created before any tool was invoked.
    FilesystemFailure,
    /// A path could not be turned into a `file://` URL (it was not absolute).
    UrlConversionFailure,
}

} // verus!
