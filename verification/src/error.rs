use vstd::prelude::*;

verus! {

/// Why an attachment attempt was given up.
///
/// Every failure in the attachment core is converted into one of these and
/// absorbed by the orchestrator: the attempt aborts, the application keeps
/// running as an ordinary top-level window.
#[derive(Clone, Copy, PartialEq, Eq, Structural, Debug)]
pub enum AttachError {
    /// A required window (shell root, icon-view owner, or its following
    /// sibling) could not be located.
    NotFound,
    /// The shell did not acknowledge the activation signal within the bound.
    Timeout,
    /// A window-manipulation call reported a platform error.
    OsCallFailed,
}

impl AttachError {
    /// A short diagnostic label, for the embedding application's log line.
    pub fn describe(&self) -> (r: &'static str)
        ensures
            *self is NotFound ==> r@ == "required window not found"@,
            *self is Timeout ==> r@ == "shell did not acknowledge the activation signal"@,
            *self is OsCallFailed ==> r@ == "window-manipulation call failed"@,
    {
        match self {
            AttachError::NotFound => "required window not found",
            AttachError::Timeout => "shell did not acknowledge the activation signal",
            AttachError::OsCallFailed => "window-manipulation call failed",
        }
    }
}

} // verus!
