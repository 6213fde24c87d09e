use vstd::prelude::*;

verus! {

/// An opaque identifier for a top-level or child window, borrowed from the OS
/// window table.
///
/// A handle is never owned by this crate: the shell may destroy the window it
/// names at any moment, so a handle is at best "valid when it was observed".
/// Every consumer must treat an operation on a handle as fallible, and the
/// orchestrator turns such failures into an aborted attempt.  The zero value
/// is the conventional "no window" and is the one raw value a well-formed
/// record never carries.
#[derive(Clone, Copy, PartialEq, Eq, Structural, Debug)]
pub struct WindowHandle {
    pub raw: isize,
}

impl WindowHandle {
    /// A handle that names a window at all: anything but the zero value.
    pub open spec fn is_valid(self) -> bool {
        self.raw != 0
    }

    pub fn new(raw: isize) -> (h: WindowHandle)
        ensures
            h.raw == raw,
    {
        WindowHandle { raw }
    }

    /// Whether this handle names a window at all.  A `true` here is still no
    /// promise that the window survives until the next OS call.
    pub fn valid(&self) -> (b: bool)
        ensures
            b == self.is_valid(),
    {
        self.raw != 0
    }
}

} // verus!
