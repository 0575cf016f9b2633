//! The values that cross the callback boundary: identifiers, status codes, events.

use vstd::prelude::*;

verus! {

/// An opaque window handle, as wide as a pointer.
pub type HWND = usize;

/// The stable identifier that the system assigns to a virtual desktop.
///
/// Sixteen bytes, compared for equality and nothing else.
#[derive(Clone, Copy, Debug, PartialEq, Eq, Structural)]
pub struct DesktopID(pub u128);

/// A status code of the notification service: negative for a failure.
#[derive(Clone, Copy, Debug, PartialEq, Eq, Structural)]
pub struct HRESULT(pub i32);

/// `com::sys::FAILED`: whether a status code reports a failure. By its source
/// it is the test that the code is negative.
#[verifier::external_body]
fn code_failed(code: i32) -> (failed: bool)
    ensures
        failed == (code < 0),
{
    com::sys::FAILED(code)
}

impl HRESULT {
    /// Whether the code reports a failure.
    pub open spec fn spec_failed(&self) -> bool {
        self.0 < 0
    }

    /// Whether the code reports a failure.
    #[verifier::when_used_as_spec(spec_failed)]
    pub fn failed(&self) -> (failed: bool)
        ensures
            failed == self.spec_failed(),
    {
        code_failed(self.0)
    }

    /// The code that reports success.
    pub open spec fn spec_ok() -> HRESULT {
        HRESULT(0)
    }

    /// The code that reports success.
    #[verifier::when_used_as_spec(spec_ok)]
    pub fn ok() -> (status: HRESULT)
        ensures
            status == HRESULT::spec_ok(),
    {
        HRESULT(0)
    }
}

/// One observable transition of the desktops or of the focused window.
#[derive(Clone, Copy, Debug, PartialEq, Eq, Structural)]
pub enum VirtualDesktopEvent {
    /// A desktop appeared at this position of the desktop list.
    DesktopCreated(usize),
    /// The desktop at this position of the desktop list went away.
    DesktopDestroyed(usize),
    /// The current desktop changed from the first position to the second.
    DesktopChanged(usize, usize),
    /// The focused window changed to the one with this handle.
    WindowChanged(HWND),
}

} // verus!
