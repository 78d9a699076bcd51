//! The two error tiers of the layer.
//!
//! Failures reported by the window system carry a numeric code and are
//! surfaced as `ErrorCode` through `WinResult`.  Misuse of the layer itself
//! (wiring events after the window was physically created) is a contract
//! violation: a distinct category, so that callers and tests can tell
//! programmer error from environmental failure.

use vstd::prelude::*;

verus! {

/// The failure code the window system reports for an argument out of range.
pub const ERROR_INVALID_PARAMETER: u32 = 87;

/// The failure code the window system reports for an operation against a
/// window that does not exist.
pub const ERROR_INVALID_WINDOW_HANDLE: u32 = 1400;

/// A failure code reported by the window system.
#[derive(Clone, Copy, Debug, PartialEq, Eq, Structural)]
pub struct ErrorCode {
    pub code: u32,
}

impl ErrorCode {
    /// Wraps a raw failure code.
    pub fn new(code: u32) -> (e: ErrorCode)
        ensures
            e.code == code,
    {
        ErrorCode { code }
    }
}

/// The result of an operation that can fail with a window-system code.
pub type WinResult<T> = Result<T, ErrorCode>;

/// A violation of the layer's wiring contract: event registration is a
/// build-time concern and is rejected once creation has happened.
#[derive(Clone, Copy, Debug, PartialEq, Eq, Structural)]
pub enum RegisterError {
    /// The object owning the event table is no longer in its unbuilt state.
    AlreadyCreated,
}

} // verus!
