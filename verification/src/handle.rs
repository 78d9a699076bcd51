//! Typed wrapper around a native resource identifier.

use vstd::prelude::*;

verus! {

/// An opaque identifier for a resource owned by the window system (a window,
/// an icon, a cursor, a brush, a menu).
///
/// The raw value `0` stands for the null handle, the state of every window
/// object before the underlying resource is physically created.
#[derive(Clone, Copy, Debug, PartialEq, Eq, Structural)]
pub struct Handle {
    pub raw: u64,
}

impl Handle {
    /// The null handle: no resource.
    pub fn null() -> (h: Handle)
        ensures
            h.raw == 0,
    {
        Handle { raw: 0 }
    }

    /// Wraps a raw identifier.
    pub fn from_raw(raw: u64) -> (h: Handle)
        ensures
            h.raw == raw,
    {
        Handle { raw }
    }

    /// Whether this is the null handle.
    pub fn is_null(&self) -> (r: bool)
        ensures
            r == (self.raw == 0),
    {
        self.raw == 0
    }
}

} // verus!
