//! The lifecycle of a window or control object.

use vstd::prelude::*;

verus! {

/// The three states an object backed by a native resource moves through.
///
/// The object is constructed in memory with a null handle (`Unbuilt`), gains
/// its handle exactly once at physical creation time (`Created`), and loses
/// the resource when the window system destroys it (`Destroyed`).  The state
/// never moves backwards.
#[derive(Clone, Copy, Debug, PartialEq, Eq, Structural)]
pub enum Lifecycle {
    /// Constructed in memory; no native resource yet.
    Unbuilt,
    /// The native resource exists and the handle is populated.
    Created,
    /// The native resource is gone; the in-memory shell may outlive it.
    Destroyed,
}

/// The position of a state along the one-way lifecycle: unbuilt, then
/// created, then destroyed.
pub open spec fn lifecycle_rank(s: Lifecycle) -> int {
    match s {
        Lifecycle::Unbuilt => 0,
        Lifecycle::Created => 1,
        Lifecycle::Destroyed => 2,
    }
}

impl Lifecycle {
    /// Event wiring is a build-time concern: it is allowed only here.
    pub fn accepts_registration(&self) -> (r: bool)
        ensures
            r == (*self == Lifecycle::Unbuilt),
    {
        match self {
            Lifecycle::Unbuilt => true,
            Lifecycle::Created => false,
            Lifecycle::Destroyed => false,
        }
    }
}

} // verus!
