//! Event wiring for a list view control.
//!
//! A proxy to the parent window's event table, keyed by the control's id:
//! the parent is the one dispatching child notifications.

use vstd::prelude::*;

use crate::error::RegisterError;
use crate::events::EventKey;
use crate::lifecycle::Lifecycle;
use crate::msg::NM_HOVER;
use crate::window::WindowBase;

verus! {

/// Exposes the notifications of a list view control.
#[derive(Debug)]
pub struct ListViewEvents {
    /// The control id the notifications originate from.
    pub ctrl_id: u16,
}

impl ListViewEvents {
    /// A proxy for the list view with the given control id.
    pub fn new(ctrl_id: u16) -> (ev: ListViewEvents)
        ensures
            ev.ctrl_id == ctrl_id,
    {
        ListViewEvents { ctrl_id }
    }

    /// Registers a handler for the mouse hovering over an item.
    pub fn nm_hover<C: Copy>(&self, parent: &mut WindowBase<C>, cb: C) -> (r: Result<
        (),
        RegisterError,
    >)
        ensures
            *final(parent) == (WindowBase { user_events: final(parent).user_events, ..*old(parent) }),
            old(parent).state == Lifecycle::Unbuilt ==> r == Ok::<(), RegisterError>(())
                && final(parent).user_events@ == old(parent).user_events@.insert(
                EventKey::Notify { ctrl_id: self.ctrl_id, nfy_code: NM_HOVER },
                cb,
            ),
            old(parent).state != Lifecycle::Unbuilt ==> r == Err::<(), RegisterError>(
                RegisterError::AlreadyCreated,
            ) && final(parent).user_events@ == old(parent).user_events@,
    {
        parent.on_notify(self.ctrl_id, NM_HOVER, cb)
    }
}

} // verus!
