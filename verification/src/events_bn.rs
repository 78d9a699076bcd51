//! Event wiring for a single button control.
//!
//! A proxy to the parent window's event table, keyed by the control's id:
//! the parent is the one dispatching child command notifications.  The proxy
//! is handed out by the owning control's `on` gate, which refuses it once
//! the control is created.

use vstd::prelude::*;

use crate::error::RegisterError;
use crate::events::EventKey;
use crate::lifecycle::Lifecycle;
use crate::msg::BN_CLICKED;
use crate::msg::BN_DBLCLK;
use crate::msg::BN_KILLFOCUS;
use crate::msg::BN_SETFOCUS;
use crate::window::WindowBase;

verus! {

/// Exposes the command notifications of a button control.
#[derive(Debug)]
pub struct ButtonEvents {
    /// The control id the notifications originate from.
    pub ctrl_id: u16,
}

impl ButtonEvents {
    /// A proxy for the button with the given control id.
    pub fn new(ctrl_id: u16) -> (ev: ButtonEvents)
        ensures
            ev.ctrl_id == ctrl_id,
    {
        ButtonEvents { ctrl_id }
    }

    /// Registers a handler under one of the button's command codes.
    fn on_code<C: Copy>(&self, parent: &mut WindowBase<C>, code: u16, cb: C) -> (r: Result<
        (),
        RegisterError,
    >)
        ensures
            *final(parent) == (WindowBase { user_events: final(parent).user_events, ..*old(parent) }),
            old(parent).state == Lifecycle::Unbuilt ==> r == Ok::<(), RegisterError>(())
                && final(parent).user_events@ == old(parent).user_events@.insert(
                EventKey::Command { code, ctrl_id: self.ctrl_id },
                cb,
            ),
            old(parent).state != Lifecycle::Unbuilt ==> r == Err::<(), RegisterError>(
                RegisterError::AlreadyCreated,
            ) && final(parent).user_events@ == old(parent).user_events@,
    {
        parent.on_command(code, self.ctrl_id, cb)
    }

    /// Registers a handler for the button being clicked.
    pub fn bn_clicked<C: Copy>(&self, parent: &mut WindowBase<C>, cb: C) -> (r: Result<
        (),
        RegisterError,
    >)
        ensures
            *final(parent) == (WindowBase { user_events: final(parent).user_events, ..*old(parent) }),
            old(parent).state == Lifecycle::Unbuilt ==> r == Ok::<(), RegisterError>(())
                && final(parent).user_events@ == old(parent).user_events@.insert(
                EventKey::Command { code: BN_CLICKED, ctrl_id: self.ctrl_id },
                cb,
            ),
            old(parent).state != Lifecycle::Unbuilt ==> r == Err::<(), RegisterError>(
                RegisterError::AlreadyCreated,
            ) && final(parent).user_events@ == old(parent).user_events@,
    {
        self.on_code(parent, BN_CLICKED, cb)
    }

    /// Registers a handler for the button being double-clicked.
    pub fn bn_dbl_clk<C: Copy>(&self, parent: &mut WindowBase<C>, cb: C) -> (r: Result<
        (),
        RegisterError,
    >)
        ensures
            *final(parent) == (WindowBase { user_events: final(parent).user_events, ..*old(parent) }),
            old(parent).state == Lifecycle::Unbuilt ==> r == Ok::<(), RegisterError>(())
                && final(parent).user_events@ == old(parent).user_events@.insert(
                EventKey::Command { code: BN_DBLCLK, ctrl_id: self.ctrl_id },
                cb,
            ),
            old(parent).state != Lifecycle::Unbuilt ==> r == Err::<(), RegisterError>(
                RegisterError::AlreadyCreated,
            ) && final(parent).user_events@ == old(parent).user_events@,
    {
        self.on_code(parent, BN_DBLCLK, cb)
    }

    /// Registers a handler for the button losing the keyboard focus.
    pub fn bn_kill_focus<C: Copy>(&self, parent: &mut WindowBase<C>, cb: C) -> (r: Result<
        (),
        RegisterError,
    >)
        ensures
            *final(parent) == (WindowBase { user_events: final(parent).user_events, ..*old(parent) }),
            old(parent).state == Lifecycle::Unbuilt ==> r == Ok::<(), RegisterError>(())
                && final(parent).user_events@ == old(parent).user_events@.insert(
                EventKey::Command { code: BN_KILLFOCUS, ctrl_id: self.ctrl_id },
                cb,
            ),
            old(parent).state != Lifecycle::Unbuilt ==> r == Err::<(), RegisterError>(
                RegisterError::AlreadyCreated,
            ) && final(parent).user_events@ == old(parent).user_events@,
    {
        self.on_code(parent, BN_KILLFOCUS, cb)
    }

    /// Registers a handler for the button receiving the keyboard focus.
    pub fn bn_set_focus<C: Copy>(&self, parent: &mut WindowBase<C>, cb: C) -> (r: Result<
        (),
        RegisterError,
    >)
        ensures
            *final(parent) == (WindowBase { user_events: final(parent).user_events, ..*old(parent) }),
            old(parent).state == Lifecycle::Unbuilt ==> r == Ok::<(), RegisterError>(())
                && final(parent).user_events@ == old(parent).user_events@.insert(
                EventKey::Command { code: BN_SETFOCUS, ctrl_id: self.ctrl_id },
                cb,
            ),
            old(parent).state != Lifecycle::Unbuilt ==> r == Err::<(), RegisterError>(
                RegisterError::AlreadyCreated,
            ) && final(parent).user_events@ == old(parent).user_events@,
    {
        self.on_code(parent, BN_SETFOCUS, cb)
    }
}

} // verus!
