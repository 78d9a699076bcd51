//! Event wiring for a month calendar control.
//!
//! A proxy to the parent window's event table, keyed by the control's id:
//! the parent is the one dispatching child notifications.

use vstd::prelude::*;

use crate::error::RegisterError;
use crate::events::EventKey;
use crate::lifecycle::Lifecycle;
use crate::msg::MCN_GETDAYSTATE;
use crate::msg::MCN_SELCHANGE;
use crate::msg::MCN_SELECT;
use crate::msg::MCN_VIEWCHANGE;
use crate::msg::NM_RELEASEDCAPTURE;
use crate::window::WindowBase;

verus! {

/// Exposes the notifications of a month calendar control.
#[derive(Debug)]
pub struct MonthCalendarEvents {
    /// The control id the notifications originate from.
    pub ctrl_id: u16,
}

impl MonthCalendarEvents {
    /// A proxy for the month calendar with the given control id.
    pub fn new(ctrl_id: u16) -> (ev: MonthCalendarEvents)
        ensures
            ev.ctrl_id == ctrl_id,
    {
        MonthCalendarEvents { ctrl_id }
    }

    /// Registers a handler under one of the calendar's notification codes.
    fn on_code<C: Copy>(&self, parent: &mut WindowBase<C>, nfy_code: i32, cb: C) -> (r: Result<
        (),
        RegisterError,
    >)
        ensures
            *final(parent) == (WindowBase { user_events: final(parent).user_events, ..*old(parent) }),
            old(parent).state == Lifecycle::Unbuilt ==> r == Ok::<(), RegisterError>(())
                && final(parent).user_events@ == old(parent).user_events@.insert(
                EventKey::Notify { ctrl_id: self.ctrl_id, nfy_code },
                cb,
            ),
            old(parent).state != Lifecycle::Unbuilt ==> r == Err::<(), RegisterError>(
                RegisterError::AlreadyCreated,
            ) && final(parent).user_events@ == old(parent).user_events@,
    {
        parent.on_notify(self.ctrl_id, nfy_code, cb)
    }

    /// Registers a handler for the day-state request.
    pub fn mcn_get_day_state<C: Copy>(&self, parent: &mut WindowBase<C>, cb: C) -> (r: Result<
        (),
        RegisterError,
    >)
        ensures
            *final(parent) == (WindowBase { user_events: final(parent).user_events, ..*old(parent) }),
            old(parent).state == Lifecycle::Unbuilt ==> r == Ok::<(), RegisterError>(())
                && final(parent).user_events@ == old(parent).user_events@.insert(
                EventKey::Notify { ctrl_id: self.ctrl_id, nfy_code: MCN_GETDAYSTATE },
                cb,
            ),
            old(parent).state != Lifecycle::Unbuilt ==> r == Err::<(), RegisterError>(
                RegisterError::AlreadyCreated,
            ) && final(parent).user_events@ == old(parent).user_events@,
    {
        self.on_code(parent, MCN_GETDAYSTATE, cb)
    }

    /// Registers a handler for the selected date or range changing.
    pub fn mcn_sel_change<C: Copy>(&self, parent: &mut WindowBase<C>, cb: C) -> (r: Result<
        (),
        RegisterError,
    >)
        ensures
            *final(parent) == (WindowBase { user_events: final(parent).user_events, ..*old(parent) }),
            old(parent).state == Lifecycle::Unbuilt ==> r == Ok::<(), RegisterError>(())
                && final(parent).user_events@ == old(parent).user_events@.insert(
                EventKey::Notify { ctrl_id: self.ctrl_id, nfy_code: MCN_SELCHANGE },
                cb,
            ),
            old(parent).state != Lifecycle::Unbuilt ==> r == Err::<(), RegisterError>(
                RegisterError::AlreadyCreated,
            ) && final(parent).user_events@ == old(parent).user_events@,
    {
        self.on_code(parent, MCN_SELCHANGE, cb)
    }

    /// Registers a handler for an explicit date selection.
    pub fn mcn_select<C: Copy>(&self, parent: &mut WindowBase<C>, cb: C) -> (r: Result<
        (),
        RegisterError,
    >)
        ensures
            *final(parent) == (WindowBase { user_events: final(parent).user_events, ..*old(parent) }),
            old(parent).state == Lifecycle::Unbuilt ==> r == Ok::<(), RegisterError>(())
                && final(parent).user_events@ == old(parent).user_events@.insert(
                EventKey::Notify { ctrl_id: self.ctrl_id, nfy_code: MCN_SELECT },
                cb,
            ),
            old(parent).state != Lifecycle::Unbuilt ==> r == Err::<(), RegisterError>(
                RegisterError::AlreadyCreated,
            ) && final(parent).user_events@ == old(parent).user_events@,
    {
        self.on_code(parent, MCN_SELECT, cb)
    }

    /// Registers a handler for the current view changing.
    pub fn mcn_view_change<C: Copy>(&self, parent: &mut WindowBase<C>, cb: C) -> (r: Result<
        (),
        RegisterError,
    >)
        ensures
            *final(parent) == (WindowBase { user_events: final(parent).user_events, ..*old(parent) }),
            old(parent).state == Lifecycle::Unbuilt ==> r == Ok::<(), RegisterError>(())
                && final(parent).user_events@ == old(parent).user_events@.insert(
                EventKey::Notify { ctrl_id: self.ctrl_id, nfy_code: MCN_VIEWCHANGE },
                cb,
            ),
            old(parent).state != Lifecycle::Unbuilt ==> r == Err::<(), RegisterError>(
                RegisterError::AlreadyCreated,
            ) && final(parent).user_events@ == old(parent).user_events@,
    {
        self.on_code(parent, MCN_VIEWCHANGE, cb)
    }

    /// Registers a handler for the control releasing mouse capture.
    pub fn nm_released_capture<C: Copy>(&self, parent: &mut WindowBase<C>, cb: C) -> (r: Result<
        (),
        RegisterError,
    >)
        ensures
            *final(parent) == (WindowBase { user_events: final(parent).user_events, ..*old(parent) }),
            old(parent).state == Lifecycle::Unbuilt ==> r == Ok::<(), RegisterError>(())
                && final(parent).user_events@ == old(parent).user_events@.insert(
                EventKey::Notify { ctrl_id: self.ctrl_id, nfy_code: NM_RELEASEDCAPTURE },
                cb,
            ),
            old(parent).state != Lifecycle::Unbuilt ==> r == Err::<(), RegisterError>(
                RegisterError::AlreadyCreated,
            ) && final(parent).user_events@ == old(parent).user_events@,
    {
        self.on_code(parent, NM_RELEASEDCAPTURE, cb)
    }
}

} // verus!
