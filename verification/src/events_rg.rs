//! Event wiring for a group of radio buttons.
//!
//! A radio group shares one callback among all its buttons: registering a
//! handler stores it under the command key of every button id in the group.

use vstd::prelude::*;

use crate::error::RegisterError;
use crate::events::EventKey;
use crate::lifecycle::Lifecycle;
use crate::msg::BN_CLICKED;
use crate::msg::BN_DBLCLK;
use crate::msg::BN_KILLFOCUS;
use crate::msg::BN_SETFOCUS;
use crate::window::WindowBase;

verus! {

/// The table contents after registering `cb` under the command key
/// `(code, id)` for every id of `ids`, in order.
pub open spec fn commands_registered<C>(
    m: Map<EventKey, C>,
    ids: Seq<u16>,
    code: u16,
    cb: C,
) -> Map<EventKey, C>
    decreases ids.len(),
{
    if ids.len() == 0 {
        m
    } else {
        commands_registered(m, ids.drop_last(), code, cb).insert(
            EventKey::Command { code, ctrl_id: ids.last() },
            cb,
        )
    }
}

/// Law: registering one callback for a whole group stores it under the
/// command key of every id in the group, and leaves every other key as it
/// was.
pub proof fn lemma_commands_registered<C>(m: Map<EventKey, C>, ids: Seq<u16>, code: u16, cb: C)
    ensures
        forall|i: int| 0 <= i < ids.len() ==> #[trigger] commands_registered(
            m,
            ids,
            code,
            cb,
        ).dom().contains(EventKey::Command { code, ctrl_id: ids[i] }) && commands_registered(
            m,
            ids,
            code,
            cb,
        )[EventKey::Command { code, ctrl_id: ids[i] }] == cb,
        forall|k: EventKey|
            !(exists|i: int| 0 <= i < ids.len() && k == EventKey::Command {
                code,
                ctrl_id: ids[i],
            }) ==> #[trigger] commands_registered(m, ids, code, cb).dom().contains(k)
                == m.dom().contains(k) && (m.dom().contains(k) ==> commands_registered(
                m,
                ids,
                code,
                cb,
            )[k] == m[k]),
    decreases ids.len(),
{
    if ids.len() > 0 {
        let pre = ids.drop_last();
        let lk = EventKey::Command { code, ctrl_id: ids.last() };
        let prev = commands_registered(m, pre, code, cb);
        let full = commands_registered(m, ids, code, cb);
        lemma_commands_registered(m, pre, code, cb);
        assert(full == prev.insert(lk, cb));
        assert forall|i: int| 0 <= i < ids.len() implies #[trigger] full.dom().contains(
            EventKey::Command { code, ctrl_id: ids[i] },
        ) && full[EventKey::Command { code, ctrl_id: ids[i] }] == cb by {
            let k = EventKey::Command { code, ctrl_id: ids[i] };
            if i < ids.len() - 1 {
                assert(pre[i] == ids[i]);
                assert(prev.dom().contains(k) && prev[k] == cb);
                if k != lk {
                    assert(full[k] == prev[k]);
                }
            }
        }
        assert forall|k: EventKey|
            !(exists|i: int| 0 <= i < ids.len() && k == EventKey::Command {
                code,
                ctrl_id: ids[i],
            }) implies #[trigger] full.dom().contains(k) == m.dom().contains(k) && (
        m.dom().contains(k) ==> full[k] == m[k]) by {
            assert(k != lk) by {
                if k == lk {
                    assert(0 <= ids.len() - 1 < ids.len() && k == EventKey::Command {
                        code,
                        ctrl_id: ids[ids.len() - 1],
                    });
                }
            }
            assert(!(exists|i: int| 0 <= i < pre.len() && k == EventKey::Command {
                code,
                ctrl_id: pre[i],
            })) by {
                if exists|i: int| 0 <= i < pre.len() && k == (EventKey::Command {
                    code,
                    ctrl_id: pre[i],
                }) {
                    let i = choose|i: int| 0 <= i < pre.len() && k == EventKey::Command {
                        code,
                        ctrl_id: pre[i],
                    };
                    assert(pre[i] == ids[i]);
                    assert(0 <= i < ids.len() && k == EventKey::Command {
                        code,
                        ctrl_id: ids[i],
                    });
                }
            }
        }
    }
}

/// Exposes the command notifications of all radio buttons of a group.
///
/// The callbacks are stored in the parent window's event table, who is the
/// one dispatching child notifications; the group only knows the ids.
#[derive(Debug)]
pub struct RadioGroupEvents {
    /// The control ids of the group's buttons.
    pub ctrl_ids: Vec<u16>,
}

impl RadioGroupEvents {
    /// A proxy for the buttons with the given control ids.
    pub fn new(ctrl_ids: Vec<u16>) -> (ev: RadioGroupEvents)
        ensures
            ev.ctrl_ids@ == ctrl_ids@,
    {
        RadioGroupEvents { ctrl_ids }
    }

    /// Registers `cb` under `(code, id)` for every button id of the group.
    #[verifier::loop_isolation(false)]
    fn register_all<C: Copy>(&self, parent: &mut WindowBase<C>, code: u16, cb: C) -> (r: Result<
        (),
        RegisterError,
    >)
        ensures
            *final(parent) == (WindowBase { user_events: final(parent).user_events, ..*old(parent) }),
            old(parent).state == Lifecycle::Unbuilt ==> r == Ok::<(), RegisterError>(())
                && final(parent).user_events@ == commands_registered(
                old(parent).user_events@,
                self.ctrl_ids@,
                code,
                cb,
            ),
            old(parent).state != Lifecycle::Unbuilt ==> r == Err::<(), RegisterError>(
                RegisterError::AlreadyCreated,
            ) && final(parent).user_events@ == old(parent).user_events@,
    {
        if !parent.state.accepts_registration() {
            return Err(RegisterError::AlreadyCreated);
        }
        let n = self.ctrl_ids.len();
        let mut i: usize = 0;
        while i < n
            invariant
                i <= n,
                parent.state == Lifecycle::Unbuilt,
                *parent == (WindowBase { user_events: parent.user_events, ..*old(parent) }),
                parent.user_events@ == commands_registered(
                    old(parent).user_events@,
                    self.ctrl_ids@.take(i as int),
                    code,
                    cb,
                ),
            decreases n - i,
        {
            let id = self.ctrl_ids[i];
            let reg = parent.on_command(code, id, cb);
            proof {
                assert(reg is Ok);
                assert(self.ctrl_ids@.take(i + 1).drop_last() =~= self.ctrl_ids@.take(i as int));
            }
            i += 1;
        }
        proof {
            assert(self.ctrl_ids@.take(n as int) =~= self.ctrl_ids@);
        }
        Ok(())
    }

    /// Registers a handler for the click of any button of the group.
    pub fn bn_clicked<C: Copy>(&self, parent: &mut WindowBase<C>, cb: C) -> (r: Result<
        (),
        RegisterError,
    >)
        ensures
            *final(parent) == (WindowBase { user_events: final(parent).user_events, ..*old(parent) }),
            old(parent).state == Lifecycle::Unbuilt ==> r == Ok::<(), RegisterError>(())
                && final(parent).user_events@ == commands_registered(
                old(parent).user_events@,
                self.ctrl_ids@,
                BN_CLICKED,
                cb,
            ),
            old(parent).state != Lifecycle::Unbuilt ==> r == Err::<(), RegisterError>(
                RegisterError::AlreadyCreated,
            ) && final(parent).user_events@ == old(parent).user_events@,
    {
        self.register_all(parent, BN_CLICKED, cb)
    }

    /// Registers a handler for the double-click of any button of the group.
    pub fn bn_dbl_clk<C: Copy>(&self, parent: &mut WindowBase<C>, cb: C) -> (r: Result<
        (),
        RegisterError,
    >)
        ensures
            *final(parent) == (WindowBase { user_events: final(parent).user_events, ..*old(parent) }),
            old(parent).state == Lifecycle::Unbuilt ==> r == Ok::<(), RegisterError>(())
                && final(parent).user_events@ == commands_registered(
                old(parent).user_events@,
                self.ctrl_ids@,
                BN_DBLCLK,
                cb,
            ),
            old(parent).state != Lifecycle::Unbuilt ==> r == Err::<(), RegisterError>(
                RegisterError::AlreadyCreated,
            ) && final(parent).user_events@ == old(parent).user_events@,
    {
        self.register_all(parent, BN_DBLCLK, cb)
    }

    /// Registers a handler for any button of the group losing the keyboard
    /// focus.
    pub fn bn_kill_focus<C: Copy>(&self, parent: &mut WindowBase<C>, cb: C) -> (r: Result<
        (),
        RegisterError,
    >)
        ensures
            *final(parent) == (WindowBase { user_events: final(parent).user_events, ..*old(parent) }),
            old(parent).state == Lifecycle::Unbuilt ==> r == Ok::<(), RegisterError>(())
                && final(parent).user_events@ == commands_registered(
                old(parent).user_events@,
                self.ctrl_ids@,
                BN_KILLFOCUS,
                cb,
            ),
            old(parent).state != Lifecycle::Unbuilt ==> r == Err::<(), RegisterError>(
                RegisterError::AlreadyCreated,
            ) && final(parent).user_events@ == old(parent).user_events@,
    {
        self.register_all(parent, BN_KILLFOCUS, cb)
    }

    /// Registers a handler for any button of the group receiving the
    /// keyboard focus.
    pub fn bn_set_focus<C: Copy>(&self, parent: &mut WindowBase<C>, cb: C) -> (r: Result<
        (),
        RegisterError,
    >)
        ensures
            *final(parent) == (WindowBase { user_events: final(parent).user_events, ..*old(parent) }),
            old(parent).state == Lifecycle::Unbuilt ==> r == Ok::<(), RegisterError>(())
                && final(parent).user_events@ == commands_registered(
                old(parent).user_events@,
                self.ctrl_ids@,
                BN_SETFOCUS,
                cb,
            ),
            old(parent).state != Lifecycle::Unbuilt ==> r == Err::<(), RegisterError>(
                RegisterError::AlreadyCreated,
            ) && final(parent).user_events@ == old(parent).user_events@,
    {
        self.register_all(parent, BN_SETFOCUS, cb)
    }
}

} // verus!
