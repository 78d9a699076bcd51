//! The window base: handle, lifecycle, event tables, and child bookkeeping.
//!
//! Every window object owns its state explicitly: the handle populated at
//! creation time, the table of user callbacks, the table of actions the layer
//! itself installs, the list of controls awaiting deferred creation, and the
//! created children.  There is no shared interior mutability: callers hold
//! the one owner and mutate it through checked methods.

use vstd::prelude::*;

use crate::error::ErrorCode;
use crate::error::RegisterError;
use crate::events::dispatch_spec;
use crate::geometry::Point;
use crate::geometry::Size;
use crate::events::EventKey;
use crate::events::EventTable;
use crate::handle::Handle;
use crate::lifecycle::Lifecycle;
use crate::msg::WM_CREATE;
use crate::msg::WM_INITDIALOG;

verus! {

/// The first control id handed out automatically.
pub const FIRST_AUTO_ID: u16 = 20000;

/// An action the layer itself wires into a window, interpreted by the
/// verified message pumps rather than by an opaque user callback.
#[derive(Clone, Copy, Debug, PartialEq, Eq, Structural)]
pub enum DefaultAction {
    /// On receiving focus directly, hand it to the first child.
    DelegateFocusToFirstChild,
    /// On deactivation remember the focused descendant; on reactivation
    /// restore focus to it.
    RememberOrRestoreFocus,
    /// Post the quit signal with exit code zero.
    PostQuitZero,
    /// Run the modal close protocol: re-enable the owner, destroy the modal,
    /// restore the focus remembered when the modal opened.
    CloseModal,
}

/// What one turn of a message pump decided.
pub enum PumpStep<C> {
    /// The loop is over, with this exit code.  When ending the loop also
    /// dispatched to a registered callback, it is carried along for the
    /// embedding to invoke.
    Exit {
        /// The exit code the loop ends with.
        code: i32,
        /// The user callback the ending message dispatched to, if any.
        callback: Option<C>,
        /// The window the layer asks to give the keyboard focus to while
        /// ending, if any.
        set_focus: Option<Handle>,
    },
    /// The loop goes on.
    Continue {
        /// The user callback the message dispatched to, if any; the
        /// embedding invokes it.
        callback: Option<C>,
        /// The window the layer asks to give the keyboard focus to, if any.
        set_focus: Option<Handle>,
    },
    /// The message fetch failed: the loop is over, propagating the code.
    Fail {
        /// The failure the fetch reported.
        error: ErrorCode,
    },
}

/// How a whole run of a message pump ended.
#[derive(Clone, Copy, Debug, PartialEq, Eq, Structural)]
pub enum PumpOutcome {
    /// The loop ended, with this exit code.
    Exited(i32),
    /// A message fetch failed; the failure is propagated to the loop's
    /// caller.
    Failed(ErrorCode),
    /// The fetched messages ran out with the loop still going: the real
    /// pump would still be waiting for the next message.
    Exhausted,
}

/// The focus delegation a window performs when it receives the keyboard
/// focus itself: hand it to the first child, if there is one.
pub open spec fn focus_delegation<C>(w: WindowBase<C>, focus: Option<Handle>) -> Option<Handle> {
    if focus == Some(w.hwnd) && w.children@.len() > 0 {
        Some(w.children@[0])
    } else {
        None
    }
}

/// How a control is to materialize: created programmatically from an options
/// record, or fetched from a dialog resource by control id.
pub enum OptsId<O> {
    /// Created with the creation call, from these options.
    Wnd(O),
    /// Loaded from the dialog resource that carries this control id.
    Dlg(u16),
}

/// What a window or control asks the window system to create: the arguments
/// of one creation call, fully marshaled.
#[derive(Debug)]
pub struct CreateRequest {
    /// The window class to instantiate.
    pub class_name: String,
    /// The initial window text.
    pub text: String,
    /// The top-left corner, in parent client or screen coordinates.
    pub pos: Point,
    /// The initial outer size.
    pub size: Size,
    /// The control id, zero for a top-level window.
    pub ctrl_id: u16,
    /// The window style bits.
    pub style: u32,
    /// The extended window style bits.
    pub ex_style: u32,
}

/// The state a window object owns: handle, lifecycle, event tables, and the
/// bookkeeping for deferred control creation.
pub struct WindowBase<C> {
    /// The native handle; null until physical creation.
    pub hwnd: Handle,
    /// Where in its lifecycle the window is.
    pub state: Lifecycle,
    /// The owner or parent window's handle; null for a top-level window.
    pub parent_hwnd: Handle,
    /// Whether the window is dialog-loaded, so that deferred creation runs on
    /// the dialog-initialization message rather than the creation message.
    pub dialog: bool,
    /// Callbacks registered by the user of the layer.
    pub user_events: EventTable<C>,
    /// Actions the layer installed for its own lifecycle handling.
    pub default_actions: EventTable<DefaultAction>,
    /// The next automatically allocated control id.
    pub next_auto_id: u16,
    /// Control ids registered for deferred creation on this window's
    /// creation message.
    pub pending_creations: Vec<u16>,
    /// Control ids subscribed to re-layout themselves on this window's
    /// resize message.
    pub resize_subscribers: Vec<u16>,
    /// Handles of the children created so far, in creation order.
    pub children: Vec<Handle>,
}

impl<C: Copy> WindowBase<C> {
    /// A fresh, unbuilt window base.
    pub fn new(parent_hwnd: Handle, dialog: bool) -> (w: WindowBase<C>)
        ensures
            w.hwnd.raw == 0,
            w.state == Lifecycle::Unbuilt,
            w.parent_hwnd == parent_hwnd,
            w.dialog == dialog,
            w.user_events@ == Map::<EventKey, C>::empty(),
            w.default_actions@ == Map::<EventKey, DefaultAction>::empty(),
            w.next_auto_id == FIRST_AUTO_ID,
            w.pending_creations@ == Seq::<u16>::empty(),
            w.resize_subscribers@ == Seq::<u16>::empty(),
            w.children@ == Seq::<Handle>::empty(),
    {
        WindowBase {
            hwnd: Handle::null(),
            state: Lifecycle::Unbuilt,
            parent_hwnd,
            dialog,
            user_events: EventTable::new(),
            default_actions: EventTable::new(),
            next_auto_id: FIRST_AUTO_ID,
            pending_creations: Vec::new(),
            resize_subscribers: Vec::new(),
            children: Vec::new(),
        }
    }

    /// The message on which this window materializes its pending controls:
    /// the dialog-initialization message for a dialog-loaded window, the
    /// creation message otherwise.
    pub fn creation_message(&self) -> (wm: u32)
        ensures
            wm == if self.dialog {
                WM_INITDIALOG
            } else {
                WM_CREATE
            },
    {
        if self.dialog {
            WM_INITDIALOG
        } else {
            WM_CREATE
        }
    }

    /// Hands out the next automatic control id.  Ids start high to stay clear
    /// of ids chosen by hand and recycle if the range is ever exhausted.
    pub fn alloc_ctrl_id(&mut self) -> (id: u16)
        ensures
            id == old(self).next_auto_id,
            *final(self) == (WindowBase {
                next_auto_id: if old(self).next_auto_id < 0xffff {
                    (old(self).next_auto_id + 1) as u16
                } else {
                    FIRST_AUTO_ID
                },
                ..*old(self)
            }),
    {
        let id = self.next_auto_id;
        self.next_auto_id = if id < 0xffff {
            id + 1
        } else {
            FIRST_AUTO_ID
        };
        id
    }

    /// Registers a user callback under an event key.
    ///
    /// Event wiring is a build-time concern: once the window has left the
    /// unbuilt state the call is a contract violation and changes nothing.
    pub fn on_event(&mut self, key: EventKey, cb: C) -> (r: Result<(), RegisterError>)
        ensures
            *final(self) == (WindowBase { user_events: final(self).user_events, ..*old(self) }),
            old(self).state == Lifecycle::Unbuilt ==> r == Ok::<(), RegisterError>(())
                && final(self).user_events@ == old(self).user_events@.insert(key, cb),
            old(self).state != Lifecycle::Unbuilt ==> r == Err::<(), RegisterError>(
                RegisterError::AlreadyCreated,
            ) && final(self).user_events@ == old(self).user_events@,
    {
        if self.state.accepts_registration() {
            self.user_events.register(key, cb);
            Ok(())
        } else {
            Err(RegisterError::AlreadyCreated)
        }
    }

    /// Registers a user callback for a plain window message.
    pub fn on_message(&mut self, wm: u32, cb: C) -> (r: Result<(), RegisterError>)
        ensures
            *final(self) == (WindowBase { user_events: final(self).user_events, ..*old(self) }),
            old(self).state == Lifecycle::Unbuilt ==> r == Ok::<(), RegisterError>(())
                && final(self).user_events@ == old(self).user_events@.insert(
                EventKey::Message { wm },
                cb,
            ),
            old(self).state != Lifecycle::Unbuilt ==> r == Err::<(), RegisterError>(
                RegisterError::AlreadyCreated,
            ) && final(self).user_events@ == old(self).user_events@,
    {
        self.on_event(EventKey::Message { wm }, cb)
    }

    /// Registers a user callback for a command notification from a control.
    pub fn on_command(&mut self, code: u16, ctrl_id: u16, cb: C) -> (r: Result<
        (),
        RegisterError,
    >)
        ensures
            *final(self) == (WindowBase { user_events: final(self).user_events, ..*old(self) }),
            old(self).state == Lifecycle::Unbuilt ==> r == Ok::<(), RegisterError>(())
                && final(self).user_events@ == old(self).user_events@.insert(
                EventKey::Command { code, ctrl_id },
                cb,
            ),
            old(self).state != Lifecycle::Unbuilt ==> r == Err::<(), RegisterError>(
                RegisterError::AlreadyCreated,
            ) && final(self).user_events@ == old(self).user_events@,
    {
        self.on_event(EventKey::Command { code, ctrl_id }, cb)
    }

    /// Registers a user callback for a control notification.
    pub fn on_notify(&mut self, ctrl_id: u16, nfy_code: i32, cb: C) -> (r: Result<
        (),
        RegisterError,
    >)
        ensures
            *final(self) == (WindowBase { user_events: final(self).user_events, ..*old(self) }),
            old(self).state == Lifecycle::Unbuilt ==> r == Ok::<(), RegisterError>(())
                && final(self).user_events@ == old(self).user_events@.insert(
                EventKey::Notify { ctrl_id, nfy_code },
                cb,
            ),
            old(self).state != Lifecycle::Unbuilt ==> r == Err::<(), RegisterError>(
                RegisterError::AlreadyCreated,
            ) && final(self).user_events@ == old(self).user_events@,
    {
        self.on_event(EventKey::Notify { ctrl_id, nfy_code }, cb)
    }

    /// Installs one of the layer's own actions, under the same build-time
    /// gating as user callbacks.
    pub(crate) fn install_default_action(&mut self, key: EventKey, act: DefaultAction) -> (r:
        Result<(), RegisterError>)
        ensures
            *final(self) == (WindowBase {
                default_actions: final(self).default_actions,
                ..*old(self)
            }),
            old(self).state == Lifecycle::Unbuilt ==> r == Ok::<(), RegisterError>(())
                && final(self).default_actions@ == old(self).default_actions@.insert(key, act),
            old(self).state != Lifecycle::Unbuilt ==> r == Err::<(), RegisterError>(
                RegisterError::AlreadyCreated,
            ) && final(self).default_actions@ == old(self).default_actions@,
    {
        if self.state.accepts_registration() {
            self.default_actions.register(key, act);
            Ok(())
        } else {
            Err(RegisterError::AlreadyCreated)
        }
    }

    /// Looks up the user callback registered under `key`, if any.
    pub fn dispatch_user(&self, key: EventKey) -> (r: Option<C>)
        ensures
            r == dispatch_spec(self.user_events@, key),
    {
        self.user_events.dispatch(key)
    }

    /// Looks up the layer's own action registered under `key`, if any.
    pub fn dispatch_default(&self, key: EventKey) -> (r: Option<DefaultAction>)
        ensures
            r == dispatch_spec(self.default_actions@, key),
    {
        self.default_actions.dispatch(key)
    }

    /// Queues a control for deferred creation on this window's creation
    /// message.  Valid only while the window is unbuilt, like registration.
    pub fn note_pending_creation(&mut self, ctrl_id: u16) -> (r: Result<(), RegisterError>)
        ensures
            old(self).state == Lifecycle::Unbuilt ==> r == Ok::<(), RegisterError>(())
                && *final(self) == (WindowBase {
                pending_creations: final(self).pending_creations,
                ..*old(self)
            }) && final(self).pending_creations@ == old(self).pending_creations@.push(ctrl_id),
            old(self).state != Lifecycle::Unbuilt ==> r == Err::<(), RegisterError>(
                RegisterError::AlreadyCreated,
            ) && *final(self) == *old(self),
    {
        if self.state.accepts_registration() {
            self.pending_creations.push(ctrl_id);
            Ok(())
        } else {
            Err(RegisterError::AlreadyCreated)
        }
    }

    /// Subscribes a control to this window's resize message, so that the
    /// control re-lays itself out whenever the window's client area changes.
    /// Valid only while the window is unbuilt, like registration.
    pub fn note_resize_subscription(&mut self, ctrl_id: u16) -> (r: Result<(), RegisterError>)
        ensures
            old(self).state == Lifecycle::Unbuilt ==> r == Ok::<(), RegisterError>(())
                && *final(self) == (WindowBase {
                resize_subscribers: final(self).resize_subscribers,
                ..*old(self)
            }) && final(self).resize_subscribers@ == old(self).resize_subscribers@.push(ctrl_id),
            old(self).state != Lifecycle::Unbuilt ==> r == Err::<(), RegisterError>(
                RegisterError::AlreadyCreated,
            ) && *final(self) == *old(self),
    {
        if self.state.accepts_registration() {
            self.resize_subscribers.push(ctrl_id);
            Ok(())
        } else {
            Err(RegisterError::AlreadyCreated)
        }
    }

    /// Records a child created under this window.
    pub fn note_child(&mut self, child: Handle)
        ensures
            *final(self) == (WindowBase { children: final(self).children, ..*old(self) }),
            final(self).children@ == old(self).children@.push(child),
    {
        self.children.push(child);
    }

    /// The first created child, the one focus is delegated to.
    pub fn first_child(&self) -> (r: Option<Handle>)
        ensures
            r == if self.children@.len() > 0 {
                Some(self.children@[0])
            } else {
                None::<Handle>
            },
    {
        if self.children.len() > 0 {
            Some(self.children[0])
        } else {
            None
        }
    }

    /// Whether `h` is a child of this window.
    #[verifier::loop_isolation(false)]
    pub fn is_child(&self, h: Handle) -> (r: bool)
        ensures
            r == self.children@.contains(h),
    {
        let n = self.children.len();
        let mut i: usize = 0;
        while i < n
            invariant
                i <= n,
                forall|j: int| 0 <= j < i ==> self.children@[j] != h,
            decreases n - i,
        {
            if self.children[i] == h {
                return true;
            }
            i += 1;
        }
        false
    }

    /// Populates the handle: the one transition from unbuilt to created.
    pub fn mark_created(&mut self, hwnd: Handle)
        requires
            old(self).state == Lifecycle::Unbuilt,
            hwnd.raw != 0,
        ensures
            *final(self) == (WindowBase { hwnd, state: Lifecycle::Created, ..*old(self) }),
    {
        self.hwnd = hwnd;
        self.state = Lifecycle::Created;
    }

    /// The window system destroyed the resource: the handle is null again.
    pub fn mark_destroyed(&mut self)
        ensures
            *final(self) == (WindowBase {
                hwnd: Handle { raw: 0 },
                state: Lifecycle::Destroyed,
                ..*old(self)
            }),
    {
        self.hwnd = Handle::null();
        self.state = Lifecycle::Destroyed;
    }
}

} // verus!
