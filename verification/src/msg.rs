//! Messages and parameter marshaling.
//!
//! A [`Msg`] is the plain-value form of one delivered window message.  The
//! packing and unpacking of command notifications into the message's first
//! parameter word is verified, with a round-trip law.

use vstd::prelude::*;

use crate::error::ErrorCode;
use crate::events::EventKey;
use crate::geometry::Size;
use crate::handle::Handle;

verus! {

/// Window creation finished.
pub const WM_CREATE: u32 = 0x0001;

/// The window is being destroyed.
pub const WM_DESTROY: u32 = 0x0002;

/// The window was resized; the parameters carry the new client size.
pub const WM_SIZE: u32 = 0x0005;

/// The window was activated or deactivated.
pub const WM_ACTIVATE: u32 = 0x0006;

/// The window received the keyboard focus.
pub const WM_SETFOCUS: u32 = 0x0007;

/// The window was asked to close.
pub const WM_CLOSE: u32 = 0x0010;

/// The quit signal: ends a message loop, carrying the exit code.
pub const WM_QUIT: u32 = 0x0012;

/// A control notification delivered to the parent window.
pub const WM_NOTIFY: u32 = 0x004E;

/// The window's non-client area is being destroyed; the last message.
pub const WM_NCDESTROY: u32 = 0x0082;

/// A dialog finished loading its controls.
pub const WM_INITDIALOG: u32 = 0x0110;

/// A command notification: menu, accelerator, or button-style control.
pub const WM_COMMAND: u32 = 0x0111;

/// Sets the font a control draws its text with; the second parameter asks
/// for an immediate redraw.
pub const WM_SETFONT: u32 = 0x0030;

/// Button message: whether the button may not get the focus-and-click
/// treatment on a click; the first parameter carries the flag.
pub const BM_SETDONTCLICK: u32 = 0x00F8;

/// Command notification code: the user clicked a button.
pub const BN_CLICKED: u16 = 0;

/// Command notification code: the user double-clicked a button.
pub const BN_DBLCLK: u16 = 5;

/// Command notification code: a button received the keyboard focus.
pub const BN_SETFOCUS: u16 = 6;

/// Command notification code: a button lost the keyboard focus.
pub const BN_KILLFOCUS: u16 = 7;

/// Control notification code: the mouse hovers over a list-view item.
pub const NM_HOVER: i32 = -13;

/// Control notification code: the control is releasing mouse capture.
pub const NM_RELEASEDCAPTURE: i32 = -16;

/// Month calendar notification: the selected date or range changed.
pub const MCN_SELCHANGE: i32 = -749;

/// Month calendar notification: day-state information is requested.
pub const MCN_GETDAYSTATE: i32 = -747;

/// Month calendar notification: the user made an explicit date selection.
pub const MCN_SELECT: i32 = -746;

/// Month calendar notification: the current view changed.
pub const MCN_VIEWCHANGE: i32 = -754;

/// Button message: act as if the user clicked the button.
pub const BM_CLICK: u32 = 0x00F5;

/// One delivered window message, in plain values.
#[derive(Clone, Copy, Debug, PartialEq, Eq, Structural)]
pub struct Msg {
    /// The window the message is addressed to.
    pub hwnd: Handle,
    /// The message code (`WM_CLOSE`, `WM_COMMAND`, ...).
    pub code: u32,
    /// The first parameter word.
    pub wparam: u64,
    /// The second parameter word.
    pub lparam: i64,
}

/// The header fields of a control notification, as the window system delivers
/// them alongside a `WM_NOTIFY` message.
#[derive(Clone, Copy, Debug, PartialEq, Eq, Structural)]
pub struct NotifyInfo {
    /// The id of the control the notification originates from.
    pub ctrl_id: u16,
    /// The notification code.
    pub nfy_code: i32,
}

/// The low word of a parameter word.
pub open spec fn loword(w: u64) -> u16 {
    (w & 0xffff) as u16
}

/// The word above the low word of a parameter word.
pub open spec fn hiword(w: u64) -> u16 {
    ((w >> 16) & 0xffff) as u16
}

/// Extracts the low word of a parameter word.
pub fn get_loword(w: u64) -> (r: u16)
    ensures
        r == loword(w),
{
    (w & 0xffff) as u16
}

/// Extracts the word above the low word of a parameter word.
pub fn get_hiword(w: u64) -> (r: u16)
    ensures
        r == hiword(w),
{
    ((w >> 16u64) & 0xffff) as u16
}

/// The notification code a command parameter word carries (its upper half).
pub open spec fn command_code(wparam: u64) -> u16 {
    hiword(wparam)
}

/// The control id a command parameter word carries (its lower half).
pub open spec fn command_ctrl_id(wparam: u64) -> u16 {
    loword(wparam)
}

/// The parameter word that carries a command notification code and the id of
/// the control it originates from.
pub fn pack_command(code: u16, ctrl_id: u16) -> (w: u64)
    ensures
        command_code(w) == code,
        command_ctrl_id(w) == ctrl_id,
        w <= 0xffff_ffff,
{
    let w = ((code as u64) << 16u64) | (ctrl_id as u64);
    proof {
        assert(((((code as u64) << 16u64) | (ctrl_id as u64)) >> 16) & 0xffff == code)
            by (bit_vector);
        assert((((code as u64) << 16u64) | (ctrl_id as u64)) & 0xffff == ctrl_id)
            by (bit_vector);
        assert(((code as u64) << 16u64) | (ctrl_id as u64) <= 0xffff_ffff) by (bit_vector);
    }
    w
}

/// Recovers the command notification code and control id from a parameter
/// word: the inverse of [`pack_command`].
pub fn unpack_command(wparam: u64) -> (r: (u16, u16))
    ensures
        r.0 == command_code(wparam),
        r.1 == command_ctrl_id(wparam),
{
    let code = ((wparam >> 16u64) & 0xffff) as u16;
    let ctrl_id = (wparam & 0xffff) as u16;
    (code, ctrl_id)
}

/// The event-table key a delivered message is dispatched under.
///
/// Command notifications are keyed by their unpacked (code, control id) pair;
/// control notifications by the decoded notification header; anything else by
/// the bare message code.
pub open spec fn key_of_msg_spec(m: Msg, nfy: Option<NotifyInfo>) -> EventKey {
    if m.code == WM_COMMAND {
        EventKey::Command { code: command_code(m.wparam), ctrl_id: command_ctrl_id(m.wparam) }
    } else if m.code == WM_NOTIFY && nfy is Some {
        EventKey::Notify { ctrl_id: nfy->Some_0.ctrl_id, nfy_code: nfy->Some_0.nfy_code }
    } else {
        EventKey::Message { wm: m.code }
    }
}

/// Computes the event-table key for a delivered message.
pub fn key_of_msg(m: &Msg, nfy: Option<NotifyInfo>) -> (k: EventKey)
    ensures
        k == key_of_msg_spec(*m, nfy),
{
    if m.code == WM_COMMAND {
        let (code, ctrl_id) = unpack_command(m.wparam);
        EventKey::Command { code, ctrl_id }
    } else if m.code == WM_NOTIFY {
        match nfy {
            Some(info) => EventKey::Notify { ctrl_id: info.ctrl_id, nfy_code: info.nfy_code },
            None => EventKey::Message { wm: m.code },
        }
    } else {
        EventKey::Message { wm: m.code }
    }
}

/// Law: packing a command notification and unpacking it again yields the
/// original code and control id, for every code and id.
pub proof fn lemma_command_round_trip(code: u16, ctrl_id: u16)
    ensures
        command_code(((code as u64) << 16u64) | (ctrl_id as u64)) == code,
        command_ctrl_id(((code as u64) << 16u64) | (ctrl_id as u64)) == ctrl_id,
{
    assert(((((code as u64) << 16u64) | (ctrl_id as u64)) >> 16) & 0xffff == code) by (bit_vector);
    assert((((code as u64) << 16u64) | (ctrl_id as u64)) & 0xffff == ctrl_id) by (bit_vector);
}

/// Why a resize message was sent.
#[derive(Clone, Copy, Debug, PartialEq, Eq, Structural)]
pub enum ResizeRequest {
    /// The window was resized normally.
    Restored,
    /// The window was minimized; layout work is skipped.
    Minimized,
    /// The window was maximized.
    Maximized,
}

/// The unpacked parameters of a resize message.
#[derive(Clone, Copy, Debug, PartialEq, Eq, Structural)]
pub struct SizeParams {
    /// Why the resize happened.
    pub request: ResizeRequest,
    /// The new size of the client area.
    pub client_area: Size,
}

/// What one turn of a message loop fetched from the window system.
///
/// Either the quit signal with its exit code, or an ordinary message together
/// with what the system already decided about it: whether it was consumed as
/// a dialog keyboard action, and the decoded notification header if it is a
/// control notification.
#[derive(Clone, Copy, Debug, PartialEq, Eq, Structural)]
pub enum Fetched {
    /// The quit signal was fetched; the loop must end with this exit code.
    Quit { exit_code: i32 },
    /// An ordinary message was fetched.
    Message {
        /// The message itself.
        msg: Msg,
        /// The decoded notification header, when `msg` is a control
        /// notification.
        nfy: Option<NotifyInfo>,
        /// Whether the keyboard-shortcut pass already consumed the message,
        /// so that ordinary dispatch is skipped.
        dialog_consumed: bool,
        /// The window holding the keyboard focus when the message was
        /// delivered, as the system reports it.
        focus: Option<Handle>,
    },
    /// The fetch itself failed; the loop ends, propagating the code.
    Failed {
        /// The failure the fetch reported.
        error: ErrorCode,
    },
}

} // verus!
