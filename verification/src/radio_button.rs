//! The radio button control: an automatic radio button, one of a group.

use vstd::prelude::*;

use crate::error::ErrorCode;
use crate::error::RegisterError;
use crate::error::WinResult;
use crate::error::ERROR_INVALID_WINDOW_HANDLE;
use crate::events_bn::ButtonEvents;
use crate::geometry::scale_point;
use crate::geometry::scaled;
use crate::geometry::Dpi;
use crate::geometry::Point;
use crate::geometry::Size;
use crate::handle::Handle;
use crate::lifecycle::Lifecycle;
use crate::msg::Msg;
use crate::msg::BM_CLICK;
use crate::msg::BM_SETDONTCLICK;
use crate::msg::WM_SETFONT;
use crate::styles::BS_AUTORADIOBUTTON;
use crate::styles::WS_CHILD;
use crate::styles::WS_EX_LEFT;
use crate::styles::WS_VISIBLE;
use crate::window::CreateRequest;
use crate::window::OptsId;
use crate::window::WindowBase;

verus! {

/// Options for creating a radio button programmatically.
#[derive(Clone, Debug)]
pub struct RadioButtonOpts {
    /// The button's label.
    pub text: String,
    /// Position within the parent's client area, scaled to the DPI at
    /// creation.
    pub position: Point,
    /// Nudges the label down three pixels, so that text lines up with an
    /// edit control placed beside the button.
    pub baseline_text_align: bool,
    /// Button style bits.
    pub button_style: u32,
    /// Window style bits.
    pub window_style: u32,
    /// Extended window style bits.
    pub ex_window_style: u32,
    /// The control id; zero asks for an automatically allocated one.
    pub ctrl_id: u16,
}

impl Default for RadioButtonOpts {
    /// An empty label at the origin, an automatic radio button, a visible
    /// child window, and an automatic control id.
    fn default() -> (o: RadioButtonOpts)
        ensures
            o.text@ == Seq::<char>::empty(),
            o.position == (Point { x: 0, y: 0 }),
            o.baseline_text_align == false,
            o.button_style == BS_AUTORADIOBUTTON,
            o.window_style == WS_CHILD | WS_VISIBLE,
            o.ex_window_style == WS_EX_LEFT,
            o.ctrl_id == 0,
    {
        RadioButtonOpts {
            text: String::new(),
            position: Point { x: 0, y: 0 },
            baseline_text_align: false,
            button_style: BS_AUTORADIOBUTTON,
            window_style: WS_CHILD | WS_VISIBLE,
            ex_window_style: WS_EX_LEFT,
            ctrl_id: 0,
        }
    }
}

impl RadioButtonOpts {
    /// Settles the control id: an explicit id stands; a zero id is replaced
    /// by the automatically allocated `auto_id`.
    pub fn define_ctrl_id(self, auto_id: u16) -> (o: RadioButtonOpts)
        ensures
            o.text@ == self.text@,
            o.position == self.position,
            o.baseline_text_align == self.baseline_text_align,
            o.button_style == self.button_style,
            o.window_style == self.window_style,
            o.ex_window_style == self.ex_window_style,
            o.ctrl_id == if self.ctrl_id == 0 {
                auto_id
            } else {
                self.ctrl_id
            },
    {
        let ctrl_id = if self.ctrl_id == 0 {
            auto_id
        } else {
            self.ctrl_id
        };
        RadioButtonOpts { ctrl_id, ..self }
    }

    /// A field-by-field copy, kept as a named method so that the options
    /// type itself offers no public clone.
    pub fn manual_clone(&self) -> (o: RadioButtonOpts)
        ensures
            o.text@ == self.text@,
            o.position == self.position,
            o.baseline_text_align == self.baseline_text_align,
            o.button_style == self.button_style,
            o.window_style == self.window_style,
            o.ex_window_style == self.ex_window_style,
            o.ctrl_id == self.ctrl_id,
    {
        RadioButtonOpts {
            text: self.text.clone(),
            position: self.position,
            baseline_text_align: self.baseline_text_align,
            button_style: self.button_style,
            window_style: self.window_style,
            ex_window_style: self.ex_window_style,
            ctrl_id: self.ctrl_id,
        }
    }
}

/// Everything the window system decided while a radio button materialized.
pub struct RadioButtonContext {
    /// The monitor's DPI, for scaling the position.
    pub dpi: Dpi,
    /// The handle the creation (or dialog lookup) yielded, or its failure
    /// code.
    pub created: WinResult<Handle>,
    /// The extent of the label text in the current font, plus the check-box
    /// glyph: the size the button is created with.
    pub text_extent: Size,
    /// The user-interface font the fresh control is told to draw with.
    pub ui_font: Handle,
}

/// The vertical position, nudged by three pixels when baseline alignment is
/// asked for.
pub open spec fn baseline_y(position: Point, baseline_text_align: bool) -> int {
    if baseline_text_align {
        position.y + 3
    } else {
        position.y as int
    }
}

/// A native radio button control.
pub struct RadioButton {
    /// The native handle; null until creation.
    pub hwnd: Handle,
    /// Where in its lifecycle the control is.
    pub state: Lifecycle,
    /// How the control materializes: from options, or from a dialog
    /// resource.
    pub opts_id: OptsId<RadioButtonOpts>,
    /// Whether the button is currently checked.
    pub checked: bool,
    /// The configuration messages sent to the window right after it
    /// materialized: the font for a programmatic control, and the
    /// dont-click flag either way.
    pub setup_messages: Vec<Msg>,
}

impl RadioButton {
    /// The control's id, explicit or allocated.
    pub open spec fn ctrl_id_spec(&self) -> u16 {
        match self.opts_id {
            OptsId::Wnd(o) => o.ctrl_id,
            OptsId::Dlg(id) => id,
        }
    }

    /// Builds a radio button to be created on the parent window, and queues
    /// it for deferred creation.
    pub fn new<C: Copy>(parent: &mut WindowBase<C>, opts: RadioButtonOpts) -> (rb: RadioButton)
        requires
            old(parent).state == Lifecycle::Unbuilt,
        ensures
            rb.hwnd.raw == 0,
            rb.state == Lifecycle::Unbuilt,
            rb.checked == false,
            rb.opts_id is Wnd,
            rb.opts_id->Wnd_0.text@ == opts.text@,
            rb.opts_id->Wnd_0.position == opts.position,
            rb.opts_id->Wnd_0.baseline_text_align == opts.baseline_text_align,
            rb.opts_id->Wnd_0.button_style == opts.button_style,
            rb.opts_id->Wnd_0.window_style == opts.window_style,
            rb.opts_id->Wnd_0.ex_window_style == opts.ex_window_style,
            rb.opts_id->Wnd_0.ctrl_id == if opts.ctrl_id == 0 {
                old(parent).next_auto_id
            } else {
                opts.ctrl_id
            },
            rb.setup_messages@ == Seq::<Msg>::empty(),
            *final(parent) == (WindowBase {
                next_auto_id: final(parent).next_auto_id,
                pending_creations: final(parent).pending_creations,
                ..*old(parent)
            }),
            final(parent).pending_creations@ == old(parent).pending_creations@.push(
                if opts.ctrl_id == 0 {
                    old(parent).next_auto_id
                } else {
                    opts.ctrl_id
                },
            ),
            opts.ctrl_id != 0 ==> final(parent).next_auto_id == old(parent).next_auto_id,
    {
        let auto_id = if opts.ctrl_id == 0 {
            parent.alloc_ctrl_id()
        } else {
            opts.ctrl_id
        };
        let opts = opts.define_ctrl_id(auto_id);
        let reg = parent.note_pending_creation(opts.ctrl_id);
        proof {
            assert(reg is Ok);
        }
        RadioButton {
            hwnd: Handle::null(),
            state: Lifecycle::Unbuilt,
            opts_id: OptsId::Wnd(opts),
            checked: false,
            setup_messages: Vec::new(),
        }
    }

    /// Builds a radio button to be loaded from the parent's dialog
    /// resource, and queues it for deferred creation.
    pub fn new_dlg<C: Copy>(parent: &mut WindowBase<C>, ctrl_id: u16) -> (rb: RadioButton)
        requires
            old(parent).state == Lifecycle::Unbuilt,
        ensures
            rb.hwnd.raw == 0,
            rb.state == Lifecycle::Unbuilt,
            rb.checked == false,
            rb.opts_id == OptsId::Dlg::<RadioButtonOpts>(ctrl_id),
            rb.setup_messages@ == Seq::<Msg>::empty(),
            *final(parent) == (WindowBase {
                pending_creations: final(parent).pending_creations,
                ..*old(parent)
            }),
            final(parent).pending_creations@ == old(parent).pending_creations@.push(ctrl_id),
    {
        let reg = parent.note_pending_creation(ctrl_id);
        proof {
            assert(reg is Ok);
        }
        RadioButton {
            hwnd: Handle::null(),
            state: Lifecycle::Unbuilt,
            opts_id: OptsId::Dlg(ctrl_id),
            checked: false,
            setup_messages: Vec::new(),
        }
    }

    /// Materializes the control: a programmatic one asks for a button-class
    /// window labeled with the options' text, at the DPI-scaled (and, when
    /// asked, baseline-nudged) position, sized to the label's extent, and is
    /// then told to draw with the user-interface font.  A dialog-loaded one
    /// only attaches to its resource-created window.  Either way the fresh
    /// control is sent the dont-click flag.
    ///
    /// Succeeds if and only if the context says the creation call did.
    pub fn create(&mut self, ctx: &RadioButtonContext) -> (r: WinResult<Option<CreateRequest>>)
        requires
            old(self).state == Lifecycle::Unbuilt,
            ctx.created is Ok ==> ctx.created->Ok_0.raw != 0,
            old(self).opts_id matches OptsId::Wnd(o) ==> o.position.x >= 0 && o.position.y >= 0
                && o.position.y + 3 <= i32::MAX && scaled(o.position.x as int, ctx.dpi.x as int)
                <= i32::MAX && scaled(
                baseline_y(o.position, o.baseline_text_align),
                ctx.dpi.y as int,
            ) <= i32::MAX,
        ensures
            final(self).checked == old(self).checked,
            final(self).opts_id == old(self).opts_id,
            ctx.created is Err ==> r == Err::<Option<CreateRequest>, ErrorCode>(
                ctx.created->Err_0,
            ) && *final(self) == *old(self),
            ctx.created is Ok ==> final(self).state == Lifecycle::Created && final(self).hwnd
                == ctx.created->Ok_0,
            ctx.created is Ok ==> (old(self).opts_id matches OptsId::Dlg(_) ==> r == Ok::<
                Option<CreateRequest>,
                ErrorCode,
            >(None)),
            ctx.created is Ok ==> (old(self).opts_id matches OptsId::Wnd(o) ==> r is Ok
                && r->Ok_0 is Some && (r->Ok_0->Some_0.class_name@ == "BUTTON"@
                && r->Ok_0->Some_0.text@ == o.text@ && r->Ok_0->Some_0.pos == (Point {
                x: scaled(o.position.x as int, ctx.dpi.x as int) as i32,
                y: scaled(baseline_y(o.position, o.baseline_text_align), ctx.dpi.y as int) as i32,
            }) && r->Ok_0->Some_0.size == ctx.text_extent && r->Ok_0->Some_0.ctrl_id == o.ctrl_id
                && r->Ok_0->Some_0.style == (o.window_style | o.button_style)
                && r->Ok_0->Some_0.ex_style == o.ex_window_style)),
            ctx.created is Ok ==> (old(self).opts_id matches OptsId::Wnd(_)
                ==> final(self).setup_messages@ == seq![
                (Msg {
                    hwnd: ctx.created->Ok_0,
                    code: WM_SETFONT,
                    wparam: ctx.ui_font.raw,
                    lparam: 1,
                }),
                (Msg { hwnd: ctx.created->Ok_0, code: BM_SETDONTCLICK, wparam: 1, lparam: 0 }),
            ]),
            ctx.created is Ok ==> (old(self).opts_id matches OptsId::Dlg(_)
                ==> final(self).setup_messages@ == seq![
                (Msg { hwnd: ctx.created->Ok_0, code: BM_SETDONTCLICK, wparam: 1, lparam: 0 }),
            ]),
    {
        match ctx.created {
            Err(e) => Err(e),
            Ok(h) => {
                self.hwnd = h;
                self.state = Lifecycle::Created;
                let mut setup: Vec<Msg> = Vec::new();
                let result = match &self.opts_id {
                    OptsId::Wnd(o) => {
                        let mut pos = o.position;
                        if o.baseline_text_align {
                            pos.y = pos.y + 3;
                        }
                        let pos = scale_point(pos, ctx.dpi);
                        setup.push(
                            Msg { hwnd: h, code: WM_SETFONT, wparam: ctx.ui_font.raw, lparam: 1 },
                        );
                        Ok(
                            Some(
                                CreateRequest {
                                    class_name: "BUTTON".to_owned(),
                                    text: o.text.clone(),
                                    pos,
                                    size: ctx.text_extent,
                                    ctrl_id: o.ctrl_id,
                                    style: o.window_style | o.button_style,
                                    ex_style: o.ex_window_style,
                                },
                            ),
                        )
                    },
                    OptsId::Dlg(_) => Ok(None),
                };
                setup.push(Msg { hwnd: h, code: BM_SETDONTCLICK, wparam: 1, lparam: 0 });
                self.setup_messages = setup;
                result
            },
        }
    }

    /// Hands out the button's event proxy.
    ///
    /// Event wiring is a build-time concern for the control as well as for
    /// its parent: once this control has left the unbuilt state the call is
    /// a contract violation.  (Registration through the proxy checks the
    /// parent's state in turn.)
    pub fn on(&self) -> (r: Result<ButtonEvents, RegisterError>)
        ensures
            self.state == Lifecycle::Unbuilt ==> r is Ok && r->Ok_0.ctrl_id
                == self.ctrl_id_spec(),
            self.state != Lifecycle::Unbuilt ==> r == Err::<ButtonEvents, RegisterError>(
                RegisterError::AlreadyCreated,
            ),
    {
        match self.state {
            Lifecycle::Unbuilt => Ok(ButtonEvents::new(self.ctrl_id())),
            _ => Err(RegisterError::AlreadyCreated),
        }
    }

    /// Whether the button is checked.  A button that does not exist yet (or
    /// any longer) reports unchecked, as the native query does.
    pub fn is_checked(&self) -> (r: bool)
        ensures
            r == (self.state == Lifecycle::Created && self.checked),
    {
        match self.state {
            Lifecycle::Created => self.checked,
            _ => false,
        }
    }

    /// Sets the check state.  A no-op unless the control exists.
    pub fn set_check(&mut self, checked: bool)
        ensures
            old(self).state == Lifecycle::Created ==> *final(self) == (RadioButton {
                checked,
                ..*old(self)
            }),
            old(self).state != Lifecycle::Created ==> *final(self) == *old(self),
    {
        match self.state {
            Lifecycle::Created => {
                self.checked = checked;
            },
            _ => {},
        }
    }

    /// Fires the click event asynchronously: yields the click message to
    /// post to the queue.  Succeeds if and only if the control exists.
    pub fn trigger_click(&self) -> (r: WinResult<Msg>)
        ensures
            self.state == Lifecycle::Created ==> r == Ok::<Msg, ErrorCode>(
                Msg { hwnd: self.hwnd, code: BM_CLICK, wparam: 0, lparam: 0 },
            ),
            self.state != Lifecycle::Created ==> r == Err::<Msg, ErrorCode>(
                ErrorCode { code: ERROR_INVALID_WINDOW_HANDLE },
            ),
    {
        match self.state {
            Lifecycle::Created => Ok(Msg { hwnd: self.hwnd, code: BM_CLICK, wparam: 0, lparam: 0 }),
            _ => Err(ErrorCode::new(ERROR_INVALID_WINDOW_HANDLE)),
        }
    }

    /// The control's id.
    pub fn ctrl_id(&self) -> (id: u16)
        ensures
            id == self.ctrl_id_spec(),
    {
        match &self.opts_id {
            OptsId::Wnd(o) => o.ctrl_id,
            OptsId::Dlg(id) => *id,
        }
    }
}

} // verus!
