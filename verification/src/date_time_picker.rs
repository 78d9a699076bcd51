//! The date and time picker control.

use vstd::prelude::*;

use crate::error::ErrorCode;
use crate::error::WinResult;
use crate::geometry::scale_coord;
use crate::geometry::scale_len;
use crate::geometry::scale_point;
use crate::geometry::scaled;
use crate::geometry::Dpi;
use crate::geometry::Point;
use crate::geometry::Size;
use crate::handle::Handle;
use crate::lifecycle::Lifecycle;
use crate::msg::Msg;
use crate::msg::WM_SETFONT;
use crate::styles::DTS_LONGDATEFORMAT;
use crate::styles::WS_CHILD;
use crate::styles::WS_EX_LEFT;
use crate::styles::WS_GROUP;
use crate::styles::WS_TABSTOP;
use crate::styles::WS_VISIBLE;
use crate::window::CreateRequest;
use crate::window::OptsId;
use crate::window::WindowBase;

verus! {

/// The default height of a date and time picker, in baseline pixels.
pub const DTP_DEFAULT_HEIGHT: i32 = 21;

/// Options for creating a date and time picker programmatically.
#[derive(Clone, Copy, Debug)]
pub struct DateTimePickerOpts {
    /// Position within the parent's client area, scaled to the DPI at
    /// creation.
    pub position: Point,
    /// Width in pixels, scaled to the DPI at creation; zero asks for the
    /// ideal width the control itself reports.
    pub width: u32,
    /// Date and time picker style bits.
    pub date_time_picker_style: u32,
    /// Window style bits.
    pub window_style: u32,
    /// Extended window style bits.
    pub ex_window_style: u32,
    /// The control id; zero asks for an automatically allocated one.
    pub ctrl_id: u16,
}

impl Default for DateTimePickerOpts {
    /// Position at the origin, ideal width, the long date format, a visible
    /// child window taking part in tab and group navigation, and an
    /// automatic control id.
    fn default() -> (o: DateTimePickerOpts)
        ensures
            o.position == (Point { x: 0, y: 0 }),
            o.width == 0,
            o.date_time_picker_style == DTS_LONGDATEFORMAT,
            o.window_style == WS_CHILD | WS_VISIBLE | WS_TABSTOP | WS_GROUP,
            o.ex_window_style == WS_EX_LEFT,
            o.ctrl_id == 0,
    {
        DateTimePickerOpts {
            position: Point { x: 0, y: 0 },
            width: 0,
            date_time_picker_style: DTS_LONGDATEFORMAT,
            window_style: WS_CHILD | WS_VISIBLE | WS_TABSTOP | WS_GROUP,
            ex_window_style: WS_EX_LEFT,
            ctrl_id: 0,
        }
    }
}

impl DateTimePickerOpts {
    /// Settles the control id: an explicit id stands; a zero id is replaced
    /// by the automatically allocated `auto_id`.
    pub fn define_ctrl_id(self, auto_id: u16) -> (o: DateTimePickerOpts)
        ensures
            o == (DateTimePickerOpts {
                ctrl_id: if self.ctrl_id == 0 {
                    auto_id
                } else {
                    self.ctrl_id
                },
                ..self
            }),
    {
        let ctrl_id = if self.ctrl_id == 0 {
            auto_id
        } else {
            self.ctrl_id
        };
        DateTimePickerOpts { ctrl_id, ..self }
    }
}

/// Everything the window system decided while a date and time picker
/// materialized.
pub struct DateTimePickerContext {
    /// The monitor's DPI, for scaling position and width.
    pub dpi: Dpi,
    /// The handle the creation (or dialog lookup) yielded, or its failure
    /// code.
    pub created: WinResult<Handle>,
    /// The ideal width the control reports for its current format, already
    /// in DPI pixels; adopted when the requested width is zero.
    pub ideal_cx: i32,
    /// The user-interface font the fresh control is told to draw with.
    pub ui_font: Handle,
}

/// A native date and time picker control.
pub struct DateTimePicker {
    /// The native handle; null until creation.
    pub hwnd: Handle,
    /// Where in its lifecycle the control is.
    pub state: Lifecycle,
    /// How the control materializes: from options, or from a dialog
    /// resource.
    pub opts_id: OptsId<DateTimePickerOpts>,
    /// The control's extent after creation.
    pub size: Size,
    /// The configuration messages sent to the window right after it
    /// materialized: the font for a programmatic control.
    pub setup_messages: Vec<Msg>,
}

impl DateTimePicker {
    /// The control's id, explicit or allocated.
    pub open spec fn ctrl_id_spec(&self) -> u16 {
        match self.opts_id {
            OptsId::Wnd(o) => o.ctrl_id,
            OptsId::Dlg(id) => id,
        }
    }

    /// Builds a date and time picker to be created on the parent window,
    /// and queues it for deferred creation.
    pub fn new<C: Copy>(parent: &mut WindowBase<C>, opts: DateTimePickerOpts) -> (dtp:
        DateTimePicker)
        requires
            old(parent).state == Lifecycle::Unbuilt,
        ensures
            dtp.hwnd.raw == 0,
            dtp.state == Lifecycle::Unbuilt,
            dtp.size == (Size { cx: 0, cy: 0 }),
            dtp.setup_messages@ == Seq::<Msg>::empty(),
            *final(parent) == (WindowBase {
                next_auto_id: final(parent).next_auto_id,
                pending_creations: final(parent).pending_creations,
                ..*old(parent)
            }),
            opts.ctrl_id == 0 ==> dtp.opts_id == OptsId::Wnd(
                DateTimePickerOpts { ctrl_id: old(parent).next_auto_id, ..opts },
            ) && final(parent).pending_creations@ == old(parent).pending_creations@.push(
                old(parent).next_auto_id,
            ),
            opts.ctrl_id != 0 ==> dtp.opts_id == OptsId::Wnd(opts)
                && final(parent).next_auto_id == old(parent).next_auto_id
                && final(parent).pending_creations@ == old(parent).pending_creations@.push(
                opts.ctrl_id,
            ),
    {
        let auto_id = if opts.ctrl_id == 0 {
            parent.alloc_ctrl_id()
        } else {
            opts.ctrl_id
        };
        let opts = opts.define_ctrl_id(auto_id);
        let reg = parent.note_pending_creation(opts.ctrl_id);
        proof {
            assert(reg is Ok);
        }
        DateTimePicker {
            hwnd: Handle::null(),
            state: Lifecycle::Unbuilt,
            opts_id: OptsId::Wnd(opts),
            size: Size { cx: 0, cy: 0 },
            setup_messages: Vec::new(),
        }
    }

    /// Builds a date and time picker to be loaded from the parent's dialog
    /// resource, and queues it for deferred creation.
    pub fn new_dlg<C: Copy>(parent: &mut WindowBase<C>, ctrl_id: u16) -> (dtp: DateTimePicker)
        requires
            old(parent).state == Lifecycle::Unbuilt,
        ensures
            dtp.hwnd.raw == 0,
            dtp.state == Lifecycle::Unbuilt,
            dtp.size == (Size { cx: 0, cy: 0 }),
            dtp.opts_id == OptsId::Dlg::<DateTimePickerOpts>(ctrl_id),
            dtp.setup_messages@ == Seq::<Msg>::empty(),
            *final(parent) == (WindowBase {
                pending_creations: final(parent).pending_creations,
                ..*old(parent)
            }),
            final(parent).pending_creations@ == old(parent).pending_creations@.push(ctrl_id),
    {
        let reg = parent.note_pending_creation(ctrl_id);
        proof {
            assert(reg is Ok);
        }
        DateTimePicker {
            hwnd: Handle::null(),
            state: Lifecycle::Unbuilt,
            opts_id: OptsId::Dlg(ctrl_id),
            size: Size { cx: 0, cy: 0 },
            setup_messages: Vec::new(),
        }
    }

    /// Materializes the control: a programmatic one asks for a window of
    /// the picker class at the DPI-scaled position, with the DPI-scaled
    /// width and default height, and is then told to draw with the
    /// user-interface font; a requested width of zero is replaced by the
    /// ideal width the control reports.  A dialog-loaded one only attaches
    /// to its resource-created window.
    ///
    /// Succeeds if and only if the context says the creation call did.
    pub fn create(&mut self, ctx: &DateTimePickerContext) -> (r: WinResult<Option<CreateRequest>>)
        requires
            old(self).state == Lifecycle::Unbuilt,
            ctx.created is Ok ==> ctx.created->Ok_0.raw != 0,
            scaled(DTP_DEFAULT_HEIGHT as int, ctx.dpi.y as int) <= i32::MAX,
            old(self).opts_id matches OptsId::Wnd(o) ==> o.position.x >= 0 && o.position.y >= 0
                && scaled(o.position.x as int, ctx.dpi.x as int) <= i32::MAX && scaled(
                o.position.y as int,
                ctx.dpi.y as int,
            ) <= i32::MAX && scaled(o.width as int, ctx.dpi.x as int) <= i32::MAX,
        ensures
            final(self).opts_id == old(self).opts_id,
            ctx.created is Err ==> r == Err::<Option<CreateRequest>, ErrorCode>(
                ctx.created->Err_0,
            ) && *final(self) == *old(self),
            ctx.created is Ok ==> final(self).state == Lifecycle::Created && final(self).hwnd
                == ctx.created->Ok_0,
            ctx.created is Ok ==> (old(self).opts_id matches OptsId::Dlg(_) ==> r == Ok::<
                Option<CreateRequest>,
                ErrorCode,
            >(None) && final(self).size == old(self).size && final(self).setup_messages@
                == Seq::<Msg>::empty()),
            ctx.created is Ok ==> (old(self).opts_id matches OptsId::Wnd(o) ==> r is Ok
                && r->Ok_0 is Some && (r->Ok_0->Some_0.class_name@ == "SysDateTimePick32"@
                && r->Ok_0->Some_0.text@ == Seq::<char>::empty() && r->Ok_0->Some_0.pos == (Point {
                x: scaled(o.position.x as int, ctx.dpi.x as int) as i32,
                y: scaled(o.position.y as int, ctx.dpi.y as int) as i32,
            }) && r->Ok_0->Some_0.size == (Size {
                cx: scaled(o.width as int, ctx.dpi.x as int) as i32,
                cy: scaled(DTP_DEFAULT_HEIGHT as int, ctx.dpi.y as int) as i32,
            }) && r->Ok_0->Some_0.ctrl_id == o.ctrl_id && r->Ok_0->Some_0.style
                == (o.window_style | o.date_time_picker_style) && r->Ok_0->Some_0.ex_style
                == o.ex_window_style) && final(self).size == (Size {
                cx: if scaled(o.width as int, ctx.dpi.x as int) == 0 {
                    ctx.ideal_cx
                } else {
                    scaled(o.width as int, ctx.dpi.x as int) as i32
                },
                cy: scaled(DTP_DEFAULT_HEIGHT as int, ctx.dpi.y as int) as i32,
            })),
            ctx.created is Ok ==> (old(self).opts_id matches OptsId::Wnd(_)
                ==> final(self).setup_messages@ == seq![
                (Msg {
                    hwnd: ctx.created->Ok_0,
                    code: WM_SETFONT,
                    wparam: ctx.ui_font.raw,
                    lparam: 1,
                }),
            ]),
    {
        match ctx.created {
            Err(e) => Err(e),
            Ok(h) => {
                self.hwnd = h;
                self.state = Lifecycle::Created;
                match &self.opts_id {
                    OptsId::Wnd(o) => {
                        let pos = scale_point(o.position, ctx.dpi);
                        let cx = scale_len(o.width, ctx.dpi.x) as i32;
                        let cy = scale_coord(DTP_DEFAULT_HEIGHT, ctx.dpi.y);
                        let sz = Size { cx, cy };
                        self.size = Size {
                            cx: if cx == 0 {
                                ctx.ideal_cx
                            } else {
                                cx
                            },
                            cy,
                        };
                        let mut setup: Vec<Msg> = Vec::new();
                        setup.push(
                            Msg { hwnd: h, code: WM_SETFONT, wparam: ctx.ui_font.raw, lparam: 1 },
                        );
                        self.setup_messages = setup;
                        Ok(
                            Some(
                                CreateRequest {
                                    class_name: "SysDateTimePick32".to_owned(),
                                    text: String::new(),
                                    pos,
                                    size: sz,
                                    ctrl_id: o.ctrl_id,
                                    style: o.window_style | o.date_time_picker_style,
                                    ex_style: o.ex_window_style,
                                },
                            ),
                        )
                    },
                    OptsId::Dlg(_) => {
                        self.setup_messages = Vec::new();
                        Ok(None)
                    },
                }
            },
        }
    }

    /// The control's id.
    pub fn ctrl_id(&self) -> (id: u16)
        ensures
            id == self.ctrl_id_spec(),
    {
        match &self.opts_id {
            OptsId::Wnd(o) => o.ctrl_id,
            OptsId::Dlg(id) => *id,
        }
    }
}

} // verus!
