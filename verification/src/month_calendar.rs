//! The month calendar control.

use vstd::prelude::*;

use crate::datetime::zero_time;
use crate::datetime::SystemTime;
use crate::error::ErrorCode;
use crate::error::RegisterError;
use crate::error::WinResult;
use crate::error::ERROR_INVALID_PARAMETER;
use crate::error::ERROR_INVALID_WINDOW_HANDLE;
use crate::events_mc::MonthCalendarEvents;
use crate::geometry::scale_point;
use crate::geometry::scaled;
use crate::geometry::Dpi;
use crate::geometry::Point;
use crate::geometry::Size;
use crate::handle::Handle;
use crate::lifecycle::Lifecycle;
use crate::styles::MCS_NONE;
use crate::styles::WS_CHILD;
use crate::styles::WS_EX_LEFT;
use crate::styles::WS_GROUP;
use crate::styles::WS_TABSTOP;
use crate::styles::WS_VISIBLE;
use crate::window::CreateRequest;
use crate::window::OptsId;
use crate::window::WindowBase;

verus! {

/// Options for creating a month calendar programmatically.
#[derive(Clone, Copy, Debug)]
pub struct MonthCalendarOpts {
    /// Position within the parent's client area, scaled to the DPI at
    /// creation.
    pub position: Point,
    /// Month calendar style bits.
    pub month_calendar_style: u32,
    /// Window style bits.
    pub window_style: u32,
    /// Extended window style bits.
    pub ex_window_style: u32,
    /// The control id; zero asks for an automatically allocated one.
    pub ctrl_id: u16,
}

impl Default for MonthCalendarOpts {
    /// Position at the origin, no calendar styles, a visible child window
    /// taking part in tab and group navigation, and an automatic control id.
    fn default() -> (o: MonthCalendarOpts)
        ensures
            o.position == (Point { x: 0, y: 0 }),
            o.month_calendar_style == MCS_NONE,
            o.window_style == WS_CHILD | WS_VISIBLE | WS_TABSTOP | WS_GROUP,
            o.ex_window_style == WS_EX_LEFT,
            o.ctrl_id == 0,
    {
        MonthCalendarOpts {
            position: Point { x: 0, y: 0 },
            month_calendar_style: MCS_NONE,
            window_style: WS_CHILD | WS_VISIBLE | WS_TABSTOP | WS_GROUP,
            ex_window_style: WS_EX_LEFT,
            ctrl_id: 0,
        }
    }
}

impl MonthCalendarOpts {
    /// Settles the control id: an explicit id stands; a zero id is replaced
    /// by the automatically allocated `auto_id`.
    pub fn define_ctrl_id(self, auto_id: u16) -> (o: MonthCalendarOpts)
        ensures
            o == (MonthCalendarOpts {
                ctrl_id: if self.ctrl_id == 0 {
                    auto_id
                } else {
                    self.ctrl_id
                },
                ..self
            }),
    {
        let ctrl_id = if self.ctrl_id == 0 {
            auto_id
        } else {
            self.ctrl_id
        };
        MonthCalendarOpts { ctrl_id, ..self }
    }
}

/// Everything the window system decided while a month calendar materialized.
pub struct MonthCalendarContext {
    /// The monitor's DPI, for scaling the position.
    pub dpi: Dpi,
    /// The handle the creation (or dialog lookup) yielded, or its failure
    /// code.
    pub created: WinResult<Handle>,
    /// The minimum rectangle the control asks for; the control is sized to
    /// it right after creation.
    pub min_rect: Size,
    /// The date the fresh control shows: the system's current date.
    pub today: SystemTime,
}

/// A native month calendar control.
pub struct MonthCalendar {
    /// The native handle; null until creation.
    pub hwnd: Handle,
    /// Where in its lifecycle the control is.
    pub state: Lifecycle,
    /// How the control materializes: from options, or from a dialog
    /// resource.
    pub opts_id: OptsId<MonthCalendarOpts>,
    /// The control's extent, set at creation to the minimum it asks for.
    pub size: Size,
    /// The currently selected date.
    pub selection: SystemTime,
}

impl MonthCalendar {
    /// The control's id, explicit or allocated.
    pub open spec fn ctrl_id_spec(&self) -> u16 {
        match self.opts_id {
            OptsId::Wnd(o) => o.ctrl_id,
            OptsId::Dlg(id) => id,
        }
    }

    /// Builds a month calendar to be created on the parent window, and
    /// queues it for deferred creation.
    pub fn new<C: Copy>(parent: &mut WindowBase<C>, opts: MonthCalendarOpts) -> (mc:
        MonthCalendar)
        requires
            old(parent).state == Lifecycle::Unbuilt,
        ensures
            mc.hwnd.raw == 0,
            mc.state == Lifecycle::Unbuilt,
            mc.size == (Size { cx: 0, cy: 0 }),
            mc.selection == zero_time(),
            *final(parent) == (WindowBase {
                next_auto_id: final(parent).next_auto_id,
                pending_creations: final(parent).pending_creations,
                ..*old(parent)
            }),
            opts.ctrl_id == 0 ==> mc.opts_id == OptsId::Wnd(
                MonthCalendarOpts { ctrl_id: old(parent).next_auto_id, ..opts },
            ) && final(parent).pending_creations@ == old(parent).pending_creations@.push(
                old(parent).next_auto_id,
            ),
            opts.ctrl_id != 0 ==> mc.opts_id == OptsId::Wnd(opts)
                && final(parent).next_auto_id == old(parent).next_auto_id
                && final(parent).pending_creations@ == old(parent).pending_creations@.push(
                opts.ctrl_id,
            ),
    {
        let auto_id = if opts.ctrl_id == 0 {
            parent.alloc_ctrl_id()
        } else {
            opts.ctrl_id
        };
        let opts = opts.define_ctrl_id(auto_id);
        let reg = parent.note_pending_creation(opts.ctrl_id);
        proof {
            assert(reg is Ok);
        }
        MonthCalendar {
            hwnd: Handle::null(),
            state: Lifecycle::Unbuilt,
            opts_id: OptsId::Wnd(opts),
            size: Size { cx: 0, cy: 0 },
            selection: SystemTime::zeroed(),
        }
    }

    /// Builds a month calendar to be loaded from the parent's dialog
    /// resource, and queues it for deferred creation.
    pub fn new_dlg<C: Copy>(parent: &mut WindowBase<C>, ctrl_id: u16) -> (mc: MonthCalendar)
        requires
            old(parent).state == Lifecycle::Unbuilt,
        ensures
            mc.hwnd.raw == 0,
            mc.state == Lifecycle::Unbuilt,
            mc.size == (Size { cx: 0, cy: 0 }),
            mc.selection == zero_time(),
            mc.opts_id == OptsId::Dlg::<MonthCalendarOpts>(ctrl_id),
            *final(parent) == (WindowBase {
                pending_creations: final(parent).pending_creations,
                ..*old(parent)
            }),
            final(parent).pending_creations@ == old(parent).pending_creations@.push(ctrl_id),
    {
        let reg = parent.note_pending_creation(ctrl_id);
        proof {
            assert(reg is Ok);
        }
        MonthCalendar {
            hwnd: Handle::null(),
            state: Lifecycle::Unbuilt,
            opts_id: OptsId::Dlg(ctrl_id),
            size: Size { cx: 0, cy: 0 },
            selection: SystemTime::zeroed(),
        }
    }

    /// Materializes the control: a programmatic one asks for a window of the
    /// calendar class at the DPI-scaled position and is then sized to the
    /// minimum rectangle the control reports; a dialog-loaded one only
    /// attaches to its resource-created window.
    ///
    /// Succeeds, showing the system's current date, if and only if the
    /// context says the creation call did.
    pub fn create(&mut self, ctx: &MonthCalendarContext) -> (r: WinResult<Option<CreateRequest>>)
        requires
            old(self).state == Lifecycle::Unbuilt,
            ctx.created is Ok ==> ctx.created->Ok_0.raw != 0 && ctx.today.valid(),
            old(self).opts_id matches OptsId::Wnd(o) ==> o.position.x >= 0 && o.position.y >= 0
                && scaled(o.position.x as int, ctx.dpi.x as int) <= i32::MAX && scaled(
                o.position.y as int,
                ctx.dpi.y as int,
            ) <= i32::MAX,
        ensures
            final(self).opts_id == old(self).opts_id,
            ctx.created is Err ==> r == Err::<Option<CreateRequest>, ErrorCode>(
                ctx.created->Err_0,
            ) && *final(self) == *old(self),
            ctx.created is Ok ==> final(self).state == Lifecycle::Created && final(self).hwnd
                == ctx.created->Ok_0 && final(self).size == ctx.min_rect && final(self).selection
                == ctx.today,
            ctx.created is Ok ==> (old(self).opts_id matches OptsId::Dlg(_) ==> r == Ok::<
                Option<CreateRequest>,
                ErrorCode,
            >(None)),
            ctx.created is Ok ==> (old(self).opts_id matches OptsId::Wnd(o) ==> r is Ok
                && r->Ok_0 is Some && (r->Ok_0->Some_0.class_name@ == "SysMonthCal32"@
                && r->Ok_0->Some_0.text@ == Seq::<char>::empty() && r->Ok_0->Some_0.pos == (Point {
                x: scaled(o.position.x as int, ctx.dpi.x as int) as i32,
                y: scaled(o.position.y as int, ctx.dpi.y as int) as i32,
            }) && r->Ok_0->Some_0.size == (Size { cx: 0, cy: 0 }) && r->Ok_0->Some_0.ctrl_id
                == o.ctrl_id && r->Ok_0->Some_0.style == (o.window_style
                | o.month_calendar_style) && r->Ok_0->Some_0.ex_style == o.ex_window_style)),
    {
        match ctx.created {
            Err(e) => Err(e),
            Ok(h) => {
                self.hwnd = h;
                self.state = Lifecycle::Created;
                self.size = ctx.min_rect;
                self.selection = ctx.today;
                match &self.opts_id {
                    OptsId::Wnd(o) => {
                        let pos = scale_point(o.position, ctx.dpi);
                        Ok(
                            Some(
                                CreateRequest {
                                    class_name: "SysMonthCal32".to_owned(),
                                    text: String::new(),
                                    pos,
                                    size: Size { cx: 0, cy: 0 },
                                    ctrl_id: o.ctrl_id,
                                    style: o.window_style | o.month_calendar_style,
                                    ex_style: o.ex_window_style,
                                },
                            ),
                        )
                    },
                    OptsId::Dlg(_) => Ok(None),
                }
            },
        }
    }

    /// Hands out the calendar's event proxy.
    ///
    /// Event wiring is a build-time concern for the control as well as for
    /// its parent: once this control has left the unbuilt state the call is
    /// a contract violation.  (Registration through the proxy checks the
    /// parent's state in turn.)
    pub fn on(&self) -> (r: Result<MonthCalendarEvents, RegisterError>)
        ensures
            self.state == Lifecycle::Unbuilt ==> r is Ok && r->Ok_0.ctrl_id
                == self.ctrl_id_spec(),
            self.state != Lifecycle::Unbuilt ==> r == Err::<MonthCalendarEvents, RegisterError>(
                RegisterError::AlreadyCreated,
            ),
    {
        match self.state {
            Lifecycle::Unbuilt => Ok(MonthCalendarEvents::new(self.ctrl_id())),
            _ => Err(RegisterError::AlreadyCreated),
        }
    }

    /// Writes the currently selected date into `st`.  Succeeds if and only
    /// if the control exists.
    pub fn selected(&self, st: &mut SystemTime) -> (r: WinResult<()>)
        ensures
            self.state == Lifecycle::Created ==> r == Ok::<(), ErrorCode>(()) && *final(st)
                == self.selection,
            self.state != Lifecycle::Created ==> r == Err::<(), ErrorCode>(
                ErrorCode { code: ERROR_INVALID_WINDOW_HANDLE },
            ) && *final(st) == *old(st),
    {
        match self.state {
            Lifecycle::Created => {
                *st = self.selection;
                Ok(())
            },
            _ => Err(ErrorCode::new(ERROR_INVALID_WINDOW_HANDLE)),
        }
    }

    /// Selects the date `st`.  Succeeds if and only if the control exists
    /// and the date is valid; an invalid date is rejected with the
    /// invalid-parameter code and changes nothing.
    pub fn set_selected(&mut self, st: &SystemTime) -> (r: WinResult<()>)
        ensures
            old(self).state == Lifecycle::Created && st.valid() ==> r == Ok::<(), ErrorCode>(())
                && *final(self) == (MonthCalendar { selection: *st, ..*old(self) }),
            old(self).state != Lifecycle::Created ==> r == Err::<(), ErrorCode>(
                ErrorCode { code: ERROR_INVALID_WINDOW_HANDLE },
            ) && *final(self) == *old(self),
            old(self).state == Lifecycle::Created && !st.valid() ==> r == Err::<(), ErrorCode>(
                ErrorCode { code: ERROR_INVALID_PARAMETER },
            ) && *final(self) == *old(self),
    {
        let created = match self.state {
            Lifecycle::Created => true,
            _ => false,
        };
        if !created {
            Err(ErrorCode::new(ERROR_INVALID_WINDOW_HANDLE))
        } else if !st.is_valid() {
            Err(ErrorCode::new(ERROR_INVALID_PARAMETER))
        } else {
            self.selection = *st;
            Ok(())
        }
    }

    /// The control's id.
    pub fn ctrl_id(&self) -> (id: u16)
        ensures
            id == self.ctrl_id_spec(),
    {
        match &self.opts_id {
            OptsId::Wnd(o) => o.ctrl_id,
            OptsId::Dlg(id) => *id,
        }
    }
}

} // verus!
