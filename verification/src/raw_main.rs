//! The main window: class registration, centered creation, its default
//! message handlers, and the main message pump.
//!
//! The default handlers implement the focus policy: on deactivation the
//! window remembers which of its descendants held the keyboard focus, on
//! reactivation it restores focus to that exact descendant, and on receiving
//! focus itself it delegates to its first child.

use vstd::prelude::*;

use crate::error::ErrorCode;
use crate::error::WinResult;
use crate::events::dispatch_spec;
use crate::events::EventKey;
use crate::geometry::scale_coord;
use crate::geometry::scaled;
use crate::geometry::Dpi;
use crate::geometry::FrameExtents;
use crate::geometry::Point;
use crate::geometry::Size;
use crate::handle::Handle;
use crate::lifecycle::Lifecycle;
use crate::msg::get_hiword;
use crate::msg::get_loword;
use crate::msg::hiword;
use crate::msg::key_of_msg;
use crate::msg::key_of_msg_spec;
use crate::msg::loword;
use crate::msg::Fetched;
use crate::msg::WM_ACTIVATE;
use crate::msg::WM_NCDESTROY;
use crate::msg::WM_SETFOCUS;
use crate::styles::CS_DBLCLKS;
use crate::styles::COLOR_BTNFACE;
use crate::styles::SW_SHOW;
use crate::styles::WS_BORDER;
use crate::styles::WS_CAPTION;
use crate::styles::WS_CLIPCHILDREN;
use crate::styles::WS_EX_LEFT;
use crate::styles::WS_SYSMENU;
use crate::styles::WS_VISIBLE;
use crate::window::focus_delegation;
use crate::window::CreateRequest;
use crate::window::DefaultAction;
use crate::window::PumpOutcome;
use crate::window::PumpStep;
use crate::window::WindowBase;
use crate::wndclass::auto_class_name;
use crate::wndclass::class_name_seed;
use crate::wndclass::generate_class_name;
use crate::wndclass::WndClassEx;

verus! {

/// Options for creating a main window programmatically.
pub struct WindowMainOpts {
    /// The window class name; empty asks for an auto-generated one.
    pub class_name: String,
    /// Window class style bits.
    pub class_style: u32,
    /// The class icon; null for none.
    pub class_icon: Handle,
    /// The class cursor; null asks for the system arrow.
    pub class_cursor: Handle,
    /// The class background brush.
    pub class_bg_brush: Handle,
    /// The window title.
    pub title: String,
    /// The client-area size, in baseline pixels, scaled to the DPI at
    /// creation.
    pub size: Size,
    /// Window style bits.
    pub style: u32,
    /// Extended window style bits.
    pub ex_style: u32,
    /// The main menu; null for none.  The window owns it.
    pub menu: Handle,
    /// The accelerator table; null for none.
    pub accel_table: Handle,
}

impl Default for WindowMainOpts {
    /// An auto-named class with double-click events, the button-face system
    /// brush, a 600 by 500 client area, and the caption, system-menu,
    /// clip-children, border and visible styles.
    fn default() -> (o: WindowMainOpts)
        ensures
            o.class_name@ == Seq::<char>::empty(),
            o.class_style == CS_DBLCLKS,
            o.class_icon.raw == 0,
            o.class_cursor.raw == 0,
            o.class_bg_brush == (Handle { raw: (COLOR_BTNFACE + 1) as u64 }),
            o.title@ == Seq::<char>::empty(),
            o.size == (Size { cx: 600, cy: 500 }),
            o.style == WS_CAPTION | WS_SYSMENU | WS_CLIPCHILDREN | WS_BORDER | WS_VISIBLE,
            o.ex_style == WS_EX_LEFT,
            o.menu.raw == 0,
            o.accel_table.raw == 0,
    {
        WindowMainOpts {
            class_name: String::new(),
            class_style: CS_DBLCLKS,
            class_icon: Handle::null(),
            class_cursor: Handle::null(),
            class_bg_brush: Handle::from_raw((COLOR_BTNFACE + 1) as u64),
            title: String::new(),
            size: Size { cx: 600, cy: 500 },
            style: WS_CAPTION | WS_SYSMENU | WS_CLIPCHILDREN | WS_BORDER | WS_VISIBLE,
            ex_style: WS_EX_LEFT,
            menu: Handle::null(),
            accel_table: Handle::null(),
        }
    }
}

impl WindowMainOpts {
    /// Fills a class registration record from these options: the given
    /// module instance, the class style, icon and brush from the options,
    /// the options' cursor or the system arrow when none was set, and the
    /// options' class name or one generated from the record's fields when
    /// the name is empty.
    pub fn generate_wndclassex(&self, hinstance: Handle, arrow_cursor: Handle) -> (wcx:
        WndClassEx)
        ensures
            wcx.hinstance == hinstance,
            wcx.style == self.class_style,
            wcx.icon == self.class_icon,
            wcx.small_icon == self.class_icon,
            wcx.background_brush == self.class_bg_brush,
            wcx.cursor == (if self.class_cursor.raw != 0 {
                self.class_cursor
            } else {
                arrow_cursor
            }),
            self.class_name@.len() > 0 ==> wcx.class_name@ == self.class_name@,
            self.class_name@.len() == 0 ==> wcx.class_name@ == auto_class_name(
                class_name_seed(
                    hinstance,
                    self.class_style,
                    self.class_icon,
                    if self.class_cursor.raw != 0 {
                        self.class_cursor
                    } else {
                        arrow_cursor
                    },
                    self.class_bg_brush,
                ),
            ),
    {
        let cursor = if self.class_cursor.raw != 0 {
            self.class_cursor
        } else {
            arrow_cursor
        };
        let class_name = if self.class_name.as_str().is_empty() {
            generate_class_name(
                (hinstance.raw ^ ((self.class_style as u64) << 32u64) ^ (self.class_icon.raw
                    << 1u64) ^ (cursor.raw << 2u64) ^ (self.class_bg_brush.raw << 3u64)),
            )
        } else {
            self.class_name.clone()
        };
        WndClassEx {
            style: self.class_style,
            class_name,
            hinstance,
            icon: self.class_icon,
            small_icon: self.class_icon,
            cursor,
            background_brush: self.class_bg_brush,
        }
    }
}

/// The horizontal client size of the main window, scaled to the DPI.
pub open spec fn main_scaled_cx(opts: WindowMainOpts, dpi: Dpi) -> int {
    scaled(opts.size.cx as int, dpi.x as int)
}

/// The vertical client size of the main window, scaled to the DPI.
pub open spec fn main_scaled_cy(opts: WindowMainOpts, dpi: Dpi) -> int {
    scaled(opts.size.cy as int, dpi.y as int)
}

/// The left edge of the created main window: the client area centered on
/// the screen, shifted left by the frame.
pub open spec fn main_left(opts: WindowMainOpts, dpi: Dpi, screen: Size, frame: FrameExtents) -> int {
    screen.cx / 2 - main_scaled_cx(opts, dpi) / 2 - frame.left
}

/// The top edge of the created main window.
pub open spec fn main_top(opts: WindowMainOpts, dpi: Dpi, screen: Size, frame: FrameExtents) -> int {
    screen.cy / 2 - main_scaled_cy(opts, dpi) / 2 - frame.top
}

/// The outer width of the created main window: the scaled client width plus
/// the frame.
pub open spec fn main_outer_cx(opts: WindowMainOpts, dpi: Dpi, frame: FrameExtents) -> int {
    main_scaled_cx(opts, dpi) + frame.left + frame.right
}

/// The outer height of the created main window.
pub open spec fn main_outer_cy(opts: WindowMainOpts, dpi: Dpi, frame: FrameExtents) -> int {
    main_scaled_cy(opts, dpi) + frame.top + frame.bottom
}

/// Everything the window system decided while a main window was set up and
/// shown.
pub struct MainContext {
    /// The module instance, or the code looking it up failed with.
    pub hinstance: WinResult<Handle>,
    /// The system arrow cursor, for classes that name no cursor.
    pub arrow_cursor: Handle,
    /// Whether class registration succeeded.
    pub registered: WinResult<()>,
    /// The monitor's DPI.
    pub dpi: Dpi,
    /// The screen size, for centering.
    pub screen: Size,
    /// The frame the chosen style adds around the client area.
    pub frame: FrameExtents,
    /// The handle the creation call yielded, or its failure code.
    pub created: WinResult<Handle>,
    /// Whether the first paint succeeded.
    pub updated: WinResult<()>,
}

/// A main window created programmatically.
pub struct RawMain<C> {
    /// Handle, lifecycle, event tables, and child bookkeeping.
    pub base: WindowBase<C>,
    /// The options the window was built with.
    pub opts: WindowMainOpts,
    /// The descendant that held the keyboard focus when the window was last
    /// deactivated, to restore on reactivation.
    pub prev_focus: Option<Handle>,
    /// The exit code posted to end the message loop, once the window is
    /// destroyed.
    pub posted_quit: Option<i32>,
    /// The creation request issued when the window materialized.
    pub creation: Option<CreateRequest>,
    /// The show command the window was shown with.
    pub shown: Option<u32>,
}

/// The focus bookkeeping step for an activation message: when not
/// minimized, deactivation remembers the focused descendant (and only a
/// descendant), and reactivation yields the remembered descendant as the
/// window to restore focus to.
pub open spec fn activate_step<C>(w: RawMain<C>, wparam: u64, focus: Option<Handle>) -> (
    RawMain<C>,
    Option<Handle>,
) {
    if hiword(wparam) != 0 {
        (w, None)
    } else if loword(wparam) == 0 {
        match focus {
            Some(h) => if w.base.children@.contains(h) {
                (RawMain { prev_focus: Some(h), ..w }, None)
            } else {
                (w, None)
            },
            None => (w, None),
        }
    } else {
        (w, w.prev_focus)
    }
}

/// One turn of the main pump: the quit signal ends the loop with its code;
/// an ordinary message addressed to this window (and not consumed as a
/// dialog keyboard action) runs the window's default handler and looks its
/// user callback up.
pub open spec fn step_main_spec<C>(w: RawMain<C>, f: Fetched) -> (RawMain<C>, PumpStep<C>) {
    match f {
        Fetched::Quit { exit_code } => (
            w,
            PumpStep::Exit { code: exit_code, callback: None, set_focus: None },
        ),
        Fetched::Failed { error } => (w, PumpStep::Fail { error }),
        Fetched::Message { msg, nfy, dialog_consumed, focus } => {
            if dialog_consumed || msg.hwnd != w.base.hwnd || w.base.state != Lifecycle::Created {
                (w, PumpStep::Continue { callback: None, set_focus: None })
            } else {
                let key = key_of_msg_spec(msg, nfy);
                let cb = dispatch_spec(w.base.user_events@, key);
                match dispatch_spec(w.base.default_actions@, key) {
                    Some(DefaultAction::RememberOrRestoreFocus) => {
                        let (w1, sf) = activate_step(w, msg.wparam, focus);
                        (w1, PumpStep::Continue { callback: cb, set_focus: sf })
                    },
                    Some(DefaultAction::DelegateFocusToFirstChild) => (
                        w,
                        PumpStep::Continue {
                            callback: cb,
                            set_focus: focus_delegation(w.base, focus),
                        },
                    ),
                    Some(DefaultAction::PostQuitZero) => (
                        RawMain { posted_quit: Some(0), ..w },
                        PumpStep::Continue { callback: cb, set_focus: None },
                    ),
                    _ => (w, PumpStep::Continue { callback: cb, set_focus: None }),
                }
            }
        },
    }
}

/// A whole run of the main pump over a sequence of fetches.
pub open spec fn pump_main_spec<C>(w: RawMain<C>, fetches: Seq<Fetched>) -> (
    RawMain<C>,
    PumpOutcome,
)
    decreases fetches.len(),
{
    if fetches.len() == 0 {
        (w, PumpOutcome::Exhausted)
    } else {
        let stepped = step_main_spec(w, fetches[0]);
        match stepped.1 {
            PumpStep::Exit { code, .. } => (stepped.0, PumpOutcome::Exited(code)),
            PumpStep::Fail { error } => (stepped.0, PumpOutcome::Failed(error)),
            PumpStep::Continue { .. } => pump_main_spec(
                stepped.0,
                fetches.subrange(1, fetches.len() as int),
            ),
        }
    }
}

/// The pump only moves the focus bookkeeping and the posted exit code;
/// everything else a main window holds flows through a run unchanged.
pub proof fn lemma_pump_main_preserves<C>(w: RawMain<C>, fetches: Seq<Fetched>)
    ensures
        pump_main_spec(w, fetches).0.base == w.base,
        pump_main_spec(w, fetches).0.opts == w.opts,
        pump_main_spec(w, fetches).0.creation == w.creation,
        pump_main_spec(w, fetches).0.shown == w.shown,
    decreases fetches.len(),
{
    if fetches.len() > 0 {
        let stepped = step_main_spec(w, fetches[0]);
        match stepped.1 {
            PumpStep::Exit { .. } => {},
            PumpStep::Fail { .. } => {},
            PumpStep::Continue { .. } => {
                lemma_pump_main_preserves(stepped.0, fetches.subrange(1, fetches.len() as int));
            },
        }
    }
}

impl<C: Copy> RawMain<C> {
    /// Builds a main window with the given options and wires its default
    /// handlers: the focus policy on activation and focus messages, and the
    /// quit signal when the window is finally destroyed.
    pub fn new(opts: WindowMainOpts) -> (w: RawMain<C>)
        ensures
            w.base.hwnd.raw == 0,
            w.base.state == Lifecycle::Unbuilt,
            w.base.parent_hwnd.raw == 0,
            w.base.dialog == false,
            w.base.user_events@ == Map::<EventKey, C>::empty(),
            w.base.default_actions@ == Map::<EventKey, DefaultAction>::empty().insert(
                EventKey::Message { wm: WM_ACTIVATE },
                DefaultAction::RememberOrRestoreFocus,
            ).insert(
                EventKey::Message { wm: WM_SETFOCUS },
                DefaultAction::DelegateFocusToFirstChild,
            ).insert(EventKey::Message { wm: WM_NCDESTROY }, DefaultAction::PostQuitZero),
            w.base.pending_creations@ == Seq::<u16>::empty(),
            w.base.resize_subscribers@ == Seq::<u16>::empty(),
            w.base.children@ == Seq::<Handle>::empty(),
            w.opts == opts,
            w.prev_focus is None,
            w.posted_quit is None,
            w.creation is None,
            w.shown is None,
    {
        let mut w = RawMain {
            base: WindowBase::new(Handle::null(), false),
            opts,
            prev_focus: None,
            posted_quit: None,
            creation: None,
            shown: None,
        };
        w.default_message_handlers();
        w
    }

    /// Wires the window's own handlers: remember-or-restore focus on
    /// activation, delegation to the first child on receiving focus, and
    /// the quit signal with exit code zero on final destruction.
    pub fn default_message_handlers(&mut self)
        requires
            old(self).base.state == Lifecycle::Unbuilt,
        ensures
            *final(self) == (RawMain { base: final(self).base, ..*old(self) }),
            final(self).base == (WindowBase {
                default_actions: final(self).base.default_actions,
                ..old(self).base
            }),
            final(self).base.default_actions@ == old(self).base.default_actions@.insert(
                EventKey::Message { wm: WM_ACTIVATE },
                DefaultAction::RememberOrRestoreFocus,
            ).insert(
                EventKey::Message { wm: WM_SETFOCUS },
                DefaultAction::DelegateFocusToFirstChild,
            ).insert(EventKey::Message { wm: WM_NCDESTROY }, DefaultAction::PostQuitZero),
    {
        let r1 = self.base.install_default_action(
            EventKey::Message { wm: WM_ACTIVATE },
            DefaultAction::RememberOrRestoreFocus,
        );
        let r2 = self.base.install_default_action(
            EventKey::Message { wm: WM_SETFOCUS },
            DefaultAction::DelegateFocusToFirstChild,
        );
        let r3 = self.base.install_default_action(
            EventKey::Message { wm: WM_NCDESTROY },
            DefaultAction::PostQuitZero,
        );
        proof {
            assert(r1 is Ok && r2 is Ok && r3 is Ok);
        }
    }

    /// The window's base state.
    pub fn base_ref(&self) -> (b: &WindowBase<C>)
        ensures
            b == &self.base,
    {
        &self.base
    }

    /// The fail-fast policy for deferred work: a failure inside a creation
    /// callback, where no caller exists to receive a result, becomes the
    /// quit signal carrying the failure code, unwinding the whole message
    /// loop rather than the single operation.
    pub fn quit_on_failure(&mut self, outcome: &WinResult<()>)
        ensures
            outcome is Ok ==> *final(self) == *old(self),
            outcome is Err ==> *final(self) == (RawMain {
                posted_quit: Some(outcome->Err_0.code as i32),
                ..*old(self)
            }),
    {
        match outcome {
            Ok(()) => {},
            Err(e) => {
                self.posted_quit = Some(e.code as i32);
            },
        }
    }

    /// Processes one fetch: exactly the step the pump model takes.
    pub fn step_main(&mut self, f: &Fetched) -> (step: PumpStep<C>)
        ensures
            ({
                let stepped = step_main_spec(*old(self), *f);
                *final(self) == stepped.0 && step == stepped.1
            }),
    {
        match f {
            Fetched::Quit { exit_code } => PumpStep::Exit {
                code: *exit_code,
                callback: None,
                set_focus: None,
            },
            Fetched::Failed { error } => PumpStep::Fail { error: *error },
            Fetched::Message { msg, nfy, dialog_consumed, focus } => {
                let own = msg.hwnd == self.base.hwnd;
                let created = match self.base.state {
                    Lifecycle::Created => true,
                    _ => false,
                };
                if *dialog_consumed || !own || !created {
                    return PumpStep::Continue { callback: None, set_focus: None };
                }
                let key = key_of_msg(msg, *nfy);
                let cb = self.base.dispatch_user(key);
                let act = self.base.dispatch_default(key);
                let mut set_focus: Option<Handle> = None;
                match act {
                    Some(DefaultAction::RememberOrRestoreFocus) => {
                        let minimized = get_hiword(msg.wparam) != 0;
                        let active = get_loword(msg.wparam) != 0;
                        if !minimized {
                            if !active {
                                match focus {
                                    Some(h) => {
                                        if self.base.is_child(*h) {
                                            self.prev_focus = Some(*h);
                                        }
                                    },
                                    None => {},
                                }
                            } else {
                                set_focus = self.prev_focus;
                            }
                        }
                    },
                    Some(DefaultAction::DelegateFocusToFirstChild) => {
                        match focus {
                            Some(h) => {
                                if *h == self.base.hwnd {
                                    set_focus = self.base.first_child();
                                }
                            },
                            None => {},
                        }
                    },
                    Some(DefaultAction::PostQuitZero) => {
                        self.posted_quit = Some(0);
                    },
                    _ => {},
                }
                PumpStep::Continue { callback: cb, set_focus }
            },
        }
    }

    /// Runs the pump over the fetched messages: exactly the fold of the
    /// step model.
    #[verifier::loop_isolation(false)]
    fn run_loop(&mut self, fetches: &Vec<Fetched>) -> (out: PumpOutcome)
        ensures
            ({
                let pumped = pump_main_spec(*old(self), fetches@);
                *final(self) == pumped.0 && out == pumped.1
            }),
    {
        let n = fetches.len();
        proof {
            assert(fetches@.subrange(0, n as int) =~= fetches@);
        }
        let mut i: usize = 0;
        while i < n
            invariant
                i <= n,
                pump_main_spec(*old(self), fetches@) == pump_main_spec(
                    *self,
                    fetches@.subrange(i as int, n as int),
                ),
            decreases n - i,
        {
            let ghost pre = *self;
            let ghost remaining = fetches@.subrange(i as int, n as int);
            let step = self.step_main(&fetches[i]);
            proof {
                assert(remaining[0] == fetches@[i as int]);
                assert(remaining.subrange(1, remaining.len() as int) =~= fetches@.subrange(
                    i + 1,
                    n as int,
                ));
            }
            match step {
                PumpStep::Exit { code, .. } => {
                    return PumpOutcome::Exited(code);
                },
                PumpStep::Fail { error } => {
                    return PumpOutcome::Failed(error);
                },
                PumpStep::Continue { .. } => {},
            }
            i += 1;
        }
        proof {
            assert(fetches@.subrange(n as int, n as int) =~= Seq::<Fetched>::empty());
        }
        PumpOutcome::Exhausted
    }

    /// Creates and shows the main window, then pumps the fetched messages.
    ///
    /// Setup follows the native order: look the module instance up, register
    /// the class, scale the client size to the DPI, center it on the screen,
    /// grow it by the frame, create, show with the given command (or the
    /// plain show), and paint once.  The first failure along that chain is
    /// returned as is; once the window exists, the pump's outcome is
    /// returned, and a failed message fetch is propagated as the error it
    /// reported.
    pub fn run_main(&mut self, ctx: &MainContext, cmd_show: Option<u32>, fetches: &Vec<
        Fetched,
    >) -> (r: WinResult<PumpOutcome>)
        requires
            old(self).base.state == Lifecycle::Unbuilt,
            ctx.created is Ok ==> ctx.created->Ok_0.raw != 0,
            ctx.hinstance is Ok && ctx.registered is Ok ==> old(self).opts.size.cx >= 0 && old(
                self,
            ).opts.size.cy >= 0 && ctx.screen.cx >= 0 && ctx.screen.cy >= 0 && main_scaled_cx(
                old(self).opts,
                ctx.dpi,
            ) <= i32::MAX && main_scaled_cy(old(self).opts, ctx.dpi) <= i32::MAX && i32::MIN
                <= main_left(old(self).opts, ctx.dpi, ctx.screen, ctx.frame) && i32::MIN
                <= main_top(old(self).opts, ctx.dpi, ctx.screen, ctx.frame) && main_outer_cx(
                old(self).opts,
                ctx.dpi,
                ctx.frame,
            ) <= i32::MAX && main_outer_cy(old(self).opts, ctx.dpi, ctx.frame) <= i32::MAX
                && main_left(old(self).opts, ctx.dpi, ctx.screen, ctx.frame) + main_outer_cx(
                old(self).opts,
                ctx.dpi,
                ctx.frame,
            ) <= i32::MAX && main_top(old(self).opts, ctx.dpi, ctx.screen, ctx.frame)
                + main_outer_cy(old(self).opts, ctx.dpi, ctx.frame) <= i32::MAX,
        ensures
            ctx.hinstance is Err ==> r == Err::<PumpOutcome, ErrorCode>(ctx.hinstance->Err_0)
                && *final(self) == *old(self),
            ctx.hinstance is Ok && ctx.registered is Err ==> r == Err::<PumpOutcome, ErrorCode>(
                ctx.registered->Err_0,
            ) && *final(self) == *old(self),
            ctx.hinstance is Ok && ctx.registered is Ok && ctx.created is Err ==> r == Err::<
                PumpOutcome,
                ErrorCode,
            >(ctx.created->Err_0) && *final(self) == *old(self),
            ctx.hinstance is Ok && ctx.registered is Ok && ctx.created is Ok
                ==> final(self).creation is Some && ({
                let req = final(self).creation->Some_0;
                &&& req.text@ == old(self).opts.title@
                &&& req.pos == (Point {
                    x: main_left(old(self).opts, ctx.dpi, ctx.screen, ctx.frame) as i32,
                    y: main_top(old(self).opts, ctx.dpi, ctx.screen, ctx.frame) as i32,
                })
                &&& req.size == (Size {
                    cx: main_outer_cx(old(self).opts, ctx.dpi, ctx.frame) as i32,
                    cy: main_outer_cy(old(self).opts, ctx.dpi, ctx.frame) as i32,
                })
                &&& req.ctrl_id == 0
                &&& req.style == old(self).opts.style
                &&& req.ex_style == old(self).opts.ex_style
                &&& (old(self).opts.class_name@.len() > 0 ==> req.class_name@ == old(
                    self,
                ).opts.class_name@)
                &&& (old(self).opts.class_name@.len() == 0 ==> req.class_name@
                    == auto_class_name(
                    class_name_seed(
                        ctx.hinstance->Ok_0,
                        old(self).opts.class_style,
                        old(self).opts.class_icon,
                        if old(self).opts.class_cursor.raw != 0 {
                            old(self).opts.class_cursor
                        } else {
                            ctx.arrow_cursor
                        },
                        old(self).opts.class_bg_brush,
                    ),
                ))
            }),
            ctx.hinstance is Ok && ctx.registered is Ok && ctx.created is Ok && ctx.updated
                is Err ==> r == Err::<PumpOutcome, ErrorCode>(ctx.updated->Err_0) && *final(self)
                == (RawMain {
                base: (WindowBase {
                    hwnd: ctx.created->Ok_0,
                    state: Lifecycle::Created,
                    ..old(self).base
                }),
                creation: final(self).creation,
                shown: Some(
                    match cmd_show {
                        Some(c) => c,
                        None => SW_SHOW,
                    },
                ),
                ..*old(self)
            }),
            ctx.hinstance is Ok && ctx.registered is Ok && ctx.created is Ok && ctx.updated
                is Ok ==> ({
                let started = RawMain {
                    base: (WindowBase {
                        hwnd: ctx.created->Ok_0,
                        state: Lifecycle::Created,
                        ..old(self).base
                    }),
                    creation: final(self).creation,
                    shown: Some(
                        match cmd_show {
                            Some(c) => c,
                            None => SW_SHOW,
                        },
                    ),
                    ..*old(self)
                };
                let pumped = pump_main_spec(started, fetches@);
                *final(self) == pumped.0 && r == (match pumped.1 {
                    PumpOutcome::Failed(e) => Err::<PumpOutcome, ErrorCode>(e),
                    other => Ok::<PumpOutcome, ErrorCode>(other),
                })
            }),
    {
        let hinst = match ctx.hinstance {
            Ok(h) => h,
            Err(e) => {
                return Err(e);
            },
        };
        let wcx = self.opts.generate_wndclassex(hinst, ctx.arrow_cursor);
        match ctx.registered {
            Ok(()) => {},
            Err(e) => {
                return Err(e);
            },
        }
        let scx = scale_coord(self.opts.size.cx, ctx.dpi.x);
        let scy = scale_coord(self.opts.size.cy, ctx.dpi.y);
        let x: i64 = ((ctx.screen.cx as u64) / 2) as i64 - ((scx as u64) / 2) as i64;
        let y: i64 = ((ctx.screen.cy as u64) / 2) as i64 - ((scy as u64) / 2) as i64;
        let left: i64 = x - ctx.frame.left as i64;
        let top: i64 = y - ctx.frame.top as i64;
        let outer_cx: i64 = scx as i64 + ctx.frame.left as i64 + ctx.frame.right as i64;
        let outer_cy: i64 = scy as i64 + ctx.frame.top as i64 + ctx.frame.bottom as i64;
        let hwnd = match ctx.created {
            Ok(h) => h,
            Err(e) => {
                return Err(e);
            },
        };
        let req = CreateRequest {
            class_name: wcx.class_name,
            text: self.opts.title.clone(),
            pos: Point { x: left as i32, y: top as i32 },
            size: Size { cx: outer_cx as i32, cy: outer_cy as i32 },
            ctrl_id: 0,
            style: self.opts.style,
            ex_style: self.opts.ex_style,
        };
        self.creation = Some(req);
        self.base.mark_created(hwnd);
        self.shown = Some(
            match cmd_show {
                Some(c) => c,
                None => SW_SHOW,
            },
        );
        match ctx.updated {
            Ok(()) => {},
            Err(e) => {
                return Err(e);
            },
        }
        let ghost started = *self;
        let out = self.run_loop(fetches);
        proof {
            lemma_pump_main_preserves(started, fetches@);
        }
        match out {
            PumpOutcome::Failed(e) => Err(e),
            other => Ok(other),
        }
    }
}

/// Law (focus restore): deactivating, not minimized, while the descendant
/// `d` holds the keyboard focus remembers `d` and asks for no focus change;
/// the next non-minimized reactivation asks to restore focus to exactly
/// `d`, whatever holds the focus by then.
pub proof fn lemma_focus_restore<C>(
    w: RawMain<C>,
    d: Handle,
    wp_deactivate: u64,
    wp_reactivate: u64,
    focus_later: Option<Handle>,
)
    requires
        w.base.children@.contains(d),
        loword(wp_deactivate) == 0,
        hiword(wp_deactivate) == 0,
        loword(wp_reactivate) != 0,
        hiword(wp_reactivate) == 0,
    ensures
        ({
            let first = activate_step(w, wp_deactivate, Some(d));
            let second = activate_step(first.0, wp_reactivate, focus_later);
            first.1 is None && first.0.prev_focus == Some(d) && second.1 == Some(d)
        }),
{
}

/// Law (focus restore, no descendant): deactivating, not minimized, while
/// nothing of the window's holds the focus remembers nothing, and the next
/// reactivation asks for no focus change: the pair is a no-op.
pub proof fn lemma_focus_restore_noop<C>(
    w: RawMain<C>,
    focus_at_deactivate: Option<Handle>,
    wp_deactivate: u64,
    wp_reactivate: u64,
    focus_later: Option<Handle>,
)
    requires
        w.prev_focus is None,
        match focus_at_deactivate {
            Some(h) => !w.base.children@.contains(h),
            None => true,
        },
        loword(wp_deactivate) == 0,
        hiword(wp_deactivate) == 0,
        loword(wp_reactivate) != 0,
        hiword(wp_reactivate) == 0,
    ensures
        ({
            let first = activate_step(w, wp_deactivate, focus_at_deactivate);
            let second = activate_step(first.0, wp_reactivate, focus_later);
            first.1 is None && second.1 is None && second.0 == w
        }),
{
}

} // verus!
