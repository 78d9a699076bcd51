//! The modal window: centered creation over its owner, the modal message
//! pump, and the close protocol.
//!
//! Opening a modal remembers what held the keyboard focus and disables the
//! owner.  Its close handler undoes both, synchronously: it re-enables the
//! owner, destroys the modal, and restores the remembered focus.  The pump
//! ends either on the quit signal, re-posting it for outer loops and
//! returning the carried exit code, or as soon as the modal observes its own
//! handle gone.

use vstd::prelude::*;

use crate::error::ErrorCode;
use crate::error::WinResult;
use crate::events::dispatch_spec;
use crate::events::EventKey;
use crate::geometry::adjust_window_size;
use crate::geometry::center_on;
use crate::geometry::centered_on;
use crate::geometry::scale_coord;
use crate::geometry::scaled;
use crate::geometry::Dpi;
use crate::geometry::FrameExtents;
use crate::geometry::Rect;
use crate::geometry::Size;
use crate::handle::Handle;
use crate::lifecycle::lifecycle_rank;
use crate::lifecycle::Lifecycle;
use crate::msg::key_of_msg;
use crate::msg::key_of_msg_spec;
use crate::msg::Fetched;
use crate::msg::WM_CLOSE;
use crate::msg::WM_SETFOCUS;
use crate::styles::CS_DBLCLKS;
use crate::styles::COLOR_BTNFACE;
use crate::styles::WS_BORDER;
use crate::styles::WS_CAPTION;
use crate::styles::WS_CLIPCHILDREN;
use crate::styles::WS_EX_DLGMODALFRAME;
use crate::styles::WS_EX_LEFT;
use crate::styles::WS_SYSMENU;
use crate::styles::WS_VISIBLE;
use crate::window::focus_delegation;
use crate::window::CreateRequest;
use crate::window::DefaultAction;
use crate::window::PumpOutcome;
use crate::window::PumpStep;
use crate::window::WindowBase;
use crate::wndclass::auto_class_name;
use crate::wndclass::class_name_seed;
use crate::wndclass::generate_class_name;
use crate::wndclass::WndClassEx;

verus! {

/// Options for creating a modal window programmatically.
pub struct WindowModalOpts {
    /// The window class name; empty asks for an auto-generated one.
    pub class_name: String,
    /// Window class style bits.
    pub class_style: u32,
    /// The class icon; null for none.
    pub class_icon: Handle,
    /// The class cursor; null asks for the system arrow.
    pub class_cursor: Handle,
    /// The class background brush.
    pub class_bg_brush: Handle,
    /// The window title.
    pub title: String,
    /// The client-area size, in baseline pixels, scaled to the DPI at
    /// creation.
    pub size: Size,
    /// Window style bits.
    pub style: u32,
    /// Extended window style bits.
    pub ex_style: u32,
}

impl Default for WindowModalOpts {
    /// An auto-named class with double-click events, the button-face system
    /// brush, a 500 by 400 client area, the caption, system-menu,
    /// clip-children, border and visible styles, and the modal dialog
    /// frame.
    fn default() -> (o: WindowModalOpts)
        ensures
            o.class_name@ == Seq::<char>::empty(),
            o.class_style == CS_DBLCLKS,
            o.class_icon.raw == 0,
            o.class_cursor.raw == 0,
            o.class_bg_brush == (Handle { raw: (COLOR_BTNFACE + 1) as u64 }),
            o.title@ == Seq::<char>::empty(),
            o.size == (Size { cx: 500, cy: 400 }),
            o.style == WS_CAPTION | WS_SYSMENU | WS_CLIPCHILDREN | WS_BORDER | WS_VISIBLE,
            o.ex_style == WS_EX_LEFT | WS_EX_DLGMODALFRAME,
    {
        WindowModalOpts {
            class_name: String::new(),
            class_style: CS_DBLCLKS,
            class_icon: Handle::null(),
            class_cursor: Handle::null(),
            class_bg_brush: Handle::from_raw((COLOR_BTNFACE + 1) as u64),
            title: String::new(),
            size: Size { cx: 500, cy: 400 },
            style: WS_CAPTION | WS_SYSMENU | WS_CLIPCHILDREN | WS_BORDER | WS_VISIBLE,
            ex_style: WS_EX_LEFT | WS_EX_DLGMODALFRAME,
        }
    }
}

impl WindowModalOpts {
    /// Fills a class registration record from these options: the given
    /// module instance, the class style, icon and brush from the options,
    /// the options' cursor or the system arrow when none was set, and the
    /// options' class name or one generated from the record's fields when
    /// the name is empty.
    pub fn generate_wndclassex(&self, hinstance: Handle, arrow_cursor: Handle) -> (wcx:
        WndClassEx)
        ensures
            wcx.hinstance == hinstance,
            wcx.style == self.class_style,
            wcx.icon == self.class_icon,
            wcx.small_icon == self.class_icon,
            wcx.background_brush == self.class_bg_brush,
            wcx.cursor == (if self.class_cursor.raw != 0 {
                self.class_cursor
            } else {
                arrow_cursor
            }),
            self.class_name@.len() > 0 ==> wcx.class_name@ == self.class_name@,
            self.class_name@.len() == 0 ==> wcx.class_name@ == auto_class_name(
                class_name_seed(
                    hinstance,
                    self.class_style,
                    self.class_icon,
                    if self.class_cursor.raw != 0 {
                        self.class_cursor
                    } else {
                        arrow_cursor
                    },
                    self.class_bg_brush,
                ),
            ),
    {
        let cursor = if self.class_cursor.raw != 0 {
            self.class_cursor
        } else {
            arrow_cursor
        };
        let class_name = if self.class_name.as_str().is_empty() {
            generate_class_name(
                (hinstance.raw ^ ((self.class_style as u64) << 32u64) ^ (self.class_icon.raw
                    << 1u64) ^ (cursor.raw << 2u64) ^ (self.class_bg_brush.raw << 3u64)),
            )
        } else {
            self.class_name.clone()
        };
        WndClassEx {
            style: self.class_style,
            class_name,
            hinstance,
            icon: self.class_icon,
            small_icon: self.class_icon,
            cursor,
            background_brush: self.class_bg_brush,
        }
    }
}

/// The horizontal client size of the modal, scaled to the DPI.
pub open spec fn modal_scaled_cx(opts: WindowModalOpts, dpi: Dpi) -> int {
    scaled(opts.size.cx as int, dpi.x as int)
}

/// The vertical client size of the modal, scaled to the DPI.
pub open spec fn modal_scaled_cy(opts: WindowModalOpts, dpi: Dpi) -> int {
    scaled(opts.size.cy as int, dpi.y as int)
}

/// The outer width of the modal: the scaled client width plus the frame.
pub open spec fn modal_outer_cx(opts: WindowModalOpts, dpi: Dpi, frame: FrameExtents) -> int {
    modal_scaled_cx(opts, dpi) + frame.left + frame.right
}

/// The outer height of the modal.
pub open spec fn modal_outer_cy(opts: WindowModalOpts, dpi: Dpi, frame: FrameExtents) -> int {
    modal_scaled_cy(opts, dpi) + frame.top + frame.bottom
}

/// Everything the window system decided while a modal was set up.
pub struct ModalContext {
    /// The owner's module instance, or the code looking it up failed with.
    pub hinstance: WinResult<Handle>,
    /// The system arrow cursor, for classes that name no cursor.
    pub arrow_cursor: Handle,
    /// Whether class registration succeeded.
    pub registered: WinResult<()>,
    /// What held the keyboard focus as the modal opened; restored when the
    /// modal closes.
    pub focus: Option<Handle>,
    /// The monitor's DPI.
    pub dpi: Dpi,
    /// The frame the chosen style adds around the client area.
    pub frame: FrameExtents,
    /// The owner's rectangle on screen, for centering, or the code looking
    /// it up failed with.
    pub parent_rect: WinResult<Rect>,
    /// The handle the creation call yielded, or its failure code.
    pub created: WinResult<Handle>,
}

/// A modal window created programmatically over an owner.
pub struct RawModal<C> {
    /// Handle, lifecycle, event tables, and child bookkeeping.
    pub base: WindowBase<C>,
    /// The options the window was built with.
    pub opts: WindowModalOpts,
    /// What held the keyboard focus when the modal opened.
    pub prev_focus_parent: Option<Handle>,
    /// Whether the owner is enabled; cleared while the modal runs.
    pub parent_enabled: bool,
    /// The exit code the pump re-posted for outer loops on seeing the quit
    /// signal.
    pub posted_quit: Option<i32>,
    /// The creation request issued when the window materialized.
    pub creation: Option<CreateRequest>,
}

/// The modal close protocol: with an owner present, re-enable the owner,
/// destroy the modal, and ask focus back to whatever held it when the modal
/// opened.
pub open spec fn modal_close_step<C>(w: RawModal<C>) -> (RawModal<C>, Option<Handle>) {
    if w.base.parent_hwnd.raw != 0 {
        (
            RawModal {
                base: (WindowBase {
                    hwnd: Handle { raw: 0 },
                    state: Lifecycle::Destroyed,
                    ..w.base
                }),
                parent_enabled: true,
                ..w
            },
            w.prev_focus_parent,
        )
    } else {
        (w, None)
    }
}

/// One turn of the modal pump: the quit signal is re-posted for outer loops
/// and ends the loop with its code; an ordinary message addressed to the
/// modal (and not consumed as a dialog keyboard action) runs the default
/// handler and looks its user callback up; and once the modal's own handle
/// is null the loop ends with code zero.
pub open spec fn step_modal_spec<C>(w: RawModal<C>, f: Fetched) -> (RawModal<C>, PumpStep<C>) {
    match f {
        Fetched::Quit { exit_code } => (
            RawModal { posted_quit: Some(exit_code), ..w },
            PumpStep::Exit { code: exit_code, callback: None, set_focus: None },
        ),
        Fetched::Failed { error } => (w, PumpStep::Fail { error }),
        Fetched::Message { msg, nfy, dialog_consumed, focus } => {
            let processed = if dialog_consumed || msg.hwnd != w.base.hwnd || w.base.state
                != Lifecycle::Created {
                (w, None, None)
            } else {
                let key = key_of_msg_spec(msg, nfy);
                let cb = dispatch_spec(w.base.user_events@, key);
                match dispatch_spec(w.base.default_actions@, key) {
                    Some(DefaultAction::CloseModal) => {
                        let closed = modal_close_step(w);
                        (closed.0, cb, closed.1)
                    },
                    Some(DefaultAction::DelegateFocusToFirstChild) => (
                        w,
                        cb,
                        focus_delegation(w.base, focus),
                    ),
                    _ => (w, cb, None),
                }
            };
            if processed.0.base.hwnd.raw == 0 {
                (
                    processed.0,
                    PumpStep::Exit { code: 0, callback: processed.1, set_focus: processed.2 },
                )
            } else {
                (
                    processed.0,
                    PumpStep::Continue { callback: processed.1, set_focus: processed.2 },
                )
            }
        },
    }
}

/// A whole run of the modal pump over a sequence of fetches.
pub open spec fn pump_modal_spec<C>(w: RawModal<C>, fetches: Seq<Fetched>) -> (
    RawModal<C>,
    PumpOutcome,
)
    decreases fetches.len(),
{
    if fetches.len() == 0 {
        (w, PumpOutcome::Exhausted)
    } else {
        let stepped = step_modal_spec(w, fetches[0]);
        match stepped.1 {
            PumpStep::Exit { code, .. } => (stepped.0, PumpOutcome::Exited(code)),
            PumpStep::Fail { error } => (stepped.0, PumpOutcome::Failed(error)),
            PumpStep::Continue { .. } => pump_modal_spec(
                stepped.0,
                fetches.subrange(1, fetches.len() as int),
            ),
        }
    }
}

/// The modal pump only moves the handle, lifecycle, owner-enabled flag,
/// and posted exit code; options and the creation record flow through a
/// run unchanged.
pub proof fn lemma_pump_modal_preserves<C>(w: RawModal<C>, fetches: Seq<Fetched>)
    ensures
        pump_modal_spec(w, fetches).0.opts == w.opts,
        pump_modal_spec(w, fetches).0.creation == w.creation,
        pump_modal_spec(w, fetches).0.prev_focus_parent == w.prev_focus_parent,
    decreases fetches.len(),
{
    if fetches.len() > 0 {
        let stepped = step_modal_spec(w, fetches[0]);
        match stepped.1 {
            PumpStep::Exit { .. } => {},
            PumpStep::Fail { .. } => {},
            PumpStep::Continue { .. } => {
                lemma_pump_modal_preserves(stepped.0, fetches.subrange(1, fetches.len() as int));
            },
        }
    }
}

/// Law (one-way lifecycle): the modal pump never moves a window backwards
/// along its lifecycle.  A destroyed modal never becomes created or unbuilt
/// again, whatever messages arrive.
pub proof fn lemma_modal_lifecycle_monotonic<C>(w: RawModal<C>, fetches: Seq<Fetched>)
    ensures
        lifecycle_rank(pump_modal_spec(w, fetches).0.base.state) >= lifecycle_rank(w.base.state),
    decreases fetches.len(),
{
    if fetches.len() > 0 {
        let stepped = step_modal_spec(w, fetches[0]);
        match stepped.1 {
            PumpStep::Exit { .. } => {},
            PumpStep::Fail { .. } => {},
            PumpStep::Continue { .. } => {
                lemma_modal_lifecycle_monotonic(
                    stepped.0,
                    fetches.subrange(1, fetches.len() as int),
                );
            },
        }
    }
}

impl<C: Copy> RawModal<C> {
    /// Builds a modal window owned by the window with handle `parent_hwnd`,
    /// and wires its default handlers: the close protocol, and delegation
    /// to the first child on receiving focus.
    pub fn new(parent_hwnd: Handle, opts: WindowModalOpts) -> (w: RawModal<C>)
        ensures
            w.base.hwnd.raw == 0,
            w.base.state == Lifecycle::Unbuilt,
            w.base.parent_hwnd == parent_hwnd,
            w.base.dialog == false,
            w.base.user_events@ == Map::<EventKey, C>::empty(),
            w.base.default_actions@ == Map::<EventKey, DefaultAction>::empty().insert(
                EventKey::Message { wm: WM_SETFOCUS },
                DefaultAction::DelegateFocusToFirstChild,
            ).insert(EventKey::Message { wm: WM_CLOSE }, DefaultAction::CloseModal),
            w.base.pending_creations@ == Seq::<u16>::empty(),
            w.base.resize_subscribers@ == Seq::<u16>::empty(),
            w.base.children@ == Seq::<Handle>::empty(),
            w.opts == opts,
            w.prev_focus_parent is None,
            w.parent_enabled == true,
            w.posted_quit is None,
            w.creation is None,
    {
        let mut w = RawModal {
            base: WindowBase::new(parent_hwnd, false),
            opts,
            prev_focus_parent: None,
            parent_enabled: true,
            posted_quit: None,
            creation: None,
        };
        w.default_message_handlers();
        w
    }

    /// Wires the window's own handlers: delegation to the first child on
    /// receiving focus, and the close protocol on the close message.
    pub fn default_message_handlers(&mut self)
        requires
            old(self).base.state == Lifecycle::Unbuilt,
        ensures
            *final(self) == (RawModal { base: final(self).base, ..*old(self) }),
            final(self).base == (WindowBase {
                default_actions: final(self).base.default_actions,
                ..old(self).base
            }),
            final(self).base.default_actions@ == old(self).base.default_actions@.insert(
                EventKey::Message { wm: WM_SETFOCUS },
                DefaultAction::DelegateFocusToFirstChild,
            ).insert(EventKey::Message { wm: WM_CLOSE }, DefaultAction::CloseModal),
    {
        let r1 = self.base.install_default_action(
            EventKey::Message { wm: WM_SETFOCUS },
            DefaultAction::DelegateFocusToFirstChild,
        );
        let r2 = self.base.install_default_action(
            EventKey::Message { wm: WM_CLOSE },
            DefaultAction::CloseModal,
        );
        proof {
            assert(r1 is Ok && r2 is Ok);
        }
    }

    /// The window's base state.
    pub fn base_ref(&self) -> (b: &WindowBase<C>)
        ensures
            b == &self.base,
    {
        &self.base
    }

    /// The fail-fast policy for deferred work: a failure inside a creation
    /// callback, where no caller exists to receive a result, becomes the
    /// quit signal carrying the failure code, unwinding the whole message
    /// loop rather than the single operation.
    pub fn quit_on_failure(&mut self, outcome: &WinResult<()>)
        ensures
            outcome is Ok ==> *final(self) == *old(self),
            outcome is Err ==> *final(self) == (RawModal {
                posted_quit: Some(outcome->Err_0.code as i32),
                ..*old(self)
            }),
    {
        match outcome {
            Ok(()) => {},
            Err(e) => {
                self.posted_quit = Some(e.code as i32);
            },
        }
    }

    /// Processes one fetch: exactly the step the pump model takes.
    pub fn step_modal(&mut self, f: &Fetched) -> (step: PumpStep<C>)
        ensures
            ({
                let stepped = step_modal_spec(*old(self), *f);
                *final(self) == stepped.0 && step == stepped.1
            }),
    {
        match f {
            Fetched::Quit { exit_code } => {
                self.posted_quit = Some(*exit_code);
                PumpStep::Exit { code: *exit_code, callback: None, set_focus: None }
            },
            Fetched::Failed { error } => PumpStep::Fail { error: *error },
            Fetched::Message { msg, nfy, dialog_consumed, focus } => {
                let own = msg.hwnd == self.base.hwnd;
                let created = match self.base.state {
                    Lifecycle::Created => true,
                    _ => false,
                };
                let mut callback: Option<C> = None;
                let mut set_focus: Option<Handle> = None;
                if !*dialog_consumed && own && created {
                    let key = key_of_msg(msg, *nfy);
                    callback = self.base.dispatch_user(key);
                    match self.base.dispatch_default(key) {
                        Some(DefaultAction::CloseModal) => {
                            if self.base.parent_hwnd.raw != 0 {
                                self.parent_enabled = true;
                                self.base.mark_destroyed();
                                set_focus = self.prev_focus_parent;
                            }
                        },
                        Some(DefaultAction::DelegateFocusToFirstChild) => {
                            match focus {
                                Some(h) => {
                                    if *h == self.base.hwnd {
                                        set_focus = self.base.first_child();
                                    }
                                },
                                None => {},
                            }
                        },
                        _ => {},
                    }
                }
                if self.base.hwnd.raw == 0 {
                    PumpStep::Exit { code: 0, callback, set_focus }
                } else {
                    PumpStep::Continue { callback, set_focus }
                }
            },
        }
    }

    /// Runs the modal pump over the fetched messages: exactly the fold of
    /// the step model.  Ends with the quit signal's exit code, with zero
    /// when the modal observes itself destroyed, with the reported failure
    /// when a fetch fails, or exhausted when the fetches run out first.
    #[verifier::loop_isolation(false)]
    pub fn run_modal_loop(&mut self, fetches: &Vec<Fetched>) -> (out: PumpOutcome)
        ensures
            ({
                let pumped = pump_modal_spec(*old(self), fetches@);
                *final(self) == pumped.0 && out == pumped.1
            }),
    {
        let n = fetches.len();
        proof {
            assert(fetches@.subrange(0, n as int) =~= fetches@);
        }
        let mut i: usize = 0;
        while i < n
            invariant
                i <= n,
                pump_modal_spec(*old(self), fetches@) == pump_modal_spec(
                    *self,
                    fetches@.subrange(i as int, n as int),
                ),
            decreases n - i,
        {
            let ghost remaining = fetches@.subrange(i as int, n as int);
            let step = self.step_modal(&fetches[i]);
            proof {
                assert(remaining[0] == fetches@[i as int]);
                assert(remaining.subrange(1, remaining.len() as int) =~= fetches@.subrange(
                    i + 1,
                    n as int,
                ));
            }
            match step {
                PumpStep::Exit { code, .. } => {
                    return PumpOutcome::Exited(code);
                },
                PumpStep::Fail { error } => {
                    return PumpOutcome::Failed(error);
                },
                PumpStep::Continue { .. } => {},
            }
            i += 1;
        }
        proof {
            assert(fetches@.subrange(n as int, n as int) =~= Seq::<Fetched>::empty());
        }
        PumpOutcome::Exhausted
    }

    /// Creates the modal over its owner and pumps the fetched messages.
    ///
    /// Setup follows the native order: look the module instance up, register
    /// the class, remember what holds the focus, disable the owner, scale
    /// the client size to the DPI and grow it by the frame, center the
    /// result on the owner, and create.  The first failure along that chain
    /// is returned as is; once the window exists, the pump's outcome is
    /// returned, and a failed message fetch is propagated as the error it
    /// reported.
    pub fn show_modal(&mut self, ctx: &ModalContext, fetches: &Vec<Fetched>) -> (r: WinResult<
        PumpOutcome,
    >)
        requires
            old(self).base.state == Lifecycle::Unbuilt,
            old(self).base.parent_hwnd.raw != 0,
            ctx.created is Ok ==> ctx.created->Ok_0.raw != 0,
            ctx.hinstance is Ok && ctx.registered is Ok ==> old(self).opts.size.cx >= 0 && old(
                self,
            ).opts.size.cy >= 0 && modal_scaled_cx(old(self).opts, ctx.dpi) <= i32::MAX
                && modal_scaled_cy(old(self).opts, ctx.dpi) <= i32::MAX && modal_outer_cx(
                old(self).opts,
                ctx.dpi,
                ctx.frame,
            ) <= i32::MAX && modal_outer_cy(old(self).opts, ctx.dpi, ctx.frame) <= i32::MAX,
            ctx.hinstance is Ok && ctx.registered is Ok && ctx.parent_rect is Ok ==> ({
                let rc = ctx.parent_rect->Ok_0;
                &&& rc.left <= rc.right
                &&& rc.top <= rc.bottom
                &&& i32::MIN <= rc.left + (rc.right - rc.left) / 2 - modal_outer_cx(
                    old(self).opts,
                    ctx.dpi,
                    ctx.frame,
                ) / 2
                &&& i32::MIN <= rc.top + (rc.bottom - rc.top) / 2 - modal_outer_cy(
                    old(self).opts,
                    ctx.dpi,
                    ctx.frame,
                ) / 2
            }),
        ensures
            ctx.hinstance is Err ==> r == Err::<PumpOutcome, ErrorCode>(ctx.hinstance->Err_0)
                && *final(self) == *old(self),
            ctx.hinstance is Ok && ctx.registered is Err ==> r == Err::<PumpOutcome, ErrorCode>(
                ctx.registered->Err_0,
            ) && *final(self) == *old(self),
            ctx.hinstance is Ok && ctx.registered is Ok && ctx.parent_rect is Err ==> r == Err::<
                PumpOutcome,
                ErrorCode,
            >(ctx.parent_rect->Err_0) && *final(self) == (RawModal {
                prev_focus_parent: ctx.focus,
                parent_enabled: false,
                ..*old(self)
            }),
            ctx.hinstance is Ok && ctx.registered is Ok && ctx.parent_rect is Ok && ctx.created
                is Err ==> r == Err::<PumpOutcome, ErrorCode>(ctx.created->Err_0) && *final(self)
                == (RawModal { prev_focus_parent: ctx.focus, parent_enabled: false, ..*old(self) }),
            ctx.hinstance is Ok && ctx.registered is Ok && ctx.parent_rect is Ok && ctx.created
                is Ok ==> final(self).creation is Some && ({
                let req = final(self).creation->Some_0;
                &&& req.text@ == old(self).opts.title@
                &&& req.pos == centered_on(
                    ctx.parent_rect->Ok_0,
                    Size {
                        cx: modal_outer_cx(old(self).opts, ctx.dpi, ctx.frame) as i32,
                        cy: modal_outer_cy(old(self).opts, ctx.dpi, ctx.frame) as i32,
                    },
                )
                &&& req.size == (Size {
                    cx: modal_outer_cx(old(self).opts, ctx.dpi, ctx.frame) as i32,
                    cy: modal_outer_cy(old(self).opts, ctx.dpi, ctx.frame) as i32,
                })
                &&& req.ctrl_id == 0
                &&& req.style == old(self).opts.style
                &&& req.ex_style == old(self).opts.ex_style
                &&& (old(self).opts.class_name@.len() > 0 ==> req.class_name@ == old(
                    self,
                ).opts.class_name@)
                &&& (old(self).opts.class_name@.len() == 0 ==> req.class_name@
                    == auto_class_name(
                    class_name_seed(
                        ctx.hinstance->Ok_0,
                        old(self).opts.class_style,
                        old(self).opts.class_icon,
                        if old(self).opts.class_cursor.raw != 0 {
                            old(self).opts.class_cursor
                        } else {
                            ctx.arrow_cursor
                        },
                        old(self).opts.class_bg_brush,
                    ),
                ))
            }),
            ctx.hinstance is Ok && ctx.registered is Ok && ctx.parent_rect is Ok && ctx.created
                is Ok ==> ({
                let started = RawModal {
                    base: (WindowBase {
                        hwnd: ctx.created->Ok_0,
                        state: Lifecycle::Created,
                        ..old(self).base
                    }),
                    prev_focus_parent: ctx.focus,
                    parent_enabled: false,
                    creation: final(self).creation,
                    ..*old(self)
                };
                let pumped = pump_modal_spec(started, fetches@);
                *final(self) == pumped.0 && r == (match pumped.1 {
                    PumpOutcome::Failed(e) => Err::<PumpOutcome, ErrorCode>(e),
                    other => Ok::<PumpOutcome, ErrorCode>(other),
                })
            }),
    {
        let hinst = match ctx.hinstance {
            Ok(h) => h,
            Err(e) => {
                return Err(e);
            },
        };
        let wcx = self.opts.generate_wndclassex(hinst, ctx.arrow_cursor);
        match ctx.registered {
            Ok(()) => {},
            Err(e) => {
                return Err(e);
            },
        }
        self.prev_focus_parent = ctx.focus;
        self.parent_enabled = false;
        let scx = scale_coord(self.opts.size.cx, ctx.dpi.x);
        let scy = scale_coord(self.opts.size.cy, ctx.dpi.y);
        let outer = adjust_window_size(Size { cx: scx, cy: scy }, ctx.frame);
        let rc_parent = match ctx.parent_rect {
            Ok(rc) => rc,
            Err(e) => {
                return Err(e);
            },
        };
        let pos = center_on(rc_parent, outer);
        let hwnd = match ctx.created {
            Ok(h) => h,
            Err(e) => {
                return Err(e);
            },
        };
        let req = CreateRequest {
            class_name: wcx.class_name,
            text: self.opts.title.clone(),
            pos,
            size: outer,
            ctrl_id: 0,
            style: self.opts.style,
            ex_style: self.opts.ex_style,
        };
        self.creation = Some(req);
        self.base.mark_created(hwnd);
        let ghost started = *self;
        let out = self.run_modal_loop(fetches);
        proof {
            lemma_pump_modal_preserves(started, fetches@);
        }
        match out {
            PumpOutcome::Failed(e) => Err(e),
            other => Ok(other),
        }
    }
}

/// Law (modal exit code): a modal loop whose next fetch is the quit signal
/// ends with exactly the carried exit code, whatever follows in the queue
/// and whatever state the modal is in.
pub proof fn lemma_modal_quit_exit_code<C>(w: RawModal<C>, code: i32, rest: Seq<Fetched>)
    ensures
        pump_modal_spec(w, seq![Fetched::Quit { exit_code: code }] + rest).1
            == PumpOutcome::Exited(code),
        pump_modal_spec(w, seq![Fetched::Quit { exit_code: code }] + rest).0.posted_quit == Some(
            code,
        ),
{
    let fetches = seq![Fetched::Quit { exit_code: code }] + rest;
    assert(fetches[0] == Fetched::Quit { exit_code: code });
}

} // verus!
