//! The main and modal message pumps: exit codes, the close protocol, and
//! the focus-restore policy.

use safegui::geometry::Dpi;
use safegui::geometry::FrameExtents;
use safegui::geometry::Point;
use safegui::geometry::Rect;
use safegui::geometry::Size;
use safegui::handle::Handle;
use safegui::lifecycle::Lifecycle;
use safegui::msg::Fetched;
use safegui::msg::Msg;
use safegui::msg::WM_ACTIVATE;
use safegui::msg::WM_CLOSE;
use safegui::msg::WM_NCDESTROY;
use safegui::msg::WM_SETFOCUS;
use safegui::raw_main::MainContext;
use safegui::raw_main::RawMain;
use safegui::raw_main::WindowMainOpts;
use safegui::raw_modal::ModalContext;
use safegui::raw_modal::RawModal;
use safegui::raw_modal::WindowModalOpts;
use safegui::window::PumpOutcome;
use safegui::window::PumpStep;

fn plain_message(hwnd: Handle, code: u32, wparam: u64, focus: Option<Handle>) -> Fetched {
    Fetched::Message {
        msg: Msg { hwnd, code, wparam, lparam: 0 },
        nfy: None,
        dialog_consumed: false,
        focus,
    }
}

fn ok_main_context() -> MainContext {
    MainContext {
        hinstance: Ok(Handle::from_raw(0x400000)),
        arrow_cursor: Handle::from_raw(0x1234),
        registered: Ok(()),
        dpi: Dpi { x: 96, y: 96 },
        screen: Size { cx: 1920, cy: 1080 },
        frame: FrameExtents { left: 8, top: 31, right: 8, bottom: 8 },
        created: Ok(Handle::from_raw(0x9000)),
        updated: Ok(()),
    }
}

fn ok_modal_context() -> ModalContext {
    ModalContext {
        hinstance: Ok(Handle::from_raw(0x400000)),
        arrow_cursor: Handle::from_raw(0x1234),
        registered: Ok(()),
        focus: Some(Handle::from_raw(0x7777)),
        dpi: Dpi { x: 96, y: 96 },
        frame: FrameExtents { left: 8, top: 31, right: 8, bottom: 8 },
        parent_rect: Ok(Rect { left: 100, top: 100, right: 900, bottom: 700 }),
        created: Ok(Handle::from_raw(0x9100)),
    }
}

#[test]
fn modal_loop_returns_injected_quit_code() {
    let parent = Handle::from_raw(0x9000);
    let mut modal: RawModal<u32> = RawModal::new(parent, WindowModalOpts::default());
    let r = modal.show_modal(&ok_modal_context(), &vec![Fetched::Quit { exit_code: 42 }]);
    assert_eq!(r, Ok(PumpOutcome::Exited(42)));
    // The quit is re-posted for outer loops.
    assert_eq!(modal.posted_quit, Some(42));
}

#[test]
fn modal_loop_quit_code_without_setup() {
    let parent = Handle::from_raw(0x9000);
    let mut modal: RawModal<u32> = RawModal::new(parent, WindowModalOpts::default());
    let out = modal.run_modal_loop(&vec![Fetched::Quit { exit_code: -7 }]);
    assert_eq!(out, PumpOutcome::Exited(-7));
    assert_eq!(modal.posted_quit, Some(-7));
}

#[test]
fn modal_close_protocol_reenables_owner_and_ends_with_zero() {
    let parent = Handle::from_raw(0x9000);
    let mut modal: RawModal<u32> = RawModal::new(parent, WindowModalOpts::default());
    let ctx = ok_modal_context();
    let hwnd = Handle::from_raw(0x9100);
    let fetches = vec![plain_message(hwnd, WM_CLOSE, 0, None)];
    let r = modal.show_modal(&ctx, &fetches);
    assert_eq!(r, Ok(PumpOutcome::Exited(0)));
    assert!(modal.parent_enabled);
    assert_eq!(modal.base.state, Lifecycle::Destroyed);
    assert_eq!(modal.base.hwnd, Handle::null());
    assert_eq!(modal.prev_focus_parent, Some(Handle::from_raw(0x7777)));
}

#[test]
fn modal_close_restores_remembered_focus() {
    let parent = Handle::from_raw(0x9000);
    let mut modal: RawModal<u32> = RawModal::new(parent, WindowModalOpts::default());
    let ctx = ok_modal_context();
    // Create, but pump nothing yet.
    let r = modal.show_modal(&ctx, &vec![]);
    assert_eq!(r, Ok(PumpOutcome::Exhausted));
    assert!(!modal.parent_enabled);
    // The close message ends the loop and asks focus back.
    let step = modal.step_modal(&plain_message(Handle::from_raw(0x9100), WM_CLOSE, 0, None));
    match step {
        PumpStep::Exit { code, set_focus, .. } => {
            assert_eq!(code, 0);
            assert_eq!(set_focus, Some(Handle::from_raw(0x7777)));
        }
        PumpStep::Continue { .. } => panic!("close must end the modal loop"),
        PumpStep::Fail { .. } => panic!("the fetch did not fail"),
    }
    assert!(modal.parent_enabled);
}

#[test]
fn modal_dialog_consumed_message_skips_dispatch() {
    let parent = Handle::from_raw(0x9000);
    let mut modal: RawModal<u32> = RawModal::new(parent, WindowModalOpts::default());
    let r = modal.show_modal(&ok_modal_context(), &vec![]);
    assert_eq!(r, Ok(PumpOutcome::Exhausted));
    let consumed = Fetched::Message {
        msg: Msg { hwnd: Handle::from_raw(0x9100), code: WM_CLOSE, wparam: 0, lparam: 0 },
        nfy: None,
        dialog_consumed: true,
        focus: None,
    };
    let step = modal.step_modal(&consumed);
    match step {
        PumpStep::Continue { callback, set_focus } => {
            assert_eq!(callback, None);
            assert_eq!(set_focus, None);
        }
        PumpStep::Exit { .. } => panic!("a consumed message must not close the modal"),
        PumpStep::Fail { .. } => panic!("the fetch did not fail"),
    }
    assert_eq!(modal.base.state, Lifecycle::Created);
}

#[test]
fn modal_creation_is_centered_on_owner() {
    let parent = Handle::from_raw(0x9000);
    let mut modal: RawModal<u32> = RawModal::new(parent, WindowModalOpts::default());
    let r = modal.show_modal(&ok_modal_context(), &vec![]);
    assert_eq!(r, Ok(PumpOutcome::Exhausted));
    let req = modal.creation.as_ref().unwrap();
    // Client 500 x 400 plus the frame: 516 x 439, centered on the owner.
    assert_eq!(req.size, Size { cx: 516, cy: 439 });
    assert_eq!(req.pos, Point { x: 242, y: 181 });
    assert_eq!(req.ctrl_id, 0);
    assert!(req.class_name.starts_with("wc"));
    assert_eq!(req.class_name.len(), 18);
}

#[test]
fn main_window_is_centered_on_screen() {
    let mut main: RawMain<u32> = RawMain::new(WindowMainOpts::default());
    let r = main.run_main(&ok_main_context(), None, &vec![]);
    assert_eq!(r, Ok(PumpOutcome::Exhausted));
    assert_eq!(main.base.state, Lifecycle::Created);
    assert_eq!(main.shown, Some(5));
    let req = main.creation.as_ref().unwrap();
    // Client 600 x 500 centered at (660, 290), shifted by the frame.
    assert_eq!(req.pos, Point { x: 652, y: 259 });
    assert_eq!(req.size, Size { cx: 616, cy: 539 });
}

#[test]
fn main_setup_failure_propagates_in_order() {
    let mut main: RawMain<u32> = RawMain::new(WindowMainOpts::default());
    let mut ctx = ok_main_context();
    ctx.registered = Err(safegui::error::ErrorCode::new(1410));
    let r = main.run_main(&ctx, None, &vec![]);
    assert_eq!(r, Err(safegui::error::ErrorCode::new(1410)));
    assert_eq!(main.base.state, Lifecycle::Unbuilt);
}

#[test]
fn main_destroy_posts_quit_and_loop_ends_on_it() {
    let mut main: RawMain<u32> = RawMain::new(WindowMainOpts::default());
    let hwnd = Handle::from_raw(0x9000);
    let fetches = vec![
        plain_message(hwnd, WM_NCDESTROY, 0, None),
        Fetched::Quit { exit_code: 0 },
    ];
    let r = main.run_main(&ok_main_context(), None, &fetches);
    assert_eq!(r, Ok(PumpOutcome::Exited(0)));
    assert_eq!(main.posted_quit, Some(0));
}

#[test]
fn focus_restored_to_exact_descendant() {
    let mut main: RawMain<u32> = RawMain::new(WindowMainOpts::default());
    let r = main.run_main(&ok_main_context(), None, &vec![]);
    assert_eq!(r, Ok(PumpOutcome::Exhausted));
    let hwnd = Handle::from_raw(0x9000);
    let child = Handle::from_raw(0x9001);
    main.base.note_child(child);

    // Deactivate (low word zero) while the child holds the focus.
    let step = main.step_main(&plain_message(hwnd, WM_ACTIVATE, 0, Some(child)));
    match step {
        PumpStep::Continue { set_focus, .. } => assert_eq!(set_focus, None),
        PumpStep::Exit { .. } => panic!("activation must not end the loop"),
        PumpStep::Fail { .. } => panic!("the fetch did not fail"),
    }
    assert_eq!(main.prev_focus, Some(child));

    // Reactivate: focus goes back to that exact descendant.
    let step = main.step_main(&plain_message(hwnd, WM_ACTIVATE, 1, None));
    match step {
        PumpStep::Continue { set_focus, .. } => assert_eq!(set_focus, Some(child)),
        PumpStep::Exit { .. } => panic!("activation must not end the loop"),
        PumpStep::Fail { .. } => panic!("the fetch did not fail"),
    }
}

#[test]
fn focus_restore_is_noop_without_focused_descendant() {
    let mut main: RawMain<u32> = RawMain::new(WindowMainOpts::default());
    let r = main.run_main(&ok_main_context(), None, &vec![]);
    assert_eq!(r, Ok(PumpOutcome::Exhausted));
    let hwnd = Handle::from_raw(0x9000);
    let stranger = Handle::from_raw(0xAAAA);

    // Deactivate while a foreign window holds the focus: nothing remembered.
    main.step_main(&plain_message(hwnd, WM_ACTIVATE, 0, Some(stranger)));
    assert_eq!(main.prev_focus, None);

    // Reactivation asks for no focus change.
    let step = main.step_main(&plain_message(hwnd, WM_ACTIVATE, 1, None));
    match step {
        PumpStep::Continue { set_focus, .. } => assert_eq!(set_focus, None),
        PumpStep::Exit { .. } => panic!("activation must not end the loop"),
        PumpStep::Fail { .. } => panic!("the fetch did not fail"),
    }
}

#[test]
fn minimized_deactivation_remembers_nothing() {
    let mut main: RawMain<u32> = RawMain::new(WindowMainOpts::default());
    let r = main.run_main(&ok_main_context(), None, &vec![]);
    assert_eq!(r, Ok(PumpOutcome::Exhausted));
    let hwnd = Handle::from_raw(0x9000);
    let child = Handle::from_raw(0x9001);
    main.base.note_child(child);
    // High word set: minimized.
    main.step_main(&plain_message(hwnd, WM_ACTIVATE, 0x0001_0000, Some(child)));
    assert_eq!(main.prev_focus, None);
}

#[test]
fn window_receiving_focus_delegates_to_first_child() {
    let mut main: RawMain<u32> = RawMain::new(WindowMainOpts::default());
    let r = main.run_main(&ok_main_context(), None, &vec![]);
    assert_eq!(r, Ok(PumpOutcome::Exhausted));
    let hwnd = Handle::from_raw(0x9000);
    let first = Handle::from_raw(0x9001);
    let second = Handle::from_raw(0x9002);
    main.base.note_child(first);
    main.base.note_child(second);
    let step = main.step_main(&plain_message(hwnd, WM_SETFOCUS, 0, Some(hwnd)));
    match step {
        PumpStep::Continue { set_focus, .. } => assert_eq!(set_focus, Some(first)),
        PumpStep::Exit { .. } => panic!("focus must not end the loop"),
        PumpStep::Fail { .. } => panic!("the fetch did not fail"),
    }
}

#[test]
fn pump_hands_back_the_registered_callback() {
    let mut main: RawMain<u32> = RawMain::new(WindowMainOpts::default());
    assert_eq!(main.base.on_command(safegui::msg::BN_CLICKED, 42, 7u32), Ok(()));
    let r = main.run_main(&ok_main_context(), None, &vec![]);
    assert_eq!(r, Ok(PumpOutcome::Exhausted));
    let hwnd = Handle::from_raw(0x9000);
    let clicked = Fetched::Message {
        msg: Msg {
            hwnd,
            code: safegui::msg::WM_COMMAND,
            wparam: safegui::msg::pack_command(safegui::msg::BN_CLICKED, 42),
            lparam: 0,
        },
        nfy: None,
        dialog_consumed: false,
        focus: None,
    };
    match main.step_main(&clicked) {
        PumpStep::Continue { callback, .. } => assert_eq!(callback, Some(7)),
        PumpStep::Exit { .. } => panic!("a command must not end the loop"),
        PumpStep::Fail { .. } => panic!("the fetch did not fail"),
    }
    // A command from another control reaches no callback.
    let other = Fetched::Message {
        msg: Msg {
            hwnd,
            code: safegui::msg::WM_COMMAND,
            wparam: safegui::msg::pack_command(safegui::msg::BN_CLICKED, 43),
            lparam: 0,
        },
        nfy: None,
        dialog_consumed: false,
        focus: None,
    };
    match main.step_main(&other) {
        PumpStep::Continue { callback, .. } => assert_eq!(callback, None),
        PumpStep::Exit { .. } => panic!("a command must not end the loop"),
        PumpStep::Fail { .. } => panic!("the fetch did not fail"),
    }
}

#[test]
fn deferred_creation_failure_becomes_a_quit_signal() {
    let mut main: RawMain<u32> = RawMain::new(WindowMainOpts::default());
    main.quit_on_failure(&Ok(()));
    assert_eq!(main.posted_quit, None);
    main.quit_on_failure(&Err(safegui::error::ErrorCode::new(8)));
    assert_eq!(main.posted_quit, Some(8));

    let parent = Handle::from_raw(0x9000);
    let mut modal: RawModal<u32> = RawModal::new(parent, WindowModalOpts::default());
    modal.quit_on_failure(&Err(safegui::error::ErrorCode::new(1400)));
    assert_eq!(modal.posted_quit, Some(1400));
}

#[test]
fn messages_for_other_windows_are_ignored() {
    let mut main: RawMain<u32> = RawMain::new(WindowMainOpts::default());
    let r = main.run_main(&ok_main_context(), None, &vec![]);
    assert_eq!(r, Ok(PumpOutcome::Exhausted));
    let stranger = Handle::from_raw(0xBBBB);
    let step = main.step_main(&plain_message(stranger, WM_NCDESTROY, 0, None));
    match step {
        PumpStep::Continue { callback, set_focus } => {
            assert_eq!(callback, None);
            assert_eq!(set_focus, None);
        }
        PumpStep::Exit { .. } => panic!("a foreign message must not end the loop"),
        PumpStep::Fail { .. } => panic!("the fetch did not fail"),
    }
    assert_eq!(main.posted_quit, None);
}

#[test]
fn failed_fetch_propagates_its_code() {
    let parent = Handle::from_raw(0x9000);
    let mut modal: RawModal<u32> = RawModal::new(parent, WindowModalOpts::default());
    let fetches = vec![Fetched::Failed { error: safegui::error::ErrorCode::new(6) }];
    let r = modal.show_modal(&ok_modal_context(), &fetches);
    assert_eq!(r, Err(safegui::error::ErrorCode::new(6)));
    // The failure is not a quit: nothing was re-posted.
    assert_eq!(modal.posted_quit, None);

    let mut main: RawMain<u32> = RawMain::new(WindowMainOpts::default());
    let r = main.run_main(&ok_main_context(), None, &fetches);
    assert_eq!(r, Err(safegui::error::ErrorCode::new(6)));
}
