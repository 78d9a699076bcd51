//! Status bar part layout, geometry, marshaling, and class names.

use safegui::error::ErrorCode;
use safegui::geometry::center_on;
use safegui::geometry::scale_coord;
use safegui::geometry::scale_len;
use safegui::geometry::Dpi;
use safegui::geometry::Point;
use safegui::geometry::Rect;
use safegui::geometry::Size;
use safegui::handle::Handle;
use safegui::lifecycle::Lifecycle;
use safegui::msg::key_of_msg;
use safegui::msg::pack_command;
use safegui::msg::unpack_command;
use safegui::msg::Msg;
use safegui::msg::NotifyInfo;
use safegui::msg::ResizeRequest;
use safegui::msg::SizeParams;
use safegui::msg::BN_CLICKED;
use safegui::msg::WM_COMMAND;
use safegui::msg::WM_NOTIFY;
use safegui::events::EventKey;
use safegui::status_bar::compute_right_edges;
use safegui::status_bar::StatusBar;
use safegui::status_bar::StatusBarContext;
use safegui::status_bar::StatusBarPart;
use safegui::styles::SBARS_SIZEGRIP;
use safegui::styles::SBARS_TOOLTIPS;
use safegui::styles::WS_CHILD;
use safegui::styles::WS_SIZEBOX;
use safegui::styles::WS_VISIBLE;
use safegui::window::WindowBase;
use safegui::wndclass::generate_class_name;

#[test]
fn proportional_widths_follow_the_unit_formula() {
    // Fixed widths sum to 100; weights 1 and 2 share the remaining 300.
    let parts = vec![
        StatusBarPart::Fixed(100),
        StatusBarPart::Proportional(1),
        StatusBarPart::Proportional(2),
    ];
    let edges = compute_right_edges(&parts, 400);
    assert_eq!(edges, vec![100, 200, -1]);
}

#[test]
fn last_edge_is_sentinel_despite_rounding() {
    // 5 / 2 leaves one pixel over; the first edge is the formula width 2,
    // and the sentinel closes the last part over the slack.
    let parts = vec![StatusBarPart::Proportional(1), StatusBarPart::Proportional(1)];
    let edges = compute_right_edges(&parts, 5);
    assert_eq!(edges, vec![2, -1]);
}

#[test]
fn fixed_parts_accumulate_from_the_left() {
    let parts = vec![
        StatusBarPart::Fixed(50),
        StatusBarPart::Fixed(30),
        StatusBarPart::Fixed(20),
    ];
    let edges = compute_right_edges(&parts, 200);
    assert_eq!(edges, vec![50, 80, -1]);
}

#[test]
fn single_part_is_all_sentinel() {
    let parts = vec![StatusBarPart::Fixed(50)];
    assert_eq!(compute_right_edges(&parts, 100), vec![-1]);
}

#[test]
fn status_bar_creates_scaled_and_laid_out() {
    let mut wb: WindowBase<u32> = WindowBase::new(Handle::null(), false);
    let parts = vec![
        StatusBarPart::Fixed(100),
        StatusBarPart::Proportional(1),
        StatusBarPart::Proportional(2),
    ];
    let mut sb = StatusBar::new(&mut wb, &parts);
    assert_eq!(sb.ctrl_id, 20000);
    assert_eq!(wb.pending_creations, vec![20000]);
    // The bar also subscribes to the parent's resizes.
    assert_eq!(wb.resize_subscribers, vec![20000]);
    assert_eq!(sb.state, Lifecycle::Unbuilt);

    let ctx = StatusBarContext {
        dpi: Dpi { x: 96, y: 96 },
        parent_style: WS_SIZEBOX,
        parent_client: Size { cx: 400, cy: 300 },
        created: Ok(Handle::from_raw(11)),
    };
    let req = sb.create(&ctx).unwrap();
    assert_eq!(req.class_name, "msctls_statusbar32");
    assert_eq!(req.style, WS_CHILD | WS_VISIBLE | SBARS_TOOLTIPS | SBARS_SIZEGRIP);
    assert_eq!(sb.state, Lifecycle::Created);
    assert_eq!(sb.right_edges, vec![100, 200, -1]);
}

#[test]
fn status_bar_without_resizable_parent_has_no_grip() {
    let mut wb: WindowBase<u32> = WindowBase::new(Handle::null(), false);
    let parts = vec![StatusBarPart::Proportional(1)];
    let mut sb = StatusBar::new(&mut wb, &parts);
    let ctx = StatusBarContext {
        dpi: Dpi { x: 96, y: 96 },
        parent_style: 0,
        parent_client: Size { cx: 100, cy: 100 },
        created: Ok(Handle::from_raw(12)),
    };
    let req = sb.create(&ctx).unwrap();
    assert_eq!(req.style, WS_CHILD | WS_VISIBLE | SBARS_TOOLTIPS);
}

#[test]
fn status_bar_create_failure_leaves_it_unbuilt() {
    let mut wb: WindowBase<u32> = WindowBase::new(Handle::null(), false);
    let parts = vec![StatusBarPart::Proportional(1)];
    let mut sb = StatusBar::new(&mut wb, &parts);
    let ctx = StatusBarContext {
        dpi: Dpi { x: 96, y: 96 },
        parent_style: 0,
        parent_client: Size { cx: 100, cy: 100 },
        created: Err(ErrorCode::new(8)),
    };
    assert_eq!(sb.create(&ctx).unwrap_err(), ErrorCode::new(8));
    assert_eq!(sb.state, Lifecycle::Unbuilt);
    assert_eq!(sb.hwnd, Handle::null());
    // Nothing was scaled: the materialization can be retried cleanly.
    assert_eq!(sb.parts_info, parts);
    assert!(sb.fits_client_width(0));
}

#[test]
fn status_bar_resize_recomputes_edges() {
    let mut wb: WindowBase<u32> = WindowBase::new(Handle::null(), false);
    let parts = vec![
        StatusBarPart::Fixed(100),
        StatusBarPart::Proportional(1),
        StatusBarPart::Proportional(2),
    ];
    let mut sb = StatusBar::new(&mut wb, &parts);
    let ctx = StatusBarContext {
        dpi: Dpi { x: 96, y: 96 },
        parent_style: 0,
        parent_client: Size { cx: 400, cy: 300 },
        created: Ok(Handle::from_raw(11)),
    };
    sb.create(&ctx).unwrap();
    sb.resize(&SizeParams {
        request: ResizeRequest::Restored,
        client_area: Size { cx: 600, cy: 20 },
    });
    // Unit (600 - 100) / 3 = 166: widths 100, 166, 332 from the left.
    assert_eq!(sb.right_edges, vec![100, 266, -1]);

    // A minimized resize is a no-op.
    sb.resize(&SizeParams {
        request: ResizeRequest::Minimized,
        client_area: Size { cx: 50, cy: 20 },
    });
    assert_eq!(sb.right_edges, vec![100, 266, -1]);
}

#[test]
fn status_bar_part_texts() {
    let mut wb: WindowBase<u32> = WindowBase::new(Handle::null(), false);
    let parts = vec![StatusBarPart::Proportional(1), StatusBarPart::Proportional(1)];
    let mut sb = StatusBar::new(&mut wb, &parts);
    let ctx = StatusBarContext {
        dpi: Dpi { x: 96, y: 96 },
        parent_style: 0,
        parent_client: Size { cx: 100, cy: 100 },
        created: Ok(Handle::from_raw(13)),
    };
    sb.create(&ctx).unwrap();
    assert_eq!(sb.part_count(), 2);
    assert_eq!(sb.part_text(0), "");
    assert_eq!(sb.set_part_text(1, "ready"), Ok(()));
    assert_eq!(sb.part_text(1), "ready");
    assert_eq!(sb.part_text(0), "");
    // An index beyond the last part fails with the invalid-parameter code.
    assert_eq!(sb.set_part_text(2, "x"), Err(ErrorCode::new(87)));
    assert_eq!(sb.part_text(2), "");
}

#[test]
fn dpi_scaling_rounds_to_nearest() {
    assert_eq!(scale_len(100, 96), 100);
    assert_eq!(scale_len(100, 144), 150);
    assert_eq!(scale_len(100, 120), 125);
    assert_eq!(scale_coord(21, 120), 26);
    assert_eq!(scale_coord(0, 144), 0);
}

#[test]
fn centering_splits_the_difference() {
    let outer = Rect { left: 0, top: 0, right: 400, bottom: 400 };
    assert_eq!(center_on(outer, Size { cx: 100, cy: 100 }), Point { x: 150, y: 150 });
    let shifted = Rect { left: 100, top: 100, right: 900, bottom: 700 };
    assert_eq!(center_on(shifted, Size { cx: 516, cy: 439 }), Point { x: 242, y: 181 });
}

#[test]
fn command_parameter_word_round_trips() {
    let w = pack_command(3, 257);
    assert_eq!(unpack_command(w), (3, 257));
    let w2 = pack_command(0xffff, 0);
    assert_eq!(unpack_command(w2), (0xffff, 0));
}

#[test]
fn message_keys_follow_the_message_kind() {
    let cmd = Msg {
        hwnd: Handle::from_raw(1),
        code: WM_COMMAND,
        wparam: pack_command(BN_CLICKED, 42),
        lparam: 0,
    };
    assert_eq!(
        key_of_msg(&cmd, None),
        EventKey::Command { code: BN_CLICKED, ctrl_id: 42 }
    );
    let nfy = Msg { hwnd: Handle::from_raw(1), code: WM_NOTIFY, wparam: 0, lparam: 0 };
    assert_eq!(
        key_of_msg(&nfy, Some(NotifyInfo { ctrl_id: 7, nfy_code: -13 })),
        EventKey::Notify { ctrl_id: 7, nfy_code: -13 }
    );
    let plain = Msg { hwnd: Handle::from_raw(1), code: 0x0010, wparam: 9, lparam: 9 };
    assert_eq!(key_of_msg(&plain, None), EventKey::Message { wm: 0x0010 });
}

#[test]
fn auto_class_names_are_hex_of_the_seed() {
    assert_eq!(generate_class_name(0), "wc0000000000000000");
    assert_eq!(generate_class_name(0xdeadbeef), "wc00000000deadbeef");
    assert_eq!(generate_class_name(u64::MAX), "wcffffffffffffffff");
}
