//! The native control wrappers: two-phase construction and their queries.

use safegui::date_time_picker::DateTimePicker;
use safegui::date_time_picker::DateTimePickerContext;
use safegui::date_time_picker::DateTimePickerOpts;
use safegui::datetime::SystemTime;
use safegui::error::ErrorCode;
use safegui::geometry::Dpi;
use safegui::geometry::Point;
use safegui::geometry::Size;
use safegui::handle::Handle;
use safegui::lifecycle::Lifecycle;
use safegui::month_calendar::MonthCalendar;
use safegui::month_calendar::MonthCalendarContext;
use safegui::month_calendar::MonthCalendarOpts;
use safegui::msg::BM_CLICK;
use safegui::msg::Msg;
use safegui::radio_button::RadioButton;
use safegui::radio_button::RadioButtonContext;
use safegui::radio_button::RadioButtonOpts;
use safegui::window::WindowBase;

fn a_date(year: u16, month: u16, day: u16) -> SystemTime {
    SystemTime {
        year,
        month,
        day_of_week: 0,
        day,
        hour: 0,
        minute: 0,
        second: 0,
        millisecond: 0,
    }
}

#[test]
fn month_calendar_two_phase_creation() {
    let mut wb: WindowBase<u32> = WindowBase::new(Handle::null(), false);
    let mut mc = MonthCalendar::new(&mut wb, MonthCalendarOpts::default());
    assert_eq!(mc.ctrl_id(), 20000);
    assert_eq!(wb.pending_creations, vec![20000]);
    assert_eq!(mc.state, Lifecycle::Unbuilt);

    let ctx = MonthCalendarContext {
        dpi: Dpi { x: 96, y: 96 },
        created: Ok(Handle::from_raw(0x2000)),
        min_rect: Size { cx: 220, cy: 160 },
        today: a_date(2024, 2, 29),
    };
    let req = mc.create(&ctx).unwrap().unwrap();
    assert_eq!(req.class_name, "SysMonthCal32");
    assert_eq!(req.ctrl_id, 20000);
    assert_eq!(mc.state, Lifecycle::Created);
    assert_eq!(mc.size, Size { cx: 220, cy: 160 });
    assert_eq!(mc.selection, a_date(2024, 2, 29));
}

#[test]
fn month_calendar_selection_round_trip() {
    let mut wb: WindowBase<u32> = WindowBase::new(Handle::null(), false);
    let mut mc = MonthCalendar::new(&mut wb, MonthCalendarOpts::default());
    let ctx = MonthCalendarContext {
        dpi: Dpi { x: 96, y: 96 },
        created: Ok(Handle::from_raw(0x2000)),
        min_rect: Size { cx: 220, cy: 160 },
        today: a_date(2023, 7, 14),
    };
    mc.create(&ctx).unwrap();
    let picked = a_date(2025, 12, 31);
    assert_eq!(mc.set_selected(&picked), Ok(()));
    let mut out = SystemTime::zeroed();
    assert_eq!(mc.selected(&mut out), Ok(()));
    assert_eq!(out, picked);
}

#[test]
fn month_calendar_rejects_invalid_dates() {
    let mut wb: WindowBase<u32> = WindowBase::new(Handle::null(), false);
    let mut mc = MonthCalendar::new(&mut wb, MonthCalendarOpts::default());
    let ctx = MonthCalendarContext {
        dpi: Dpi { x: 96, y: 96 },
        created: Ok(Handle::from_raw(0x2000)),
        min_rect: Size { cx: 220, cy: 160 },
        today: a_date(2023, 7, 14),
    };
    mc.create(&ctx).unwrap();
    // February the thirtieth does not exist.
    assert_eq!(mc.set_selected(&a_date(2024, 2, 30)), Err(ErrorCode::new(87)));
    // Nor the twenty-ninth outside a leap year.
    assert_eq!(mc.set_selected(&a_date(2023, 2, 29)), Err(ErrorCode::new(87)));
    // A leap year has it.
    assert_eq!(mc.set_selected(&a_date(2024, 2, 29)), Ok(()));
    // Century years are leap years only when divisible by four hundred.
    assert_eq!(mc.set_selected(&a_date(1900, 2, 29)), Err(ErrorCode::new(87)));
    assert_eq!(mc.set_selected(&a_date(2000, 2, 29)), Ok(()));
}

#[test]
fn month_calendar_queries_need_the_window() {
    let mut wb: WindowBase<u32> = WindowBase::new(Handle::null(), false);
    let mut mc = MonthCalendar::new(&mut wb, MonthCalendarOpts::default());
    let mut out = SystemTime::zeroed();
    assert_eq!(mc.selected(&mut out), Err(ErrorCode::new(1400)));
    assert_eq!(mc.set_selected(&a_date(2024, 1, 1)), Err(ErrorCode::new(1400)));
}

#[test]
fn month_calendar_dialog_loaded() {
    let mut wb: WindowBase<u32> = WindowBase::new(Handle::null(), true);
    let mut mc = MonthCalendar::new_dlg(&mut wb, 501);
    assert_eq!(mc.ctrl_id(), 501);
    let ctx = MonthCalendarContext {
        dpi: Dpi { x: 96, y: 96 },
        created: Ok(Handle::from_raw(0x2001)),
        min_rect: Size { cx: 220, cy: 160 },
        today: a_date(2023, 7, 14),
    };
    // A dialog-loaded control issues no creation request.
    assert_eq!(mc.create(&ctx).unwrap().is_none(), true);
    assert_eq!(mc.state, Lifecycle::Created);
}

#[test]
fn date_time_picker_uses_ideal_width_when_zero() {
    let mut wb: WindowBase<u32> = WindowBase::new(Handle::null(), false);
    let mut dtp = DateTimePicker::new(&mut wb, DateTimePickerOpts::default());
    let ctx = DateTimePickerContext {
        dpi: Dpi { x: 96, y: 96 },
        created: Ok(Handle::from_raw(0x3000)),
        ideal_cx: 250,
        ui_font: Handle::from_raw(0x5000),
    };
    let req = dtp.create(&ctx).unwrap().unwrap();
    assert_eq!(req.class_name, "SysDateTimePick32");
    assert_eq!(req.size, Size { cx: 0, cy: 21 });
    assert_eq!(dtp.size, Size { cx: 250, cy: 21 });
    // The fresh picker is told its font.
    assert_eq!(
        dtp.setup_messages,
        vec![Msg {
            hwnd: Handle::from_raw(0x3000),
            code: safegui::msg::WM_SETFONT,
            wparam: 0x5000,
            lparam: 1,
        }]
    );
}

#[test]
fn date_time_picker_explicit_width_scales() {
    let mut wb: WindowBase<u32> = WindowBase::new(Handle::null(), false);
    let opts = DateTimePickerOpts { width: 100, ..DateTimePickerOpts::default() };
    let mut dtp = DateTimePicker::new(&mut wb, opts);
    let ctx = DateTimePickerContext {
        dpi: Dpi { x: 120, y: 120 },
        created: Ok(Handle::from_raw(0x3000)),
        ideal_cx: 250,
        ui_font: Handle::from_raw(0x5000),
    };
    let req = dtp.create(&ctx).unwrap().unwrap();
    // 100 at 120 dots per inch is 125; the height 21 becomes 26.
    assert_eq!(req.size, Size { cx: 125, cy: 26 });
    assert_eq!(dtp.size, Size { cx: 125, cy: 26 });
}

#[test]
fn radio_button_creation_and_baseline_alignment() {
    let mut wb: WindowBase<u32> = WindowBase::new(Handle::null(), false);
    let opts = RadioButtonOpts {
        text: "First option".to_owned(),
        position: Point { x: 10, y: 20 },
        baseline_text_align: true,
        ..RadioButtonOpts::default()
    };
    let mut rb = RadioButton::new(&mut wb, opts);
    let ctx = RadioButtonContext {
        dpi: Dpi { x: 96, y: 96 },
        created: Ok(Handle::from_raw(0x4000)),
        text_extent: Size { cx: 98, cy: 17 },
        ui_font: Handle::from_raw(0x5000),
    };
    let req = rb.create(&ctx).unwrap().unwrap();
    assert_eq!(req.class_name, "BUTTON");
    assert_eq!(req.text, "First option");
    // The label is nudged down three pixels before scaling.
    assert_eq!(req.pos, Point { x: 10, y: 23 });
    assert_eq!(req.size, Size { cx: 98, cy: 17 });
    // The fresh button is told its font and the dont-click flag.
    assert_eq!(
        rb.setup_messages,
        vec![
            Msg {
                hwnd: Handle::from_raw(0x4000),
                code: safegui::msg::WM_SETFONT,
                wparam: 0x5000,
                lparam: 1,
            },
            Msg {
                hwnd: Handle::from_raw(0x4000),
                code: safegui::msg::BM_SETDONTCLICK,
                wparam: 1,
                lparam: 0,
            },
        ]
    );
}

#[test]
fn radio_button_check_state() {
    let mut wb: WindowBase<u32> = WindowBase::new(Handle::null(), false);
    let mut rb = RadioButton::new(&mut wb, RadioButtonOpts::default());
    // Before creation, the queries see no window.
    assert!(!rb.is_checked());
    rb.set_check(true);
    assert!(!rb.is_checked());
    assert_eq!(rb.trigger_click(), Err(ErrorCode::new(1400)));

    let ctx = RadioButtonContext {
        dpi: Dpi { x: 96, y: 96 },
        created: Ok(Handle::from_raw(0x4000)),
        text_extent: Size { cx: 50, cy: 17 },
        ui_font: Handle::from_raw(0x5000),
    };
    rb.create(&ctx).unwrap();
    assert!(!rb.is_checked());
    rb.set_check(true);
    assert!(rb.is_checked());
    rb.set_check(false);
    assert!(!rb.is_checked());

    let click = rb.trigger_click().unwrap();
    assert_eq!(click.hwnd, Handle::from_raw(0x4000));
    assert_eq!(click.code, BM_CLICK);
}

#[test]
fn explicit_ctrl_ids_are_kept() {
    let mut wb: WindowBase<u32> = WindowBase::new(Handle::null(), false);
    let opts = RadioButtonOpts { ctrl_id: 77, ..RadioButtonOpts::default() };
    let rb = RadioButton::new(&mut wb, opts);
    assert_eq!(rb.ctrl_id(), 77);
    assert_eq!(wb.pending_creations, vec![77]);
    // The automatic counter was not consumed.
    assert_eq!(wb.next_auto_id, 20000);
}

#[test]
fn manual_clone_copies_every_field() {
    let opts = RadioButtonOpts {
        text: "copy me".to_owned(),
        position: Point { x: 3, y: 4 },
        baseline_text_align: true,
        ctrl_id: 9,
        ..RadioButtonOpts::default()
    };
    let copy = opts.manual_clone();
    assert_eq!(copy.text, opts.text);
    assert_eq!(copy.position, opts.position);
    assert_eq!(copy.baseline_text_align, opts.baseline_text_align);
    assert_eq!(copy.button_style, opts.button_style);
    assert_eq!(copy.window_style, opts.window_style);
    assert_eq!(copy.ex_window_style, opts.ex_window_style);
    assert_eq!(copy.ctrl_id, opts.ctrl_id);
}

#[test]
fn define_ctrl_id_fills_only_zero() {
    let opts = MonthCalendarOpts::default().define_ctrl_id(333);
    assert_eq!(opts.ctrl_id, 333);
    let kept = MonthCalendarOpts { ctrl_id: 44, ..MonthCalendarOpts::default() }.define_ctrl_id(333);
    assert_eq!(kept.ctrl_id, 44);
    let picker = DateTimePickerOpts::default().define_ctrl_id(12);
    assert_eq!(picker.ctrl_id, 12);
    let button = RadioButtonOpts::default().define_ctrl_id(13);
    assert_eq!(button.ctrl_id, 13);
}

#[test]
fn create_failure_carries_the_system_code() {
    let mut wb: WindowBase<u32> = WindowBase::new(Handle::null(), false);
    let mut dtp = DateTimePicker::new(&mut wb, DateTimePickerOpts::default());
    let ctx = DateTimePickerContext {
        dpi: Dpi { x: 96, y: 96 },
        created: Err(ErrorCode::new(1407)),
        ideal_cx: 250,
        ui_font: Handle::from_raw(0x5000),
    };
    assert_eq!(dtp.create(&ctx).unwrap_err(), ErrorCode::new(1407));
    assert_eq!(dtp.state, Lifecycle::Unbuilt);
}

#[test]
fn control_event_wiring_is_gated_on_the_control_too() {
    let mut wb: WindowBase<u32> = WindowBase::new(Handle::null(), false);
    let mut rb = RadioButton::new(&mut wb, RadioButtonOpts::default());
    // While unbuilt, the proxy is handed out and registration works.
    let events = rb.on().unwrap();
    assert_eq!(events.ctrl_id, rb.ctrl_id());
    assert_eq!(events.bn_clicked(&mut wb, 5), Ok(()));
    // Once the control is created, wiring is refused.
    let ctx = RadioButtonContext {
        dpi: Dpi { x: 96, y: 96 },
        created: Ok(Handle::from_raw(0x4000)),
        text_extent: Size { cx: 50, cy: 17 },
        ui_font: Handle::from_raw(0x5000),
    };
    rb.create(&ctx).unwrap();
    assert_eq!(rb.on().unwrap_err(), safegui::error::RegisterError::AlreadyCreated);
}

#[test]
fn calendar_event_wiring_is_gated_on_the_control_too() {
    let mut wb: WindowBase<u32> = WindowBase::new(Handle::null(), false);
    let mut mc = MonthCalendar::new(&mut wb, MonthCalendarOpts::default());
    let events = mc.on().unwrap();
    assert_eq!(events.mcn_sel_change(&mut wb, 9), Ok(()));
    let ctx = MonthCalendarContext {
        dpi: Dpi { x: 96, y: 96 },
        created: Ok(Handle::from_raw(0x2000)),
        min_rect: Size { cx: 220, cy: 160 },
        today: a_date(2023, 7, 14),
    };
    mc.create(&ctx).unwrap();
    assert_eq!(mc.on().unwrap_err(), safegui::error::RegisterError::AlreadyCreated);
}
