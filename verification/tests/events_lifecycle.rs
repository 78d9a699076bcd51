//! Event table registration, dispatch, and lifecycle gating.

use safegui::error::RegisterError;
use safegui::events::EventKey;
use safegui::events::EventTable;
use safegui::events_lv::ListViewEvents;
use safegui::events_rg::RadioGroupEvents;
use safegui::handle::Handle;
use safegui::lifecycle::Lifecycle;
use safegui::msg::BN_CLICKED;
use safegui::msg::BN_SETFOCUS;
use safegui::msg::NM_HOVER;
use safegui::window::WindowBase;

#[test]
fn register_then_dispatch_invokes_exactly_that_callback() {
    let mut t: EventTable<u32> = EventTable::new();
    let key = EventKey::Command { code: 0, ctrl_id: 17 };
    t.register(key, 7);
    assert_eq!(t.dispatch(key), Some(7));
    // A different key never reaches the registered callback.
    assert_eq!(t.dispatch(EventKey::Command { code: 0, ctrl_id: 18 }), None);
    assert_eq!(t.dispatch(EventKey::Command { code: 1, ctrl_id: 17 }), None);
    assert_eq!(t.dispatch(EventKey::Message { wm: 17 }), None);
}

#[test]
fn register_same_key_replaces() {
    let mut t: EventTable<u32> = EventTable::new();
    let key = EventKey::Message { wm: 0x0010 };
    t.register(key, 1);
    t.register(key, 2);
    assert_eq!(t.dispatch(key), Some(2));
}

#[test]
fn register_distinct_keys_kept_apart() {
    let mut t: EventTable<u32> = EventTable::new();
    t.register(EventKey::Message { wm: 5 }, 10);
    t.register(EventKey::Notify { ctrl_id: 5, nfy_code: 5 }, 20);
    t.register(EventKey::Command { code: 5, ctrl_id: 5 }, 30);
    assert_eq!(t.dispatch(EventKey::Message { wm: 5 }), Some(10));
    assert_eq!(t.dispatch(EventKey::Notify { ctrl_id: 5, nfy_code: 5 }), Some(20));
    assert_eq!(t.dispatch(EventKey::Command { code: 5, ctrl_id: 5 }), Some(30));
}

#[test]
fn register_after_create_fails_fatally() {
    let mut wb: WindowBase<u32> = WindowBase::new(Handle::null(), false);
    assert_eq!(wb.on_message(0x0010, 1), Ok(()));
    wb.mark_created(Handle::from_raw(5));
    assert_eq!(wb.state, Lifecycle::Created);
    assert_eq!(wb.on_message(0x0010, 2), Err(RegisterError::AlreadyCreated));
    assert_eq!(wb.on_command(0, 9, 2), Err(RegisterError::AlreadyCreated));
    assert_eq!(wb.on_notify(9, -2, 2), Err(RegisterError::AlreadyCreated));
    // The earlier registration is untouched.
    assert_eq!(wb.dispatch_user(EventKey::Message { wm: 0x0010 }), Some(1));
}

#[test]
fn register_after_destroy_also_rejected() {
    let mut wb: WindowBase<u32> = WindowBase::new(Handle::null(), false);
    wb.mark_created(Handle::from_raw(5));
    wb.mark_destroyed();
    assert_eq!(wb.state, Lifecycle::Destroyed);
    assert_eq!(wb.on_message(2, 2), Err(RegisterError::AlreadyCreated));
}

#[test]
fn radio_group_registers_every_button() {
    let mut wb: WindowBase<u32> = WindowBase::new(Handle::null(), false);
    let rg = RadioGroupEvents::new(vec![101, 102, 103]);
    assert_eq!(rg.bn_clicked(&mut wb, 7), Ok(()));
    assert_eq!(rg.bn_set_focus(&mut wb, 8), Ok(()));
    for id in [101u16, 102, 103] {
        assert_eq!(wb.dispatch_user(EventKey::Command { code: BN_CLICKED, ctrl_id: id }), Some(7));
        assert_eq!(wb.dispatch_user(EventKey::Command { code: BN_SETFOCUS, ctrl_id: id }), Some(8));
    }
    assert_eq!(wb.dispatch_user(EventKey::Command { code: BN_CLICKED, ctrl_id: 104 }), None);
}

#[test]
fn radio_group_rejected_once_created() {
    let mut wb: WindowBase<u32> = WindowBase::new(Handle::null(), false);
    wb.mark_created(Handle::from_raw(3));
    let rg = RadioGroupEvents::new(vec![101, 102]);
    assert_eq!(rg.bn_dbl_clk(&mut wb, 7), Err(RegisterError::AlreadyCreated));
    assert_eq!(rg.bn_kill_focus(&mut wb, 7), Err(RegisterError::AlreadyCreated));
    assert_eq!(wb.dispatch_user(EventKey::Command { code: BN_CLICKED, ctrl_id: 101 }), None);
}

#[test]
fn month_calendar_notifications_keyed_by_code() {
    let mut wb: WindowBase<u32> = WindowBase::new(Handle::null(), false);
    let mc = safegui::events_mc::MonthCalendarEvents::new(61);
    assert_eq!(mc.mcn_sel_change(&mut wb, 1), Ok(()));
    assert_eq!(mc.mcn_select(&mut wb, 2), Ok(()));
    assert_eq!(mc.mcn_view_change(&mut wb, 3), Ok(()));
    assert_eq!(mc.mcn_get_day_state(&mut wb, 4), Ok(()));
    assert_eq!(mc.nm_released_capture(&mut wb, 5), Ok(()));
    assert_eq!(
        wb.dispatch_user(EventKey::Notify { ctrl_id: 61, nfy_code: safegui::msg::MCN_SELCHANGE }),
        Some(1)
    );
    assert_eq!(
        wb.dispatch_user(EventKey::Notify { ctrl_id: 61, nfy_code: safegui::msg::MCN_SELECT }),
        Some(2)
    );
    assert_eq!(
        wb.dispatch_user(EventKey::Notify { ctrl_id: 61, nfy_code: safegui::msg::MCN_VIEWCHANGE }),
        Some(3)
    );
    assert_eq!(
        wb.dispatch_user(
            EventKey::Notify { ctrl_id: 61, nfy_code: safegui::msg::MCN_GETDAYSTATE }
        ),
        Some(4)
    );
    assert_eq!(
        wb.dispatch_user(
            EventKey::Notify { ctrl_id: 61, nfy_code: safegui::msg::NM_RELEASEDCAPTURE }
        ),
        Some(5)
    );
    // Another control's notification reaches nothing.
    assert_eq!(
        wb.dispatch_user(EventKey::Notify { ctrl_id: 62, nfy_code: safegui::msg::MCN_SELECT }),
        None
    );
}

#[test]
fn list_view_hover_keyed_by_control_and_code() {
    let mut wb: WindowBase<u32> = WindowBase::new(Handle::null(), false);
    let lv = ListViewEvents::new(55);
    assert_eq!(lv.nm_hover(&mut wb, 9), Ok(()));
    assert_eq!(wb.dispatch_user(EventKey::Notify { ctrl_id: 55, nfy_code: NM_HOVER }), Some(9));
    assert_eq!(wb.dispatch_user(EventKey::Notify { ctrl_id: 56, nfy_code: NM_HOVER }), None);
}

#[test]
fn deferred_creation_runs_on_the_window_kind_message() {
    let windowed: WindowBase<u32> = WindowBase::new(Handle::null(), false);
    assert_eq!(windowed.creation_message(), safegui::msg::WM_CREATE);
    let dialog: WindowBase<u32> = WindowBase::new(Handle::null(), true);
    assert_eq!(dialog.creation_message(), safegui::msg::WM_INITDIALOG);
}

#[test]
fn ctrl_id_allocation_starts_high_and_advances() {
    let mut wb: WindowBase<u32> = WindowBase::new(Handle::null(), false);
    assert_eq!(wb.alloc_ctrl_id(), 20000);
    assert_eq!(wb.alloc_ctrl_id(), 20001);
    assert_eq!(wb.next_auto_id, 20002);
}
