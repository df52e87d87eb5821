use zenbook_duo_daemon::session::battery_monitor::{
    battery_monitor_step, MonitorAction, MonitorEvent, UsbReading,
};
use zenbook_duo_daemon::session::battery_notices::{
    format_charge_eta_minutes, is_keyboard_battery_full, maybe_emit_battery_charging_milestones,
    maybe_emit_battery_full_charged, maybe_emit_battery_warning_detached_bt,
    monitor_usb_keyboard_battery, on_bluetooth_connection, BatteryReport, BatteryWatch,
    BluetoothEnd, ChargeOutlook, ChargingRateTracker, KeyboardBatteryChargeWarn,
    KeyboardBatteryWarn,
};
use zenbook_duo_daemon::session::notifications::{
    append_line_sep, battery_level_text, bullet_lines, dock_toast, pogo_dock_notification_text,
    side_usb_unplug_notification_text, side_usb_unplug_toast, usb_charge_notification_text,
    usb_charge_toast, DisplayRecoveryNotifState, KeyboardDisplayNotifState, KeyboardNotices,
    RootInfo, ToastStyle, UsbNotice,
};

fn info(bluetooth: bool, primary: &str, secondary: bool) -> Option<RootInfo> {
    Some(RootInfo {
        bluetooth_connected: bluetooth,
        desired_primary: primary.to_string(),
        desired_secondary_enabled: secondary,
    })
}

#[test]
fn lines_become_a_list() {
    assert_eq!(bullet_lines(&vec!["a", "b", "c"]), "• a\u{2028}• b\u{2028}• c");
    assert_eq!(bullet_lines(&vec!["a"]), "• a");
    assert_eq!(bullet_lines(&vec![]), "");
    assert_eq!(append_line_sep("x", "y"), "x\u{2028}y");
    assert_eq!(battery_level_text(Some(7)), "7%");
    assert_eq!(battery_level_text(None), "unknown");
}

#[test]
fn dock_texts_name_the_consequences() {
    let t = pogo_dock_notification_text(true, false, "eDP-2", true);
    assert_eq!(t.summary, "Keyboard docked");
    assert_eq!(t.icon, "input-keyboard");
    assert_eq!(
        t.body,
        "• Keyboard docked on the bottom panel.\u{2028}• Top bar will move temporarily to the top display.\u{2028}• Secondary display will turn off."
    );
    let t = pogo_dock_notification_text(true, false, "eDP-1", false);
    assert_eq!(
        t.body,
        "• Keyboard docked on the bottom panel.\u{2028}• Top display stays primary.\u{2028}• Secondary display remains off."
    );
    let t = pogo_dock_notification_text(false, true, "eDP-2", true);
    assert_eq!(t.summary, "Keyboard undocked (Bluetooth)");
    assert!(t.body.ends_with("• Top bar moving back to the secondary display."));
    let t = side_usb_unplug_notification_text(false, "eDP-1", false);
    assert_eq!(t.summary, "Keyboard undocked (no Bluetooth)");
    assert_eq!(
        t.body,
        "• Keyboard undocked — Bluetooth not connected.\u{2028}• Keyboard unavailable until Bluetooth reconnects."
    );
    assert_eq!(usb_charge_notification_text().summary, "Keyboard on USB");
}

#[test]
fn toasts_tell_the_battery() {
    let t = usb_charge_toast(Some(40));
    assert!(t.body.ends_with("\u{2028}• charging (last battery level: 40%)."));
    assert_eq!(t.style, ToastStyle::Fresh);
    assert_eq!(t.expire_ms, 10_000);
    let t = side_usb_unplug_toast(info(true, "eDP-1", true), Some(33));
    assert!(t.body.ends_with("\u{2028}• discharging (current battery level: 33%)."));
    let t = side_usb_unplug_toast(None, Some(33));
    assert_eq!(t.summary, "Keyboard undocked (no Bluetooth)");
    assert!(!t.body.contains("33%"));
    let t = dock_toast(true, info(false, "eDP-1", true), None, None);
    assert!(t.body.ends_with("• charging (last battery level: unknown)."));
    let t = dock_toast(false, None, None, None);
    assert_eq!(t.summary, "Keyboard undocked");
    assert!(t.body.ends_with("• Bluetooth state could not be confirmed."));
}

#[test]
fn first_state_is_not_shown() {
    let mut n = KeyboardNotices::new();
    assert_eq!(n.on_usb(true), None);
    assert_eq!(n.on_usb(true), None);
    assert_eq!(n.on_usb(false), Some(400));
    assert_eq!(n.on_usb_resolved(false, false), UsbNotice::Nothing);
    assert_eq!(n.on_usb(true), Some(400));
    assert_eq!(n.on_usb_resolved(true, false), UsbNotice::PluggedIn);
    assert_eq!(n.on_usb(false), Some(400));
    assert_eq!(n.on_usb_resolved(false, false), UsbNotice::Unplugged { wait_ms: 2_500 });
    assert_eq!(n.on_usb_resolved(false, false), UsbNotice::Nothing);
    assert_eq!(n.on_usb_resolved(true, true), UsbNotice::Nothing);
    assert_eq!(n.on_dock(false), None);
    assert_eq!(n.on_dock(true), Some(0));
    assert_eq!(n.on_dock(true), None);
    assert_eq!(n.on_dock(false), Some(2_500));
}

#[test]
fn one_notification_is_on_the_screen() {
    let mut chain = KeyboardDisplayNotifState::new();
    assert_eq!(chain.place(ToastStyle::Fresh), (None, 0));
    chain.shown(9);
    assert_eq!(chain.place(ToastStyle::Fresh), (Some(9), 0));
    assert_eq!(chain.place(ToastStyle::Chained), (None, 9));
    let mut recovery = DisplayRecoveryNotifState::new();
    recovery.shown(4);
    assert_eq!(recovery.replaces_id, 4);
    recovery.reset_display_recovery_notif_chain();
    assert_eq!(recovery.replaces_id, 0);
}

#[test]
fn battery_warnings_come_in_tiers() {
    let mut w = KeyboardBatteryWarn::new();
    let mut chain = KeyboardDisplayNotifState::new();
    assert!(maybe_emit_battery_warning_detached_bt(21, &mut w, &mut chain).is_none());
    let t = maybe_emit_battery_warning_detached_bt(20, &mut w, &mut chain).unwrap();
    assert_eq!(t.summary, "Keyboard battery below 20%");
    assert_eq!(
        t.body,
        "Keyboard battery at <b>20%</b>.\u{2028}Running on Bluetooth power — level is informational only."
    );
    assert_eq!(t.urgency, 2);
    assert_eq!(t.style, ToastStyle::Chained);
    assert!(chain.had_battery_tier_while_usb_detached);
    assert!(maybe_emit_battery_warning_detached_bt(19, &mut w, &mut chain).is_none());
    let t = maybe_emit_battery_warning_detached_bt(4, &mut w, &mut chain).unwrap();
    assert_eq!(t.summary, "Keyboard battery critical!");
    assert_eq!(t.image.as_deref(), Some("battery-level-0-symbolic"));
    assert_eq!(t.expire_ms, 120_000);
    assert!(maybe_emit_battery_warning_detached_bt(9, &mut w, &mut chain).is_none());
    w.clear_recovered(11);
    let t = maybe_emit_battery_warning_detached_bt(10, &mut w, &mut chain).unwrap();
    assert_eq!(t.summary, "Keyboard battery below 10%");
}

#[test]
fn battery_monitors_follow_the_cable() {
    assert_eq!(battery_monitor_step(MonitorEvent::Idle, true), vec![MonitorAction::StartUsb]);
    assert_eq!(
        battery_monitor_step(MonitorEvent::Idle, false),
        vec![MonitorAction::ResetRate, MonitorAction::Search]
    );
    let reading =
        UsbReading { present: Some(true), pct: None, charging: Some(true), firmware_full: None };
    let report = BatteryReport { pct: 0, charging: true, firmware_full: false };
    assert_eq!(
        battery_monitor_step(MonitorEvent::UsbStarted(reading), true),
        vec![
            MonitorAction::BeginUsb(Some(report)),
            MonitorAction::TakeReport(report),
            MonitorAction::Await
        ]
    );
    assert_eq!(
        battery_monitor_step(MonitorEvent::UsbRead { reading, last: 42 }, false),
        vec![
            MonitorAction::TakeReport(BatteryReport { pct: 42, ..report }),
            MonitorAction::End
        ]
    );
    let absent = UsbReading { present: None, ..reading };
    assert_eq!(
        battery_monitor_step(MonitorEvent::UsbRead { reading: absent, last: 42 }, true),
        vec![MonitorAction::Await]
    );
    assert_eq!(
        battery_monitor_step(MonitorEvent::UsbStirred { cable: true }, true),
        vec![MonitorAction::ReadUsb]
    );
    assert_eq!(
        battery_monitor_step(MonitorEvent::UsbStirred { cable: true }, false),
        vec![MonitorAction::End]
    );
    assert_eq!(
        battery_monitor_step(MonitorEvent::UsbStirred { cable: false }, false),
        vec![MonitorAction::ReadUsb]
    );
    assert_eq!(
        battery_monitor_step(MonitorEvent::Searched { found: false }, false),
        vec![MonitorAction::SearchAfter { secs: 10 }]
    );
    assert_eq!(
        battery_monitor_step(MonitorEvent::Searched { found: true }, false),
        vec![MonitorAction::StartBluetooth]
    );
    assert_eq!(
        battery_monitor_step(MonitorEvent::BluetoothStarted(None), false),
        vec![MonitorAction::BeginBluetooth(None), MonitorAction::Await]
    );
    assert_eq!(
        battery_monitor_step(MonitorEvent::LevelTold(Some(9)), true),
        vec![MonitorAction::TakeLevel(9), MonitorAction::End]
    );
    assert_eq!(
        battery_monitor_step(MonitorEvent::LevelTold(None), false),
        vec![MonitorAction::Await]
    );
    assert_eq!(
        battery_monitor_step(MonitorEvent::LevelAsked { level: None, last: 33 }, false),
        vec![MonitorAction::TakeLevel(33), MonitorAction::Await]
    );
    assert_eq!(
        battery_monitor_step(MonitorEvent::LinkTold(Some(false)), true),
        vec![MonitorAction::TakeLink { connected: false, usb_attached: true }]
    );
    assert_eq!(
        battery_monitor_step(MonitorEvent::LinkTold(None), true),
        vec![MonitorAction::End]
    );
}

#[test]
fn warnings_expire_by_tier() {
    for (pct, expire_ms) in [
        (20, 30_000),
        (11, 30_000),
        (10, 120_000),
        (6, 120_000),
        (5, 120_000),
        (0, 120_000),
    ] {
        let mut w = KeyboardBatteryWarn::new();
        let mut chain = KeyboardDisplayNotifState::new();
        let t = maybe_emit_battery_warning_detached_bt(pct, &mut w, &mut chain).unwrap();
        assert_eq!(t.expire_ms, expire_ms);
    }
}

#[test]
fn charge_is_told_at_milestones() {
    let mut w = KeyboardBatteryChargeWarn::new();
    let mut out = Vec::new();
    maybe_emit_battery_charging_milestones(49, &mut w, None, &mut out);
    assert!(out.is_empty());
    maybe_emit_battery_charging_milestones(80, &mut w, Some(30), &mut out);
    assert_eq!(out.len(), 2);
    assert_eq!(out[0].summary, "Keyboard charging — 50%");
    assert_eq!(
        out[1].body,
        "• Keyboard battery at <b>80%</b> while charging on USB.\u{2028}• Estimated time to full: about 30 minutes."
    );
    maybe_emit_battery_charging_milestones(90, &mut w, None, &mut out);
    assert_eq!(out.len(), 2);
    let t = maybe_emit_battery_full_charged(96, &mut w).unwrap();
    assert!(t.body.starts_with("• Keyboard battery is at <b>96%</b> — the highest level"));
    assert!(maybe_emit_battery_full_charged(100, &mut w).is_none());
    w.reset_for_new_charge();
    assert!(maybe_emit_battery_full_charged(100, &mut w)
        .unwrap()
        .body
        .starts_with("• Keyboard battery is fully charged."));
    assert_eq!(format_charge_eta_minutes(None), "");
    assert_eq!(
        format_charge_eta_minutes(Some(0)),
        "Estimated time to full: less than a minute."
    );
    assert_eq!(format_charge_eta_minutes(Some(1)), "Estimated time to full: about 1 minute.");
    assert!(is_keyboard_battery_full(95, false));
    assert!(is_keyboard_battery_full(10, true));
    assert!(!is_keyboard_battery_full(94, false));
}

#[test]
fn charge_rate_needs_a_minute() {
    let mut rate = ChargingRateTracker::new();
    rate.record(0, 40);
    assert_eq!(rate.eta_minutes_to(40, 100), ChargeOutlook::Unknown);
    rate.record(30_000, 41);
    assert_eq!(rate.eta_minutes_to(41, 100), ChargeOutlook::Unknown);
    rate.record(40_000, 41);
    rate.record(120_000, 43);
    assert_eq!(
        rate.eta_minutes_to(43, 100),
        ChargeOutlook::Rate { elapsed_ms: 120_000, gained: 3, missing: 57 }
    );
    assert_eq!(rate.eta_minutes_to(100, 100), ChargeOutlook::Reached);
    rate.record(2_800_000, 44);
    assert_eq!(
        rate.eta_minutes_to(44, 100),
        ChargeOutlook::Rate { elapsed_ms: 2_680_000, gained: 1, missing: 56 }
    );
    rate.reset();
    for i in 0..40u64 {
        rate.record(i * 10_000, i as u8);
    }
    assert_eq!(
        rate.eta_minutes_to(39, 100),
        ChargeOutlook::Rate { elapsed_ms: 230_000, gained: 23, missing: 61 }
    );
}

#[test]
fn full_battery_is_told_once_on_usb() {
    let mut w = KeyboardBatteryChargeWarn::new();
    let mut rate = ChargingRateTracker::new();
    let mut chain = KeyboardDisplayNotifState::new();
    let report = |pct: u8, charging: bool, firmware_full: bool| BatteryReport {
        pct,
        charging,
        firmware_full,
    };
    let mut watch =
        monitor_usb_keyboard_battery(Some(report(90, true, false)), 0, &mut w, &mut rate);
    assert_eq!(watch, BatteryWatch { last_pct: 90, was_below_full: true });
    assert!(!watch.accept_usb_report(report(90, true, false), 1, &mut chain, &mut rate));
    assert!(watch.on_usb_battery_update(report(90, true, false), &mut w, None).is_empty());
    assert_eq!(watch, BatteryWatch { last_pct: 90, was_below_full: true });
    assert_eq!(w, KeyboardBatteryChargeWarn::new());
    let full = report(95, false, false);
    assert!(watch.accept_usb_report(full, 2, &mut chain, &mut rate));
    assert_eq!(chain.last_battery_pct, Some(95));
    let toasts = watch.on_usb_battery_update(full, &mut w, None);
    assert_eq!(toasts.len(), 1);
    assert_eq!(toasts[0].image.as_deref(), Some("battery-full-charged-symbolic"));
    assert!(watch.on_usb_battery_update(report(96, false, true), &mut w, None).is_empty());
    let watch = monitor_usb_keyboard_battery(None, 0, &mut w, &mut rate);
    assert_eq!(watch, BatteryWatch { last_pct: 0, was_below_full: true });
    assert_eq!(w, KeyboardBatteryChargeWarn::new());
}

#[test]
fn levels_on_bluetooth_are_watched() {
    let mut w = KeyboardBatteryWarn::new();
    let mut chain = KeyboardDisplayNotifState::new();
    let (mut watch, toast) = BatteryWatch::start_bluetooth(Some(18), &mut w, &mut chain);
    assert!(toast.is_some());
    assert_eq!(chain.last_battery_pct, Some(18));
    assert!(watch.on_battery_pct_update(18, &mut w, &mut chain, false).is_empty());
    assert_eq!(watch.on_battery_pct_update(9, &mut w, &mut chain, false).len(), 1);
    let toasts = watch.on_battery_pct_update(95, &mut w, &mut chain, false);
    assert_eq!(toasts.len(), 1);
    assert_eq!(toasts[0].summary, "Keyboard battery full");
    assert_eq!(toasts[0].image, None);
    assert!(watch.on_battery_pct_update(3, &mut w, &mut chain, true).is_empty());
    let (watch, toast) = BatteryWatch::start_bluetooth(None, &mut w, &mut chain);
    assert!(toast.is_none());
    assert_eq!(watch, BatteryWatch { last_pct: 0, was_below_full: false });
}

#[test]
fn leaving_bluetooth_is_told_off_usb() {
    let mut chain = KeyboardDisplayNotifState::new();
    assert!(matches!(on_bluetooth_connection(true, false, &chain), BluetoothEnd::Restart));
    assert!(matches!(
        on_bluetooth_connection(false, true, &chain),
        BluetoothEnd::Failed(None)
    ));
    match on_bluetooth_connection(false, false, &chain) {
        BluetoothEnd::Failed(Some(t)) => {
            assert_eq!(t.summary, "Keyboard disconnected");
            assert_eq!(t.expire_ms, 6_000);
        }
        _ => panic!("a notification was expected"),
    }
    chain.had_battery_tier_while_usb_detached = true;
    chain.last_battery_pct = Some(4);
    match on_bluetooth_connection(false, false, &chain) {
        BluetoothEnd::Failed(Some(t)) => {
            assert_eq!(t.summary, "Bluetooth keyboard disconnected");
            assert!(t.body.ends_with("• Last known battery percentage: 4%."));
            assert_eq!(t.style, ToastStyle::Chained);
        }
        _ => panic!("a notification was expected"),
    }
}
