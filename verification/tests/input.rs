use zenbook_duo_daemon::bt_readers::{
    reader_step, BtProbe, BtReaders, ClaimResult, ProbeCommand, ProbeEvent, ProbedDevice,
    ReaderAction, ReaderEvent,
};
use zenbook_duo_daemon::config::{
    copy_keys, get_usb_product_id, parse_usb_id, plan_migration, special_key,
    tablet_mode_from_str, tablet_mode_to_str, Config, KeyAction, KeyFunction, MigrationPlan,
    SpecialKey, TabletMapMode,
};
use zenbook_duo_daemon::dwt::{
    check_bt_keyboard, check_bt_touchpad, counts_as_typing, initial_mode, is_event_node,
    mode_after_dock_event, mode_after_session, reconcile_virt_with_real, BtDevices, DwtAction,
    DwtEvent, DwtMode, DwtSession, InnerExit, InputDeviceInfo, TouchCode, TouchEvent, TouchState,
};
use zenbook_duo_daemon::events::Event;
use zenbook_duo_daemon::idle_detection::{
    listener_step, listens_to, IdleAction, IdleEvent, IdleTimer, ListenerAction,
};
use zenbook_duo_daemon::keyboard_bt::{
    bluez_device_path, bt_backlight_value, bt_control_value, bt_fn_lock_value, bt_mic_mute_value,
    is_vendor_reference, mac_from_uniq, parse_keyboard_event, reader_key, report_references,
    restore_round, suppress_twin_abs_misc_pulse, vendor_char_candidates, BtKeyEvent, GattObject,
    GattWrite, GattWriteStep, TwinFilter, REPORT_CHAR_UUID, REPORT_REF_UUID,
};
use zenbook_duo_daemon::secondary_display::{
    arm_sysfs_fallback_once, brightness_sync_paused, concerns_file, ensure_secondary_display_on,
    is_secondary_display_enabled_actual, pause_brightness_sync_for, read_brightness,
    restored_brightness, should_sync_brightness, wait_for_secondary_display_state_until,
    SecondarySwitch, SysfsWrite, WaitCommand, WaitEvent,
};
use zenbook_duo_daemon::state::KeyboardBacklightState;
use zenbook_duo_daemon::unix_pipe::{
    parse_pipe_command, resync_after_resume, start_receive_commands_task, PipeCommand, PipeStep,
};
use zenbook_duo_daemon::virtual_keyboard::{
    enabled_keys, KeyEventType, KeyOutput, VirtualKeyboard,
};

fn touch(code: TouchCode, value: i32) -> TouchEvent {
    TouchEvent { code, value }
}

#[test]
fn typing_holds_the_touchpad_back() {
    let mut s = DwtSession::new(0);
    let finger = touch(TouchCode::MtTrackingId, 7);
    assert!(matches!(s.step(DwtEvent::Touch(finger), 1), DwtAction::Forward(e) if e == finger));
    s.step(DwtEvent::Written(finger), 1);
    assert!(matches!(s.step(DwtEvent::Touch(finger), 2), DwtAction::Nothing));
    s.step(DwtEvent::Key, 10);
    assert_eq!(s.timer(), 360);
    let lift = touch(TouchCode::MtTrackingId, -1);
    assert!(matches!(s.step(DwtEvent::Touch(lift), 20), DwtAction::Nothing));
    assert!(matches!(s.step(DwtEvent::Timer, 359), DwtAction::Nothing));
    match s.step(DwtEvent::Timer, 360) {
        DwtAction::Reconcile(events) => {
            assert!(events.contains(&lift));
            assert_eq!(events.last().map(|e| e.code), Some(TouchCode::SynReport));
        }
        _ => panic!("events were expected"),
    }
    assert_eq!(s.timer(), 3_600_360);
    assert!(matches!(s.step(DwtEvent::Timer, 400), DwtAction::Nothing));
    assert!(matches!(
        s.step(DwtEvent::KeyboardDocked(true), 400),
        DwtAction::Exit(InnerExit::UsbAttached)
    ));
    assert!(matches!(s.step(DwtEvent::KeyboardDocked(false), 400), DwtAction::Nothing));
    assert!(matches!(
        s.step(DwtEvent::TouchpadGone, 400),
        DwtAction::Exit(InnerExit::DeviceGone)
    ));
    assert!(matches!(s.step(DwtEvent::Closed, 400), DwtAction::Exit(InnerExit::Shutdown)));
}

#[test]
fn equal_devices_need_no_events() {
    let mut pad = TouchState::new();
    assert!(reconcile_virt_with_real(&TouchState::new(), &pad).is_empty());
    pad.update(&touch(TouchCode::MtSlot, 1));
    pad.update(&touch(TouchCode::MtTrackingId, 3));
    pad.update(&touch(TouchCode::BtnTouch, 1));
    let mut virt = TouchState::new();
    let events = reconcile_virt_with_real(&virt, &pad);
    assert!(!events.is_empty());
    for e in &events {
        virt.update(e);
    }
    assert!(reconcile_virt_with_real(&virt, &pad).is_empty());
    pad.update(&touch(TouchCode::MtTrackingId, -1));
    for e in &reconcile_virt_with_real(&virt, &pad) {
        virt.update(e);
    }
    assert!(!reconcile_virt_with_real(&virt, &pad).contains(&touch(TouchCode::MtSlot, 1)));
    assert!(reconcile_virt_with_real(&pad.copy(), &pad).is_empty());
}

#[test]
fn bluetooth_devices_are_told_apart() {
    let device = |name: &str, bus: u16, has_keys: bool| InputDeviceInfo {
        name: name.to_string(),
        bus,
        has_keys,
    };
    let keyboard = device("ASUS Zenbook Duo Keyboard", 5, true);
    let pad = device("ASUS Zenbook Duo Keyboard Touchpad", 5, true);
    assert!(check_bt_keyboard(&keyboard) && !check_bt_touchpad(&keyboard));
    assert!(check_bt_touchpad(&pad) && !check_bt_keyboard(&pad));
    assert!(!check_bt_keyboard(&device("ASUS Zenbook Duo Keyboard", 3, true)));
    assert!(!check_bt_keyboard(&device("ASUS Zenbook Duo Keyboard Mouse", 5, true)));
    let mut found = BtDevices { keyboard: None, touchpad: None };
    found.offer(&"/a".to_string(), &keyboard);
    found.offer(&"/b".to_string(), &keyboard);
    assert!(!found.complete());
    found.offer(&"/c".to_string(), &pad);
    assert!(found.complete());
    assert_eq!(found.keyboard.as_deref(), Some("/a"));
    assert!(is_event_node("event3") && !is_event_node("mouse0"));
    assert_eq!(initial_mode(true), DwtMode::Docked);
    assert_eq!(mode_after_dock_event(DwtMode::Docked, false), DwtMode::Bluetooth);
    assert_eq!(mode_after_dock_event(DwtMode::Ended, false), DwtMode::Ended);
    assert_eq!(mode_after_session(InnerExit::DeviceGone), (DwtMode::Bluetooth, 1));
    assert!(counts_as_typing(true, false, 1));
    assert!(!counts_as_typing(true, false, 0));
    assert!(!counts_as_typing(false, false, 1));
}

#[test]
fn keys_are_released_before_others_are_pressed() {
    let mut k = VirtualKeyboard::new();
    let out = k.release_prev_and_press_keys(&vec![29, 52]);
    assert_eq!(out[0], KeyOutput::Key { code: 29, kind: KeyEventType::Press });
    assert_eq!(out.last(), Some(&KeyOutput::SynReport));
    let out = k.release_prev_and_press_keys(&vec![248]);
    assert!(out.contains(&KeyOutput::Key { code: 29, kind: KeyEventType::Release }));
    assert!(out.contains(&KeyOutput::Key { code: 248, kind: KeyEventType::Press }));
    let out = k.release_all_keys();
    assert!(out.contains(&KeyOutput::Key { code: 248, kind: KeyEventType::Release }));
    assert!(k.release_all_keys().iter().all(|o| *o == KeyOutput::SynReport));
    assert_eq!(KeyEventType::Press.value(), 1);
    assert_eq!(KeyEventType::Release.value(), 0);
}

#[test]
fn default_settings_fit_the_board() {
    let c = Config::default_for("UX8406MA");
    assert!(c.has_valid_ids());
    assert_eq!(c.vendor_id(), 0x0b05);
    assert_eq!(c.usb_product_id, get_usb_product_id("UX8406MA"));
    assert!(enabled_keys(&c).contains(&248));
    assert_eq!(parse_usb_id("0b05"), Some(0x0b05));
    assert_eq!(parse_usb_id("xyz"), None);
    assert_eq!(parse_usb_id("12345"), None);
    assert_eq!(plan_migration(true, true), MigrationPlan::Keep);
    assert_eq!(plan_migration(false, true), MigrationPlan::BackUpAndWriteDefault);
    assert_eq!(plan_migration(false, false), MigrationPlan::WriteDefault);
    assert_eq!(copy_keys(&vec![1, 2]), vec![1, 2]);
}

#[test]
fn special_keys_have_functions() {
    assert_eq!(special_key(106), Some(SpecialKey::ToggleSecondaryDisplay));
    assert_eq!(special_key(1), None);
    let swap = KeyFunction::SwapDisplays(true);
    match swap.execute(&Some("eDP-2".to_string())) {
        KeyAction::SetDesiredPrimary { primary, pause_secs } => {
            assert_eq!((primary.as_str(), pause_secs), ("eDP-1", 4));
        }
        _ => panic!("a panel was expected"),
    }
    match swap.execute(&None) {
        KeyAction::SetDesiredPrimary { primary, .. } => assert_eq!(primary, "eDP-2"),
        _ => panic!("a panel was expected"),
    }
    assert!(matches!(
        KeyFunction::KeyboardBacklight(true).execute(&None),
        KeyAction::ToggleBacklight
    ));
    assert!(matches!(
        KeyFunction::KeyboardBacklight(false).execute(&None),
        KeyAction::ToggleBacklight
    ));
    for on in [true, false] {
        assert!(matches!(
            KeyFunction::ToggleSecondaryDisplay(on).execute(&None),
            KeyAction::ToggleSecondaryDisplay
        ));
        assert!(matches!(KeyFunction::NoOp(on).execute(&None), KeyAction::Nothing));
        match KeyFunction::SwapDisplays(on).execute(&Some("eDP-1".to_string())) {
            KeyAction::SetDesiredPrimary { primary, .. } => assert_eq!(primary, "eDP-2"),
            _ => panic!("a panel was expected"),
        }
    }
    match KeyFunction::Command("ls".to_string()).execute(&None) {
        KeyAction::RunCommand(c) => assert_eq!(c, "ls"),
        _ => panic!("a command was expected"),
    }
    assert_eq!(tablet_mode_to_str(TabletMapMode::AllToPrimary), "all_to_primary");
    assert_eq!(tablet_mode_from_str("one_to_one"), Ok(TabletMapMode::OneToOne));
    assert!(tablet_mode_from_str("odd").is_err());
}

#[test]
fn idle_begins_and_ends() {
    let mut t = IdleTimer::new(10, 1_000);
    assert_eq!(t.time_until_idle(4_000), Some(7_000));
    assert_eq!(t.step(IdleEvent::Elapsed, 11_000), IdleAction::IdleStart);
    assert_eq!(t.time_until_idle(12_000), None);
    assert_eq!(t.step(IdleEvent::Activity, 12_000), IdleAction::IdleEnd);
    assert_eq!(t.time_until_idle(12_000), Some(10_000));
    assert_eq!(t.step(IdleEvent::Activity, 13_000), IdleAction::Nothing);
    assert_eq!(t.step(IdleEvent::Elapsed, 23_000), IdleAction::IdleStart);
    assert_eq!(t.step(IdleEvent::TimeoutChanged(0), 24_000), IdleAction::IdleEnd);
    assert_eq!(t.time_until_idle(24_000), None);
    assert_eq!(t.step(IdleEvent::Closed, 24_000), IdleAction::Stop);
    assert!(listens_to("event5", "ASUS Zenbook Duo Keyboard"));
    assert!(!listens_to("js0", "ASUS Zenbook Duo Keyboard"));
    assert_eq!(listener_step(true, None), ListenerAction::NotifyActivity);
    assert_eq!(listener_step(false, Some(19)), ListenerAction::Stop);
    assert_eq!(listener_step(false, Some(5)), ListenerAction::SleepMs(100));
}

#[test]
fn twin_pulses_are_held_back() {
    let mut f = TwinFilter::new();
    assert_eq!(
        parse_keyboard_event(&mut f, 199, 0),
        BtKeyEvent::Key(SpecialKey::KeyboardBacklight)
    );
    assert_eq!(parse_keyboard_event(&mut f, 199, 39), BtKeyEvent::HeldBack);
    assert_eq!(parse_keyboard_event(&mut f, 0, 39), BtKeyEvent::Released);
    assert_eq!(
        parse_keyboard_event(&mut f, 199, 40),
        BtKeyEvent::Key(SpecialKey::KeyboardBacklight)
    );
    assert!(!suppress_twin_abs_misc_pulse(&mut f, 16, 41));
}

#[test]
fn addresses_become_object_paths() {
    assert_eq!(mac_from_uniq(" aa:bb:0c\n").as_deref(), Some("AA_BB_0C"));
    assert_eq!(mac_from_uniq(" \n"), None);
    assert_eq!(reader_key(None, "/dev/input/event3"), "no-uniq:/dev/input/event3");
    assert_eq!(reader_key(Some("AA".to_string()), "/x"), "AA");
    assert_eq!(bluez_device_path("AA_BB"), "/org/bluez/hci0/dev_AA_BB");
}

#[test]
fn vendor_characteristic_is_found() {
    let object = |path: &str, ch: Option<&str>, de: Option<&str>| GattObject {
        path: path.to_string(),
        characteristic_uuid: ch.map(String::from),
        descriptor_uuid: de.map(String::from),
    };
    let objects = vec![
        object("/d/c2", Some(REPORT_CHAR_UUID), None),
        object("/d/c1", Some(REPORT_CHAR_UUID), None),
        object("/d/c3", Some("other"), None),
        object("/e/c1", Some(REPORT_CHAR_UUID), None),
        object("/d/c1/r", None, Some(REPORT_REF_UUID)),
        object("/d/c2/r", None, Some(REPORT_REF_UUID)),
    ];
    assert_eq!(vendor_char_candidates(&objects, "/d"), vec!["/d/c1", "/d/c2"]);
    assert_eq!(report_references(&objects, "/d/c1"), vec!["/d/c1/r"]);
    assert!(is_vendor_reference(&[0x5a, 0x03]));
    assert!(!is_vendor_reference(&[0x5a, 0x01]));
}

#[test]
fn bluetooth_values_are_those_of_usb() {
    assert_eq!(bt_backlight_value(KeyboardBacklightState::Medium), vec![0xba, 0xc5, 0xc4, 2]);
    assert_eq!(bt_mic_mute_value(true), vec![0xd0, 0x7c, 1]);
    assert_eq!(bt_fn_lock_value(false), vec![0xd0, 0x4e, 1]);
    assert_eq!(bt_control_value(Event::MicMuteLed(false)), Some(vec![0xd0, 0x7c, 0]));
    assert_eq!(bt_control_value(Event::KeyboardPogoDocked(true)), None);
    let (pause, fn_lock, backlight, mic) =
        restore_round(1, true, KeyboardBacklightState::Low, false);
    assert_eq!(pause, 450);
    assert_eq!(fn_lock, vec![0xd0, 0x4e, 0]);
    assert_eq!(backlight, vec![0xba, 0xc5, 0xc4, 1]);
    assert_eq!(mic, vec![0xd0, 0x7c, 0]);
    assert_eq!(restore_round(0, true, KeyboardBacklightState::Low, false).0, 0);
}

#[test]
fn busy_writes_are_repeated() {
    let mut w = GattWrite::new();
    assert_eq!(w.failed("Operation In Progress"), GattWriteStep::RetryAfter { ms: 45 });
    assert_eq!(w.failed("org.bluez.Error.InProgress"), GattWriteStep::RetryAfter { ms: 90 });
    let mut pauses = Vec::new();
    while let GattWriteStep::RetryAfter { ms } = w.failed_with("busy") {
        pauses.push(ms);
    }
    assert_eq!(pauses.len(), 9);
    assert_eq!(pauses.last(), Some(&400));
    assert_eq!(GattWrite::new().failed("Not connected"), GattWriteStep::GiveUp);
}

#[test]
fn readers_share_one_session() {
    let mut readers = BtReaders::new();
    let (k, a, b) = ("K".to_string(), "/a".to_string(), "/b".to_string());
    assert_eq!(readers.claim(&k, &a), ClaimResult::Claimed { first: true });
    assert_eq!(readers.claim(&k, &a), ClaimResult::Taken);
    assert_eq!(readers.claim(&k, &b), ClaimResult::Claimed { first: false });
    assert!(!readers.release(&k, &a));
    assert!(readers.release(&k, &b));
    assert_eq!(
        reader_step(ReaderEvent::Started { first: true })[0],
        ReaderAction::SessionStarted
    );
    assert_eq!(
        reader_step(ReaderEvent::Started { first: false }),
        vec![ReaderAction::NotifyActivity]
    );
    assert_eq!(
        reader_step(ReaderEvent::Failed { errno: Some(19) }),
        vec![ReaderAction::ReleaseClaim]
    );
    assert_eq!(
        reader_step(ReaderEvent::Released { last: true })[0],
        ReaderAction::SessionEnded
    );
}

#[test]
fn nodes_are_probed_twice() {
    let vendor = || ProbeEvent::Opened {
        device: Some(ProbedDevice {
            name: Some("ASUS Zenbook Duo Keyboard".to_string()),
            has_abs_misc: true,
        }),
    };
    let (mut p, first) = BtProbe::start("event4");
    assert_eq!(first, ProbeCommand::Stat);
    assert_eq!(p.step(ProbeEvent::Stat { is_file: true }), ProbeCommand::Open);
    assert_eq!(p.step(vendor()), ProbeCommand::SleepMs(280));
    assert_eq!(p.step(ProbeEvent::Slept), ProbeCommand::Stat);
    assert_eq!(p.step(ProbeEvent::Stat { is_file: true }), ProbeCommand::Open);
    assert_eq!(p.step(vendor()), ProbeCommand::Claim);
    assert_eq!(p.step(ProbeEvent::Claimed(ClaimResult::Taken)), ProbeCommand::SleepMs(100));
    assert_eq!(p.step(ProbeEvent::Slept), ProbeCommand::Claim);
    assert_eq!(
        p.step(ProbeEvent::Claimed(ClaimResult::Claimed { first: true })),
        ProbeCommand::StartReader { first: true }
    );
    assert_eq!(BtProbe::start("mouse0").1, ProbeCommand::Drop);
    let (mut p, _) = BtProbe::start("event4");
    p.step(ProbeEvent::Stat { is_file: true });
    assert_eq!(p.step(ProbeEvent::Opened { device: None }), ProbeCommand::Drop);
}

#[test]
fn switch_is_left_to_the_session() {
    let mut s = SecondarySwitch::new();
    assert_eq!(s.on_startup(false, true, 100), Some(SysfsWrite::On));
    assert_eq!(s.on_startup(true, true, 101), None);
    assert_eq!(s.on_secondary_event(false, true, true, 110), (None, false));
    arm_sysfs_fallback_once(&mut s);
    assert_eq!(s.on_secondary_event(false, true, true, 111), (Some(SysfsWrite::Off), false));
    assert_eq!(s.on_secondary_event(false, true, true, 112), (None, false));
    assert_eq!(s.on_secondary_event(true, true, false, 113), (Some(SysfsWrite::On), true));
    assert_eq!(s.on_enforcer_tick(false, false, true, 120), None);
    assert_eq!(s.on_enforcer_tick(false, false, true, 121), Some(SysfsWrite::On));
    assert_eq!(s.on_enforcer_tick(true, false, true, 200), None);
    assert_eq!(
        s.apply_secondary_sysfs_poweroff_when_desired_off(true, false, true, 300),
        None
    );
    assert_eq!(
        s.apply_secondary_sysfs_poweroff_when_desired_off(true, true, true, 300),
        Some(SysfsWrite::Off)
    );
    assert_eq!(ensure_secondary_display_on(true), None);
    assert_eq!(ensure_secondary_display_on(false).map(|w| w.as_str()), Some("on"));
    assert!(is_secondary_display_enabled_actual(Some("connected\n")));
    assert!(is_secondary_display_enabled_actual(Some("on")));
    assert!(!is_secondary_display_enabled_actual(Some("off")));
    assert!(!is_secondary_display_enabled_actual(None));
}

#[test]
fn switch_is_waited_for() {
    let wait = wait_for_secondary_display_state_until;
    assert_eq!(wait(true, 100, WaitEvent::First { actual: true }, 0), WaitCommand::Done(true));
    assert_eq!(wait(true, 100, WaitEvent::First { actual: false }, 0), WaitCommand::SetUpWatch);
    assert_eq!(
        wait(true, 100, WaitEvent::Looked { actual: false }, 40),
        WaitCommand::Await { ms: 60 }
    );
    assert_eq!(
        wait(true, 100, WaitEvent::Looked { actual: true }, 100),
        WaitCommand::Done(false)
    );
    assert_eq!(
        wait(true, 100, WaitEvent::Changed { about_status: false, actual: true }, 50),
        WaitCommand::Look
    );
    assert_eq!(
        wait(true, 100, WaitEvent::Changed { about_status: true, actual: true }, 50),
        WaitCommand::Done(true)
    );
    assert_eq!(wait(true, 100, WaitEvent::TimedOut, 100), WaitCommand::Done(false));
    assert!(concerns_file(Some("status"), Some("status")));
    assert!(!concerns_file(Some("status"), Some("other")));
    assert!(concerns_file(Some("status"), None));
}

#[test]
fn brightness_is_synchronised_unless_paused() {
    let mut s = SecondarySwitch::new();
    pause_brightness_sync_for(&mut s, 4, 100);
    assert!(brightness_sync_paused(&s, 103));
    assert!(!should_sync_brightness(&s, 103, true, true));
    assert!(should_sync_brightness(&s, 104, true, true));
    assert!(!should_sync_brightness(&s, 104, false, true));
    pause_brightness_sync_for(&mut s, 0, 200);
    assert!(brightness_sync_paused(&s, 200));
    assert!(!brightness_sync_paused(&s, 201));
    assert_eq!(read_brightness(" 400\n"), Some((400, "400".to_string())));
    assert_eq!(read_brightness("dim"), None);
    assert_eq!(restored_brightness(Some("300\n"), Some(1)).as_deref(), Some("300"));
    assert_eq!(restored_brightness(Some("dim"), Some(7)).as_deref(), Some("7"));
    assert_eq!(restored_brightness(None, None), None);
}

#[test]
fn pipe_lines_are_commands() {
    assert_eq!(parse_pipe_command("suspend_start\n"), Some(PipeCommand::SuspendStart));
    assert_eq!(
        parse_pipe_command("backlight_high"),
        Some(PipeCommand::Backlight(KeyboardBacklightState::High))
    );
    assert_eq!(
        parse_pipe_command("secondary_display_off"),
        Some(PipeCommand::SecondaryDisplay(false))
    );
    assert_eq!(parse_pipe_command(" suspend_start"), None);
    assert_eq!(start_receive_commands_task(Ok((0, String::new()))), PipeStep::Reopen);
    assert_eq!(
        start_receive_commands_task(Ok((8, "nonsense".to_string()))),
        PipeStep::Ignore
    );
    assert_eq!(
        start_receive_commands_task(Ok((16, "mic_mute_led_on\n".to_string()))),
        PipeStep::Run(PipeCommand::MicMuteLed(true))
    );
    assert_eq!(start_receive_commands_task(Err(())), PipeStep::Recreate);
    assert_eq!(resync_after_resume(true, false), Some(true));
    assert_eq!(resync_after_resume(true, true), None);
}
