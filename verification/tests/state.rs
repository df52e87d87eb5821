use zenbook_duo_daemon::config::{TabletMapMode, TabletMappingConfig};
use zenbook_duo_daemon::events::Event;
use zenbook_duo_daemon::state::{
    get_desired_display_mode_from_snapshot, load_backlight_disk, load_battery_disk,
    persist_backlight_disk, resolve_tablet_mapping_config, validate_desired_display_mode_strings,
    validate_desired_primary, DisplayStateChange, KeyboardBacklightState, KeyboardConnectionKind,
    PersistedDisplayState, PersistedKeyboardBattery,
};
use zenbook_duo_daemon::state_manager::{
    BatteryState, InnerState, KeyboardStateManager, LightState, LinkState, Publication,
    SecondaryState, StateEffect, TabletState,
};
use zenbook_duo_daemon::unix_pipe::{run_pipe_command, PipeCommand, PipeFollowUp};

const LOW_LIGHT_LUX: f64 = 10.0;

fn sample_state() -> InnerState {
    InnerState {
        light: LightState {
            backlight: KeyboardBacklightState::Off,
            is_suspended: false,
            is_idle: false,
            ambient_keyboard_backlight_enabled: false,
            ambient_light_available: false,
            ambient_light_low: None,
        },
        mic_mute_led: false,
        link: LinkState {
            is_usb_connected: false,
            is_pogo_docked: false,
            bt_connected_count: 0,
            keyboard_last_connection_kind: KeyboardConnectionKind::Detached,
            keyboard_disconnected_at: None,
        },
        battery: BatteryState {
            keyboard_battery_pct: None,
            keyboard_battery_charging: false,
            keyboard_battery_full: false,
            keyboard_battery_last_known_pct: None,
            keyboard_battery_last_known_full: false,
        },
        secondary: SecondaryState {
            desired_secondary_display_enabled: true,
            is_secondary_display_enabled: true,
        },
        ambient_light_enabled: false,
        idle_timeout_seconds: 300,
        desired_primary: Some("eDP-1".to_string()),
        desired_display_attachment: "builtin_only".to_string(),
        desired_display_layout: "joined".to_string(),
        display_rotation: "normal".to_string(),
        display_brightness: None,
        tablet: TabletState {
            tablet_mapping_enabled: true,
            tablet_mapping_mode: TabletMapMode::OneToOne,
            tablet_mapping_apply_nonce: 0,
        },
    }
}

fn defaults() -> TabletMappingConfig {
    TabletMappingConfig { enable: true, mode: TabletMapMode::OneToOne }
}

fn manager(usb: bool, docked: bool) -> KeyboardStateManager {
    KeyboardStateManager::new(
        usb,
        docked,
        300,
        false,
        defaults(),
        &PersistedDisplayState::empty(),
        None,
        KeyboardBacklightState::Low,
    )
    .0
}

fn emits(effects: &[StateEffect], event: Event) -> bool {
    effects.iter().any(|e| match e {
        StateEffect::Emit(x) => *x == event,
        _ => false,
    })
}

fn publishes(effects: &[StateEffect], what: Publication) -> bool {
    effects.iter().any(|e| match e {
        StateEffect::Publish(x) => *x == what,
        _ => false,
    })
}

#[test]
fn low_light_promotes_off_to_low() {
    let mut state = sample_state();
    state.light.ambient_keyboard_backlight_enabled = true;
    state.light.ambient_light_available = true;
    state.light.ambient_light_low = Some(LOW_LIGHT_LUX <= LOW_LIGHT_LUX);

    assert_eq!(
        KeyboardStateManager::effective_keyboard_backlight(&state).level(),
        KeyboardBacklightState::Low.level()
    );
}

#[test]
fn idle_still_forces_backlight_off() {
    let mut state = sample_state();
    state.light.backlight = KeyboardBacklightState::High;
    state.light.ambient_keyboard_backlight_enabled = true;
    state.light.ambient_light_available = true;
    state.light.ambient_light_low = Some(1.0 <= LOW_LIGHT_LUX);
    state.light.is_idle = true;

    assert_eq!(
        KeyboardStateManager::effective_keyboard_backlight(&state).level(),
        KeyboardBacklightState::Off.level()
    );
}

#[test]
fn requested_backlight_survives_idle_override() {
    let mut state = sample_state();
    state.light.backlight = KeyboardBacklightState::High;
    state.light.is_idle = true;

    assert_eq!(state.light.backlight.level(), KeyboardBacklightState::High.level());
    assert_eq!(
        KeyboardStateManager::effective_keyboard_backlight(&state).level(),
        KeyboardBacklightState::Off.level()
    );
}

#[test]
fn backlight_cycles_through_four_levels() {
    let mut state = KeyboardBacklightState::Off;
    let mut levels = Vec::new();
    for _ in 0..4 {
        state = state.next();
        levels.push(state.level());
    }
    assert_eq!(levels, vec![1, 2, 3, 0]);
    assert_eq!(KeyboardBacklightState::from_level(2), Some(KeyboardBacklightState::Medium));
    assert_eq!(KeyboardBacklightState::from_level(4), None);
    assert_eq!(
        KeyboardBacklightState::Low.max(KeyboardBacklightState::High),
        KeyboardBacklightState::High
    );
}

#[test]
fn backlight_file_reads_back() {
    for level in 0..4u8 {
        let state = KeyboardBacklightState::from_level(level).unwrap();
        let text = persist_backlight_disk(state);
        assert_eq!(load_backlight_disk(Some(text)), state);
        let line = format!(" {text}\n");
        assert_eq!(load_backlight_disk(Some(line.as_str())), state);
    }
    assert_eq!(
        load_backlight_disk(Some("bright")),
        load_backlight_disk(None)
    );
}

#[test]
fn connection_kinds_have_names() {
    assert_eq!(KeyboardConnectionKind::Detached.as_str(), "detached");
    assert_eq!(KeyboardConnectionKind::Bluetooth.as_str(), "bt");
    assert_eq!(KeyboardConnectionKind::Usb.as_str(), "usb");
    assert_eq!(KeyboardConnectionKind::Pogo.as_str(), "pogo");
    assert!(!KeyboardConnectionKind::Detached.is_connected());
    assert!(KeyboardConnectionKind::Pogo.is_connected());
}

#[test]
fn stored_battery_must_be_plausible() {
    let good = PersistedKeyboardBattery { pct: 80, charging: true, full: false };
    assert_eq!(load_battery_disk(Some(good)).map(|b| b.pct), Some(80));
    assert!(load_battery_disk(Some(PersistedKeyboardBattery {
        pct: 101,
        charging: false,
        full: false,
    }))
    .is_none());
    assert!(load_battery_disk(None).is_none());
}

#[test]
fn stored_state_changes_once() {
    let mut s = PersistedDisplayState::empty();
    assert!(s.update(DisplayStateChange::Brightness(400)));
    assert!(!s.update(DisplayStateChange::Brightness(400)));
    assert!(s.update(DisplayStateChange::Primary("eDP-2".to_string())));
    assert_eq!(s.desired_primary.as_deref(), Some("eDP-2"));
    assert_eq!(s.display_brightness, Some(400));
    assert!(s.update(DisplayStateChange::TabletMappingMode(TabletMapMode::AllToPrimary)));
    let cfg = resolve_tablet_mapping_config(&s, defaults());
    assert!(cfg.enable);
    assert_eq!(cfg.mode, TabletMapMode::AllToPrimary);
}

#[test]
fn missing_display_mode_has_defaults() {
    let (attachment, layout) =
        get_desired_display_mode_from_snapshot(&PersistedDisplayState::empty());
    assert_eq!(attachment, "builtin_only");
    assert_eq!(layout, "joined");
}

#[test]
fn requests_are_validated() {
    assert!(validate_desired_primary("eDP-1").is_ok());
    assert_eq!(
        validate_desired_primary("DP-1"),
        Err("desired primary must be eDP-1 or eDP-2, got DP-1".to_string())
    );
    assert!(validate_desired_display_mode_strings("all_connected", "mirror").is_ok());
    assert_eq!(
        validate_desired_display_mode_strings("none", "mirror"),
        Err("invalid desired_display_attachment: none".to_string())
    );
    assert_eq!(
        validate_desired_display_mode_strings("builtin_only", "odd"),
        Err("invalid desired_display_layout: odd".to_string())
    );
}

#[test]
fn suspending_turns_lights_off_and_on_again() {
    let mut m = manager(false, false);
    m.set_mic_mute_led(true);
    let effects = m.suspend_start();
    assert!(emits(&effects, Event::Backlight(KeyboardBacklightState::Off)));
    assert!(emits(&effects, Event::MicMuteLed(false)));
    assert_eq!(m.get_keyboard_backlight(), KeyboardBacklightState::Off);
    assert_eq!(m.requested_keyboard_backlight(), KeyboardBacklightState::Low);
    assert!(!m.get_mic_mute_led());
    let effects = m.suspend_end();
    assert!(emits(&effects, Event::Backlight(KeyboardBacklightState::Low)));
    assert!(emits(&effects, Event::MicMuteLed(true)));
    assert_eq!(m.get_keyboard_backlight(), KeyboardBacklightState::Low);
}

#[test]
fn docking_switches_the_lower_panel() {
    let mut m = manager(false, false);
    assert!(m.is_secondary_display_enabled());
    let effects = m.set_usb_keyboard_connection(true, true, 1_000);
    assert!(emits(&effects, Event::KeyboardPogoDocked(true)));
    assert!(emits(&effects, Event::SecondaryDisplay(false)));
    assert!(!m.is_secondary_display_enabled());
    assert!(m.is_secondary_display_desired_enabled());
    assert_eq!(m.keyboard_connection_kind(1_000), KeyboardConnectionKind::Pogo);
    assert!(m.set_usb_keyboard_connection(true, true, 2_000).is_empty());
    let effects = m.set_usb_keyboard_connection(false, false, 3_000);
    assert!(emits(&effects, Event::KeyboardPogoDocked(false)));
    assert!(emits(&effects, Event::SecondaryDisplay(true)));
    assert!(effects
        .iter()
        .any(|e| matches!(e, StateEffect::ScheduleConnectionRefresh)));
    assert_eq!(m.keyboard_connection_kind(3_999), KeyboardConnectionKind::Pogo);
    assert!(m.is_keyboard_connected(3_999));
    assert_eq!(m.keyboard_connection_kind(4_000), KeyboardConnectionKind::Detached);
}

#[test]
fn usb_battery_is_published_and_stored() {
    let mut m = manager(true, false);
    let effects = m.set_keyboard_battery_usb(72, 0x09);
    assert!(publishes(&effects, Publication::KeyboardBattery));
    assert!(effects.iter().any(|e| match e {
        StateEffect::StoreBattery(b) => b.pct == 72 && b.charging && !b.full,
        _ => false,
    }));
    assert_eq!(m.keyboard_battery_percentage(), Some(72));
    assert!(m.is_keyboard_battery_charging());
    assert!(!m.is_keyboard_battery_full());
    m.set_usb_keyboard_connection(false, false, 0);
    assert_eq!(m.keyboard_battery_percentage(), None);
    assert_eq!(m.keyboard_battery_last_known_percentage(), Some(72));
}

#[test]
fn bluetooth_sessions_are_counted() {
    let mut m = manager(false, false);
    m.bluetooth_connection_started(0);
    m.bluetooth_connection_started(0);
    assert!(m.is_bluetooth_connected());
    m.bluetooth_connection_stopped(10);
    assert!(m.is_bluetooth_connected());
    m.bluetooth_connection_stopped(10);
    assert!(!m.is_bluetooth_connected());
    m.bluetooth_connection_stopped(10);
    assert!(!m.is_bluetooth_connected());
}

#[test]
fn last_bluetooth_session_ends_with_grace() {
    let mut m = manager(false, false);
    m.bluetooth_connection_started(0);
    assert_eq!(m.keyboard_connection_kind(5_000), KeyboardConnectionKind::Bluetooth);
    m.bluetooth_connection_stopped(5_000);
    assert_eq!(m.keyboard_connection_kind(5_999), KeyboardConnectionKind::Bluetooth);
    assert_eq!(m.keyboard_connection_kind(6_000), KeyboardConnectionKind::Detached);
}

#[test]
fn pens_mode_is_toggled_only_while_mapping_is_on() {
    let mut m = manager(false, false);
    assert_eq!(m.toggle_tablet_mapping_mode().0, Some(TabletMapMode::AllToPrimary));
    assert_eq!(m.tablet_mapping_mode_string(), "all_to_primary");
    m.set_tablet_mapping_enabled(false);
    assert_eq!(m.toggle_tablet_mapping_mode().0, None);
    assert_eq!(m.bump_tablet_mapping_apply_nonce().0, 1);
    assert_eq!(m.tablet_mapping_apply_nonce(), 1);
    assert!(!m.get_tablet_mapping_config().enable);
}

#[test]
fn settings_are_published_when_they_change() {
    let mut m = manager(false, false);
    assert!(publishes(&m.set_idle_timeout_seconds(60), Publication::IdleTimeout));
    assert!(m.set_idle_timeout_seconds(60).is_empty());
    assert_eq!(m.idle_timeout_seconds(), 60);
    assert!(publishes(
        &m.set_display_rotation("left-up".to_string()),
        Publication::DisplayRotation
    ));
    assert_eq!(m.display_rotation(), "left-up");
    assert!(publishes(
        &m.set_display_brightness_value(300, true),
        Publication::DisplayBrightness
    ));
    assert_eq!(m.get_display_brightness_value(), Some(300));
    m.persist_desired_display_mode("all_connected".to_string(), "mirror".to_string());
    assert_eq!(
        m.get_desired_display_mode(),
        ("all_connected".to_string(), "mirror".to_string())
    );
    m.set_desired_primary("eDP-2".to_string());
    assert_eq!(m.get_desired_primary().as_deref(), Some("eDP-2"));
}

#[test]
fn low_light_raises_the_backlight() {
    let mut m = manager(false, false);
    m.set_keyboard_backlight(KeyboardBacklightState::Off);
    m.set_ambient_keyboard_backlight_enabled(true);
    m.set_ambient_light_sensor_available(true);
    let effects = m.set_ambient_light_lux(Some(true));
    assert!(emits(&effects, Event::Backlight(KeyboardBacklightState::Low)));
    assert_eq!(m.get_keyboard_backlight(), KeyboardBacklightState::Low);
    m.set_ambient_light_lux(Some(false));
    assert_eq!(m.get_keyboard_backlight(), KeyboardBacklightState::Off);
    m.toggle_keyboard_backlight();
    assert_eq!(m.requested_keyboard_backlight(), KeyboardBacklightState::Low);
    m.idle_start();
    assert_eq!(m.get_keyboard_backlight(), KeyboardBacklightState::Off);
    m.idle_end();
    assert_eq!(m.get_keyboard_backlight(), KeyboardBacklightState::Low);
}

#[test]
fn effective_charging_follows_the_cable() {
    let mut m = manager(true, false);
    assert!(m.is_keyboard_battery_effective_charging());
    let _ = m.set_usb_keyboard_connection(false, false, 0);
    assert!(!m.is_keyboard_battery_effective_charging());
}

#[test]
fn pipe_commands_change_the_state() {
    let mut m = manager(false, false);
    let (effects, next) = run_pipe_command(&mut m, PipeCommand::MicMuteLed(true));
    assert!(emits(&effects, Event::MicMuteLed(true)) && next == PipeFollowUp::Nothing);
    let (effects, next) = run_pipe_command(&mut m, PipeCommand::SuspendStart);
    assert!(emits(&effects, Event::MicMuteLed(false)) && next == PipeFollowUp::Nothing);
    assert!(emits(&effects, Event::Backlight(KeyboardBacklightState::Off)));
    assert!(!m.get_mic_mute_led());
    let (effects, next) = run_pipe_command(&mut m, PipeCommand::SuspendEnd);
    assert!(emits(&effects, Event::MicMuteLed(true)) && next == PipeFollowUp::WakeUp);
    assert!(emits(&effects, Event::Backlight(KeyboardBacklightState::Low)));
    run_pipe_command(&mut m, PipeCommand::MicMuteLedToggle);
    assert!(!m.get_mic_mute_led());
    run_pipe_command(&mut m, PipeCommand::BacklightToggle);
    assert_eq!(m.get_keyboard_backlight(), KeyboardBacklightState::Medium);
    run_pipe_command(&mut m, PipeCommand::Backlight(KeyboardBacklightState::Off));
    assert_eq!(m.get_keyboard_backlight(), KeyboardBacklightState::Off);
    for wanted in [false, true] {
        let (effects, next) = run_pipe_command(&mut m, PipeCommand::SecondaryDisplay(wanted));
        assert!(emits(&effects, Event::SecondaryDisplay(wanted)));
        assert_eq!((effects.len(), next), (2, PipeFollowUp::TellSession));
        assert_eq!(m.is_secondary_display_desired_enabled(), wanted);
    }
    run_pipe_command(&mut m, PipeCommand::SecondaryDisplayToggle);
    assert!(!m.is_secondary_display_desired_enabled());
    let mut docked = manager(true, true);
    let (effects, _) = run_pipe_command(&mut docked, PipeCommand::SecondaryDisplay(true));
    assert!(emits(&effects, Event::SecondaryDisplay(false)));
    assert!(docked.is_secondary_display_desired_enabled());
}
