use zenbook_duo_daemon::config::{TabletMapMode, TabletMappingConfig};
use zenbook_duo_daemon::control::{
    operator_command, query_root_state_for_cli, root_state_keys, state_lines, BacklightLevelArg,
    ControlCmd, DesiredPrimaryArg, TabletMappingModeArg,
};
use zenbook_duo_daemon::daemon_socket::{
    greeting, handle_session_connection, listen_from_root_and_update, DaemonMsg, RootSocketStep,
    SessionConnections, SessionSocketStep, SessionUpdate, SocketRead,
};
use zenbook_duo_daemon::dbus_state::{
    is_session_registered, recv_matching_ack, registration_preparation, resync_after_sleep,
    run_operator_command, AckEvent, CallError, DisplayApplyGuard, DisplayApplyPermit,
    OperatorCommand, OperatorOutcome, RootState, SessionCall, SessionRegistry, SessionReply,
};
use zenbook_duo_daemon::polkit::{
    check_authorization, is_separated, proc_pid_start_time_ticks, StatError, ACTION_OPERATOR,
};
use zenbook_duo_daemon::secondary_coordinator::{
    coordinate_secondary_display_to_state, coordinate_secondary_display_toggle, on_delayed_check,
    on_dock_notified, on_keyboard_docked, on_secondary_notified, CoordinatorAction,
};
use zenbook_duo_daemon::session_bus::{
    ClientAction, ClientEvent, ClientPhase, PermitEvent, PermitRequest, PermitStep, RootProperty,
    SessionClient,
};
use zenbook_duo_daemon::session_client::{
    parse_session_ready, response_text, session_socket_path, SessionTracker,
};
use zenbook_duo_daemon::state::{KeyboardBacklightState, PersistedDisplayState};
use zenbook_duo_daemon::state_manager::{KeyboardStateManager, StateEffect};

fn tablet() -> TabletMappingConfig {
    TabletMappingConfig { enable: true, mode: TabletMapMode::OneToOne }
}

fn manager() -> KeyboardStateManager {
    KeyboardStateManager::new(
        false,
        false,
        300,
        false,
        tablet(),
        &PersistedDisplayState::empty(),
        None,
        KeyboardBacklightState::Low,
    )
    .0
}

fn text_of(e: CallError) -> (char, String) {
    match e {
        CallError::Failed(s) => ('f', s),
        CallError::AccessDenied(s) => ('d', s),
        CallError::AuthFailed(s) => ('a', s),
    }
}

#[test]
fn guard_allows_fifteen_attempts() {
    let mut guard = DisplayApplyGuard::new();
    for _ in 0..15 {
        assert!(guard.register_attempt());
    }
    assert!(!guard.register_attempt());
    guard.decay();
    assert!(!guard.register_attempt());
    guard.resume();
    assert!(guard.register_attempt());
    let mut slow = DisplayApplyGuard::new();
    for _ in 0..40 {
        assert!(slow.register_attempt());
        slow.decay();
    }
    slow.decay();
    assert_eq!(slow.attempts, 0);
}

#[test]
fn registry_knows_one_session() {
    let mut registry = SessionRegistry::new();
    assert!(!is_session_registered(&registry));
    assert_eq!(registry.session_owner(), "");
    assert_eq!(registry.session_id(), 0);
    let (kind, text) = text_of(registry.ensure_registered_sender(Some(":1.5")).unwrap_err());
    assert_eq!((kind, text.as_str()), ('d', "no session daemon is currently registered"));
    registry.register(7, ":1.5".to_string(), 100);
    assert!(registry.ensure_registered_sender(Some(":1.5")).is_ok());
    let (_, text) = text_of(registry.ensure_registered_sender(Some(":1.6")).unwrap_err());
    assert_eq!(text, "sender :1.6 does not match registered session :1.5");
    let (_, text) = text_of(registry.ensure_registered_sender(None).unwrap_err());
    assert_eq!(text, "missing D-Bus sender");
    registry.mark_session_activity(250);
    assert_eq!(registry.session_last_seen_usec(), 250);
    assert_eq!(registry.session_id(), 7);
    assert!(!registry.clear_registration_for_owner(":1.6"));
    assert!(registry.clear_registration_for_owner(":1.5"));
    assert!(!is_session_registered(&registry));
}

#[test]
fn sixteenth_attempt_pauses_until_resumed() {
    let mut root = RootState {
        registry: SessionRegistry::new(),
        guard: DisplayApplyGuard::new(),
        manager: manager(),
    };
    let (kind, text) =
        text_of(root.register_display_apply_attempt(Some(":1.5"), 1).unwrap_err());
    assert_eq!((kind, text.as_str()), ('d', "no session daemon is currently registered"));
    root.registry.register(7, ":1.5".to_string(), 0);
    for round in 0..2u64 {
        for i in 0..15u64 {
            assert!(matches!(root.register_display_apply_attempt(Some(":1.5"), 10 + i), Ok(true)));
            let (kind, _) =
                text_of(root.register_display_apply_attempt(Some(":1.6"), 99).unwrap_err());
            assert_eq!(kind, 'd');
        }
        assert_eq!(root.registry.session_last_seen_usec(), 24);
        assert!(!root.display_apply_paused());
        assert!(matches!(root.register_display_apply_attempt(Some(":1.5"), 30 + round), Ok(false)));
        assert!(root.display_apply_paused());
        for _ in 0..20 {
            root.forget_display_apply_attempt();
        }
        assert!(matches!(root.register_display_apply_attempt(Some(":1.5"), 40), Ok(false)));
        root.resume_display_applies();
        assert!(!root.display_apply_paused());
    }
}

#[test]
fn only_the_registered_session_may_call() {
    let mut root = RootState {
        registry: SessionRegistry::new(),
        guard: DisplayApplyGuard::new(),
        manager: manager(),
    };
    assert!(root.session_call(Some(":1.5"), SessionCall::SecondaryPoweroffReady, 1).is_err());
    root.registry.register(7, ":1.5".to_string(), 0);
    assert!(matches!(
        root.session_call(Some(":1.5"), SessionCall::SecondaryPoweroffReady, 2),
        Ok(SessionReply::PowerOffSecondary)
    ));
    assert_eq!(root.registry.session_last_seen_usec(), 2);
    assert!(matches!(
        root.session_call(
            Some(":1.5"),
            SessionCall::Acknowledge(AckEvent::KeyboardPogoDocked(true)),
            3
        ),
        Ok(SessionReply::Acknowledged(AckEvent::KeyboardPogoDocked(true)))
    ));
    match root.session_call(Some(":1.5"), SessionCall::ReportAmbientLight(true), 4) {
        Ok(SessionReply::Effects(effects)) => assert_eq!(effects.len(), 1),
        _ => panic!("effects were expected"),
    }
    match root.session_call(Some(":1.5"), SessionCall::ReportAmbientLight(true), 5) {
        Ok(SessionReply::Effects(effects)) => assert!(effects.is_empty()),
        _ => panic!("effects were expected"),
    }
    let report = SessionCall::ReportObservedMode {
        attachment: "all_connected".to_string(),
        layout: "mirror".to_string(),
    };
    assert!(matches!(
        root.session_call(Some(":1.5"), report, 6),
        Ok(SessionReply::ModeStored(_))
    ));
    assert_eq!(root.manager.get_desired_display_mode().1, "mirror");
    let wrong = SessionCall::ReportObservedMode {
        attachment: "odd".to_string(),
        layout: "mirror".to_string(),
    };
    match root.session_call(Some(":1.5"), wrong, 7) {
        Err(e) => assert_eq!(
            text_of(e),
            ('f', "invalid desired_display_attachment: odd".to_string())
        ),
        Ok(_) => panic!("an error was expected"),
    }
    assert!(matches!(
        root.session_call(Some(":1.5"), SessionCall::SecondaryPoweroffReady, 8),
        Ok(SessionReply::PowerOffSecondary)
    ));
}

#[test]
fn acknowledgements_are_matched() {
    let expected = AckEvent::DesiredSecondaryApplied(true);
    assert_eq!(recv_matching_ack(Some(expected), expected), Some(true));
    assert_eq!(
        recv_matching_ack(Some(AckEvent::DesiredSecondaryApplied(false)), expected),
        None
    );
    assert_eq!(recv_matching_ack(None, expected), Some(false));
    assert!(registration_preparation(false).is_empty());
    assert_eq!(registration_preparation(true).len(), 3);
}

#[test]
fn operator_commands_are_carried_out() {
    let mut m = manager();
    assert!(matches!(
        run_operator_command(&mut m, OperatorCommand::SetKeyboardBacklightLevel(3)),
        Ok(OperatorOutcome::Effects(_))
    ));
    assert_eq!(m.requested_keyboard_backlight(), KeyboardBacklightState::High);
    match run_operator_command(&mut m, OperatorCommand::SetKeyboardBacklightLevel(4)) {
        Err(e) => assert_eq!(
            text_of(e),
            ('f', "keyboard backlight level must be 0..=3, got 4".to_string())
        ),
        Ok(_) => panic!("an error was expected"),
    }
    let primary = |name: &str| OperatorCommand::SetDesiredPrimary(name.to_string());
    match run_operator_command(&mut m, primary("eDP-2")) {
        Ok(OperatorOutcome::PrimaryChanged { pause_secs, effects }) => {
            assert_eq!(pause_secs, 4);
            assert!(matches!(effects[0], StateEffect::StoreDisplay(_)));
        }
        _ => panic!("a change was expected"),
    }
    assert!(matches!(
        run_operator_command(&mut m, primary("eDP-2")),
        Ok(OperatorOutcome::Unchanged)
    ));
    assert!(run_operator_command(&mut m, primary("DP-1")).is_err());
    assert!(run_operator_command(
        &mut m,
        OperatorCommand::SetTabletMappingMode("sideways".to_string())
    )
    .is_err());
    match run_operator_command(&mut m, OperatorCommand::SetSecondaryDisplay(false)) {
        Ok(OperatorOutcome::Coordinate(actions)) => {
            assert_eq!(actions[1], CoordinatorAction::StoreDesired(false));
        }
        _ => panic!("actions were expected"),
    }
    match run_operator_command(&mut m, OperatorCommand::SetSecondaryDisplay(true)) {
        Ok(OperatorOutcome::Coordinate(actions)) => assert!(actions.is_empty()),
        _ => panic!("actions were expected"),
    }
    for cmd in [
        OperatorCommand::ToggleMicMuteLed,
        OperatorCommand::SetMicMuteLed(true),
        OperatorCommand::ToggleKeyboardBacklight,
        OperatorCommand::SetTabletMappingEnabled(false),
        OperatorCommand::ToggleTabletMappingMode,
        OperatorCommand::ApplyTabletMapping,
        OperatorCommand::ToggleSecondaryDisplay,
    ] {
        assert!(run_operator_command(&mut m, cmd).is_ok());
    }
    assert_eq!(m.tablet_mapping_apply_nonce(), 1);
}

#[test]
fn waking_up_mends_the_connection() {
    assert_eq!(resync_after_sleep(Some(true), true, true), None);
    assert_eq!(resync_after_sleep(Some(true), true, false), Some((true, true)));
    assert_eq!(resync_after_sleep(Some(false), false, false), Some((true, false)));
    assert_eq!(resync_after_sleep(None, true, true), Some((false, false)));
    assert_eq!(resync_after_sleep(None, false, false), None);
}

#[test]
fn panel_is_switched_before_the_session_is_told() {
    assert!(coordinate_secondary_display_to_state(true, true, false).is_empty());
    let on = coordinate_secondary_display_toggle(false, false);
    assert_eq!(on.len(), 6);
    assert_eq!(on[0], CoordinatorAction::PauseBrightnessSync { secs: 4 });
    assert_eq!(on[5], CoordinatorAction::NotifySecondaryAndWait { secs: 8 });
    let covered = coordinate_secondary_display_to_state(false, true, true);
    assert_eq!(covered.len(), 3);
    let off = coordinate_secondary_display_to_state(true, false, false);
    assert_eq!(off[2], CoordinatorAction::NotifySecondary);
    assert!(on_secondary_notified(true, true, true).is_empty());
    assert_eq!(on_secondary_notified(true, true, false).len(), 2);
    assert!(on_secondary_notified(false, true, false).is_empty());
    assert_eq!(
        on_secondary_notified(false, false, false),
        vec![CoordinatorAction::CheckLater { ms: 600 }]
    );
    assert!(on_delayed_check(true).is_empty());
    assert_eq!(on_delayed_check(false).len(), 2);
    assert_eq!(on_keyboard_docked(false)[1], CoordinatorAction::EnsureSwitchOn);
    assert_eq!(on_keyboard_docked(true).len(), 2);
    assert!(on_dock_notified(true, true).is_empty());
    assert_eq!(on_dock_notified(false, false).len(), 2);
}

#[test]
fn session_client_registers_and_recovers() {
    let mut c = SessionClient::new(tablet());
    let step = c.run_session_client(ClientEvent::Drained { latest: Some(true), open: true });
    assert!(matches!(step[0], ClientAction::Connect));
    assert!(matches!(c.run_session_client(ClientEvent::Done(true))[0], ClientAction::Attach));
    assert!(matches!(c.run_session_client(ClientEvent::Done(true))[0], ClientAction::Register));
    let step = c.run_session_client(ClientEvent::Done(true));
    assert!(matches!(step[0], ClientAction::ShareConnection));
    assert!(matches!(step[1], ClientAction::DrainAmbient));
    let step = c.run_session_client(ClientEvent::Drained { latest: None, open: true });
    assert!(matches!(step[0], ClientAction::ReportAmbient(true)));
    assert!(matches!(c.run_session_client(ClientEvent::Done(true))[0], ClientAction::AttachBus));
    assert!(matches!(c.run_session_client(ClientEvent::Done(true))[0], ClientAction::WatchOwner));
    let step = c.run_session_client(ClientEvent::Done(true));
    assert_eq!(step.len(), 7);
    assert!(matches!(step[1], ClientAction::Read(RootProperty::KeyboardUsbConnected)));
    assert!(matches!(
        c.run_session_client(ClientEvent::PogoDocked(true))[0],
        ClientAction::SendDock { docked: true, secs: 5 }
    ));
    match &c.run_session_client(ClientEvent::DesiredPrimary("eDP-2".to_string()))[0] {
        ClientAction::ApplyPrimary(name) => assert_eq!(name, "eDP-2"),
        _ => panic!("a panel was expected"),
    }
    assert!(c.run_session_client(ClientEvent::Brightness(0)).is_empty());
    assert!(matches!(
        c.run_session_client(ClientEvent::Brightness(9))[0],
        ClientAction::ApplyBrightness(9)
    ));
    let same = ClientEvent::TabletMapping {
        enabled: Some(true),
        mode: Some("unheard of".to_string()),
    };
    assert!(c.run_session_client(same).is_empty());
    let other = ClientEvent::TabletMapping {
        enabled: Some(true),
        mode: Some("all_to_primary".to_string()),
    };
    assert!(matches!(c.run_session_client(other)[0], ClientAction::MapPens));
    assert!(c.run_session_client(ClientEvent::Unreadable).is_empty());
    let step = c.run_session_client(ClientEvent::Ambient(Some(false)));
    assert!(matches!(step[0], ClientAction::ReportAmbient(false)));
    let step = c.run_session_client(ClientEvent::Done(false));
    assert!(matches!(step[0], ClientAction::WithdrawConnection));
    assert!(matches!(step[1], ClientAction::Wait { secs: 2 }));
    let step = c.run_session_client(ClientEvent::Waited);
    assert!(matches!(step[0], ClientAction::DrainAmbient));
    c.run_session_client(ClientEvent::Drained { latest: None, open: false });
    assert_eq!(c.phase, ClientPhase::Ended);
}

#[test]
fn permission_is_asked_again_once() {
    assert!(PermitRequest::start(false).is_err());
    let mut request = PermitRequest::start(true).unwrap();
    let mismatch = || {
        PermitEvent::Answered(Err(
            "sender :1.6 does not match registered session :1.5".to_string()
        ))
    };
    assert!(matches!(
        request.register_display_apply_attempt(mismatch()),
        PermitStep::Register
    ));
    assert!(matches!(
        request.register_display_apply_attempt(PermitEvent::Registered(Ok(()))),
        PermitStep::Ask
    ));
    match request.register_display_apply_attempt(mismatch()) {
        PermitStep::Decided(Err(e)) => assert_eq!(
            e,
            "register_display_apply_attempt: sender :1.6 does not match registered session :1.5"
        ),
        _ => panic!("an error was expected"),
    }
    match request.register_display_apply_attempt(PermitEvent::Registered(Err("no".to_string()))) {
        PermitStep::Decided(Err(e)) => assert_eq!(
            e,
            "register_session after display guard sender mismatch: no (was: sender :1.6 does not match registered session :1.5)"
        ),
        _ => panic!("an error was expected"),
    }
    assert!(matches!(
        request.register_display_apply_attempt(PermitEvent::Answered(Ok(true))),
        PermitStep::Decided(Ok(DisplayApplyPermit::Allowed))
    ));
    assert!(matches!(
        request.register_display_apply_attempt(PermitEvent::Answered(Ok(false))),
        PermitStep::Decided(Ok(DisplayApplyPermit::Paused))
    ));
    match request.register_display_apply_attempt(PermitEvent::Unattached("x".to_string())) {
        PermitStep::Decided(Err(e)) => {
            assert_eq!(e, "root state proxy for display apply guard: x")
        }
        _ => panic!("an error was expected"),
    }
}

#[test]
fn socket_messages_are_acknowledged() {
    let update = listen_from_root_and_update(SocketRead::Message(
        DaemonMsg::DesiredPrimaryUpdate { value: "eDP-2".to_string() },
    ));
    match update {
        SessionSocketStep::Apply {
            update: SessionUpdate::Primary(p),
            reply: DaemonMsg::Ack { msg },
        } => {
            assert_eq!(p, "eDP-2");
            assert_eq!(msg, "desired_primary_received:eDP-2");
        }
        _ => panic!("an update was expected"),
    }
    match listen_from_root_and_update(SocketRead::Message(DaemonMsg::KeyboardAttached {
        value: true,
    })) {
        SessionSocketStep::Apply { reply: DaemonMsg::Ack { msg }, .. } => {
            assert_eq!(msg, "keyboard_attached_received:true")
        }
        _ => panic!("an update was expected"),
    }
    match listen_from_root_and_update(SocketRead::Message(DaemonMsg::ToggleSecondaryDisplay {
        enable: false,
    })) {
        SessionSocketStep::Apply { reply: DaemonMsg::Ack { msg }, .. } => {
            assert_eq!(msg, "toggle_secondary_received:false")
        }
        _ => panic!("an update was expected"),
    }
    assert!(matches!(
        listen_from_root_and_update(SocketRead::Unreadable),
        SessionSocketStep::Ignore
    ));
    assert!(matches!(
        listen_from_root_and_update(SocketRead::Closed),
        SessionSocketStep::Close
    ));
    assert!(matches!(
        handle_session_connection(SocketRead::Closed),
        RootSocketStep::Close
    ));
    match handle_session_connection(SocketRead::Message(DaemonMsg::Ack { msg: "m".to_string() })) {
        RootSocketStep::Acknowledged(msg) => assert_eq!(msg, "m"),
        _ => panic!("an acknowledgement was expected"),
    }
    match greeting(Some("eDP-1".to_string())) {
        Some(DaemonMsg::DesiredPrimaryUpdate { value }) => assert_eq!(value, "eDP-1"),
        _ => panic!("a greeting was expected"),
    }
    assert!(greeting(None).is_none());
    let mut connections = SessionConnections::new();
    assert!(!connections.is_session_connected());
    connections.connected();
    assert!(connections.is_session_connected());
    connections.disconnected();
    assert!(!connections.is_session_connected());
}

#[test]
fn new_sessions_are_noticed() {
    assert_eq!(parse_session_ready("session_ready: 42 \n"), Some(42));
    assert_eq!(parse_session_ready("session_ready:x"), None);
    assert_eq!(parse_session_ready("ready:42"), None);
    let mut tracker = SessionTracker::new();
    assert!(tracker.is_new_session("session_ready:42\n"));
    assert!(!tracker.is_new_session("session_ready:42\n"));
    assert!(!tracker.is_new_session("garbage"));
    assert!(tracker.is_new_session("session_ready:43\n"));
    assert_eq!(session_socket_path(1000), "/run/user/1000/zenbook-duo-session.sock");
    assert_eq!(response_text(Some(" ok\n")).as_deref(), Some("ok"));
    assert_eq!(response_text(Some("")), None);
    assert_eq!(response_text(None), None);
}

#[test]
fn process_start_time_is_read() {
    let stat = "42 (a b) c) S 1 2 3 4 5 6 7 8 9 10 11 12 13 14 15 16 17 18 987654 20 21";
    assert!(is_separated(stat));
    assert!(matches!(proc_pid_start_time_ticks(stat), Ok(987654)));
    assert!(matches!(proc_pid_start_time_ticks("42 x"), Err(StatError::NoName)));
    assert!(matches!(proc_pid_start_time_ticks("42 (x) S 1"), Err(StatError::Short)));
    let odd = "42 (x) S 1 2 3 4 5 6 7 8 9 10 11 12 13 14 15 16 17 18 soon";
    match proc_pid_start_time_ticks(odd) {
        Err(StatError::NotANumber(field)) => assert_eq!(field, "soon"),
        _ => panic!("an error was expected"),
    }
    assert!(!is_separated("42 (x)"));
}

#[test]
fn authority_decides() {
    assert!(check_authorization(true, false, 5, ACTION_OPERATOR).is_ok());
    let (kind, text) = text_of(check_authorization(false, true, 5, ACTION_OPERATOR).unwrap_err());
    assert_eq!(kind, 'a');
    assert_eq!(text, "Polkit requires interactive authentication for this action");
    let (kind, text) = text_of(check_authorization(false, false, 5, ACTION_OPERATOR).unwrap_err());
    assert_eq!(kind, 'd');
    assert_eq!(
        text,
        "Polkit denied action org.zenbook.duo.operator for pid 5 (not an active local session, or policy does not allow this)"
    );
}

#[test]
fn command_line_stands_for_operator_commands() {
    match operator_command(ControlCmd::DesiredPrimarySet { primary: DesiredPrimaryArg::Edp2 }) {
        OperatorCommand::SetDesiredPrimary(name) => assert_eq!(name, "eDP-2"),
        _ => panic!("a panel was expected"),
    }
    match operator_command(ControlCmd::TabletMappingMode {
        mode: TabletMappingModeArg::AllToPrimary,
    }) {
        OperatorCommand::SetTabletMappingMode(name) => assert_eq!(name, "all_to_primary"),
        _ => panic!("a mode was expected"),
    }
    assert!(matches!(
        operator_command(ControlCmd::KeyboardBacklightSet { level: BacklightLevelArg::Medium }),
        OperatorCommand::SetKeyboardBacklightLevel(2)
    ));
    assert!(matches!(
        operator_command(ControlCmd::DesiredSecondaryEnabled { on: true }),
        OperatorCommand::SetSecondaryDisplay(true)
    ));
}

#[test]
fn state_is_shown_as_a_table() {
    let keys = root_state_keys();
    assert_eq!(keys.len(), 24);
    let values: Vec<Result<String, String>> = (0..24)
        .map(|i| if i == 1 { Err("gone".to_string()) } else { Ok(format!("v{i}")) })
        .collect();
    let rows = query_root_state_for_cli(values);
    assert_eq!(rows[0], ("keyboard_usb_connected".to_string(), "v0".to_string()));
    assert_eq!(rows[1].1, "(error: gone)");
    assert_eq!(rows[23].0, "session_last_seen_usec");
    let lines = state_lines(&rows);
    let width = keys.iter().map(|k| k.len()).max().unwrap_or(0);
    for (line, (k, v)) in lines.iter().zip(rows.iter()) {
        assert_eq!(*line, format!("{k:width$}  {v}"));
    }
    assert!(state_lines(&Vec::new()).is_empty());
}
