use zenbook_duo_daemon::dbus_state::DisplayApplyPermit;
use zenbook_duo_daemon::session::apply::{
    effective_secondary_enabled, plan, ApplyCommand, ApplyEvent, ApplyPhase,
    ApplyRun, DisplayApplyError, DisplayRequest, Plan, Snapshot,
};
use zenbook_duo_daemon::session::display::{LogicalMonitor, MonitorMode, PhysicalMonitor};
use zenbook_duo_daemon::session::reconcile::{
    reconcile_outcome, recovery_converged, should_restore_primary, should_wait_for_edp2,
    update_availability_monitor_for_edp2, wanted_backlights, AvailabilityCommand, BacklightEntry,
    DisplayAction, DisplayEvent, DisplayLoop, DisplayNotice, ReconcileOutcome, ReconcileReason,
    RecoveryCommand, RecoveryInputs, RecoveryOutcome, RecoveryRun,
};

fn panel(name: &str, id: &str) -> PhysicalMonitor {
    PhysicalMonitor {
        connector: name.to_string(),
        vendor: String::new(),
        product: String::new(),
        serial: String::new(),
        modes: vec![MonitorMode {
            id: id.to_string(),
            width: 2880,
            height: 1800,
            logical_width: 1440,
            logical_height: 900,
            is_current: true,
            is_preferred: true,
        }],
    }
}

fn row(y: i32, primary: bool, connector: &str) -> LogicalMonitor {
    LogicalMonitor {
        x: 0,
        y,
        scale_matches: true,
        transform: 0,
        primary,
        connectors: vec![connector.to_string()],
    }
}

fn snapshot(serial: u32, logical: Vec<LogicalMonitor>) -> Snapshot {
    Snapshot { serial, physical: vec![panel("eDP-1", "a"), panel("eDP-2", "b")], logical }
}

fn upper_only(serial: u32) -> Snapshot {
    snapshot(serial, vec![row(0, true, "eDP-1")])
}

fn both(serial: u32, lower_primary: bool) -> Snapshot {
    snapshot(
        serial,
        vec![row(0, !lower_primary, "eDP-1"), row(900, lower_primary, "eDP-2")],
    )
}

fn request(primary: &str, secondary: bool, attached: bool) -> DisplayRequest {
    DisplayRequest {
        keyboard_attached: attached,
        secondary_enabled: secondary,
        primary: primary.to_string(),
        transform: 0,
    }
}

fn allowed() -> ApplyEvent {
    ApplyEvent::Permit(Ok(DisplayApplyPermit::Allowed))
}

fn error_of(command: ApplyCommand) -> DisplayApplyError {
    match command {
        ApplyCommand::Done(Err(e)) => e,
        _ => panic!("an error was expected"),
    }
}

#[test]
fn plans_follow_the_request() {
    assert!(matches!(plan(&both(1, false), &request("eDP-1", true, false)), Plan::NoChange));
    match plan(&both(1, false), &request("eDP-1", true, true)) {
        Plan::Change { intermediate: None, desired } => {
            assert_eq!(desired.len(), 1);
            assert_eq!(desired[0].connector, "eDP-1");
        }
        _ => panic!("a change was expected"),
    }
    match plan(&upper_only(1), &request("eDP-2", true, false)) {
        Plan::Change { intermediate: Some(first), desired } => {
            assert_eq!(first[1].connector, "eDP-1");
            assert!(first[1].primary);
            assert_eq!(desired[1].connector, "eDP-2");
            assert!(desired[1].primary);
        }
        _ => panic!("two phases were expected"),
    }
    let nothing = Snapshot { serial: 1, physical: vec![], logical: vec![] };
    assert!(matches!(plan(&nothing, &request("eDP-1", true, false)), Plan::NoEdp1Mode));
    assert!(effective_secondary_enabled(true, false));
    assert!(!effective_secondary_enabled(true, true));
}

#[test]
fn only_planned_layouts_must_be_movable() {
    let (run, _) = ApplyRun::start(request("eDP-2", true, false));
    let mut state = upper_only(1);
    let mut external = panel("HDMI-A-1", "c");
    external.modes[0].logical_height = i32::MAX;
    state.physical.push(external);
    assert!(run.accepts(&state));
    state.physical[0].modes[0].logical_height = i32::MAX;
    assert!(!run.accepts(&state));
    let (single, _) = ApplyRun::start(request("eDP-1", true, true));
    assert!(single.accepts(&state));
}

#[test]
fn hidden_duplicate_keeps_an_attempt_going() {
    let mut state = both(1, false);
    state.logical.push(row(0, false, "HDMI-A-1"));
    state.logical[2].connectors.push("eDP-2".to_string());
    state.physical.push(panel("HDMI-A-1", "c"));
    assert!(matches!(
        plan(&state, &request("eDP-1", true, false)),
        Plan::Change { intermediate: None, .. }
    ));
    for second in ["eDP-1", "eDP-2"] {
        let mut shared = upper_only(1);
        shared.logical[0].connectors.push(second.to_string());
        assert!(matches!(
            plan(&shared, &request("eDP-2", true, false)),
            Plan::Change { intermediate: None, .. }
        ));
    }
}

#[test]
fn two_phase_attempt_runs_to_its_end() {
    let (mut run, first) = ApplyRun::start(request("eDP-2", true, false));
    assert!(matches!(first, ApplyCommand::ReadState));
    assert!(matches!(
        run.step(ApplyEvent::State(Ok(upper_only(7)))),
        ApplyCommand::RequestPermit
    ));
    match run.step(allowed()) {
        ApplyCommand::Apply { serial, lms } => {
            assert_eq!(serial, 7);
            assert!(lms[1].primary);
            assert_eq!(lms[1].connector, "eDP-1");
        }
        _ => panic!("an apply was expected"),
    }
    assert!(matches!(run.step(ApplyEvent::Applied(Ok(()))), ApplyCommand::Sleep { ms: 300 }));
    assert!(matches!(run.step(ApplyEvent::Slept), ApplyCommand::ReadState));
    assert!(matches!(
        run.step(ApplyEvent::State(Ok(both(8, false)))),
        ApplyCommand::RequestPermit
    ));
    match run.step(allowed()) {
        ApplyCommand::Apply { serial, lms } => {
            assert_eq!(serial, 8);
            assert_eq!(lms[1].connector, "eDP-2");
        }
        _ => panic!("an apply was expected"),
    }
    assert!(matches!(run.step(ApplyEvent::Applied(Ok(()))), ApplyCommand::Sleep { ms: 100 }));
    assert!(matches!(run.step(ApplyEvent::Slept), ApplyCommand::ReadState));
    assert!(matches!(
        run.step(ApplyEvent::State(Ok(both(9, true)))),
        ApplyCommand::Done(Ok(true))
    ));
    assert_eq!(run.phase(), ApplyPhase::Finished);
}

#[test]
fn no_apply_without_permission() {
    let (mut run, _) = ApplyRun::start(request("eDP-1", true, false));
    run.step(ApplyEvent::State(Ok(upper_only(1))));
    let e = error_of(run.step(ApplyEvent::Permit(Ok(DisplayApplyPermit::Paused))));
    assert!(e.is_guard_block());
    assert!(e.message().contains("resume-display-applies"));
    let (mut run, _) = ApplyRun::start(request("eDP-1", true, false));
    run.step(ApplyEvent::State(Ok(upper_only(1))));
    let e = error_of(run.step(ApplyEvent::Permit(Err("gone".to_string()))));
    assert_eq!(e.message(), "display apply guard unreachable: gone");
}

#[test]
fn adjacency_refusals_are_met_with_a_pixel() {
    let (mut run, _) = ApplyRun::start(request("eDP-1", true, false));
    run.step(ApplyEvent::State(Ok(upper_only(1))));
    run.step(allowed());
    let refusal = || ApplyEvent::Applied(Err("Logical monitors not ADJACENT".to_string()));
    let lower_y = |command: ApplyCommand| match command {
        ApplyCommand::Apply { lms, .. } => {
            lms.iter().find(|l| l.connector == "eDP-2").map(|l| l.y)
        }
        _ => None,
    };
    assert_eq!(lower_y(run.step(refusal())), Some(901));
    assert_eq!(lower_y(run.step(refusal())), Some(899));
    let e = error_of(run.step(refusal()));
    assert!(!e.is_guard_block());
    assert_eq!(
        e.message(),
        "Failed to apply desired dual-monitor layout after adjacency correction"
    );
}

#[test]
fn other_failures_end_the_attempt() {
    let (mut run, _) = ApplyRun::start(request("eDP-1", true, false));
    run.step(ApplyEvent::State(Ok(upper_only(1))));
    run.step(allowed());
    let e = error_of(run.step(ApplyEvent::Applied(Err("Invalid mode".to_string()))));
    assert_eq!(e.message(), "Invalid mode");
    let (mut run, _) = ApplyRun::start(request("eDP-1", true, false));
    run.step(ApplyEvent::State(Ok(upper_only(1))));
    run.step(allowed());
    run.step(ApplyEvent::Applied(Ok(())));
    run.step(ApplyEvent::Slept);
    let e = error_of(run.step(ApplyEvent::State(Ok(upper_only(2)))));
    assert_eq!(e.message(), "Desired display layout mismatch after apply");
    let (mut run, _) = ApplyRun::start(request("eDP-1", true, false));
    let e = error_of(run.step(ApplyEvent::State(Err("no bus".to_string()))));
    assert_eq!(e.message(), "no bus");
}

fn reconciles(actions: &[DisplayAction]) -> bool {
    actions.iter().any(|a| matches!(a, DisplayAction::Reconcile(_)))
}

#[test]
fn signals_are_debounced() {
    let mut l = DisplayLoop::new();
    assert!(l.step(DisplayEvent::Availability, 1_000).is_empty());
    assert_eq!(l.debounce_deadline, Some(2_200));
    let actions = l.step(DisplayEvent::DesiredPrimary("eDP-2".to_string()), 1_500);
    assert_eq!(actions.len(), 1);
    assert_eq!(l.debounce_deadline, Some(2_700));
    l.step(DisplayEvent::Orientation, 1_600);
    assert_eq!(l.debounce_deadline, Some(3_400));
    let scheduled = l;
    assert!(l.step(DisplayEvent::DebounceElapsed, 3_399).is_empty());
    assert_eq!(l, scheduled);
    let actions = l.step(DisplayEvent::DebounceElapsed, 3_400);
    assert!(reconciles(&actions));
    assert!(matches!(actions[0], DisplayAction::CancelRecovery(ReconcileReason::Orientation)));
    assert_eq!(l.debounce_deadline, None);
    assert!(l.step(DisplayEvent::DebounceElapsed, 3_500).is_empty());
    let mut fresh = DisplayLoop::new();
    assert!(fresh.step(DisplayEvent::DebounceElapsed, 10).is_empty());
    assert_eq!(fresh, DisplayLoop::new());
}

#[test]
fn repeated_keyboard_state_is_acknowledged_only() {
    let mut l = DisplayLoop::new();
    let actions = l.step(DisplayEvent::KeyboardAttached(false), 0);
    assert_eq!(actions.len(), 2);
    assert_eq!(l.debounce_deadline, None);
    l.step(DisplayEvent::KeyboardAttached(true), 10);
    assert_eq!(l.debounce_deadline, Some(1_210));
    l.step(DisplayEvent::KeyboardAttached(true), 500);
    assert_eq!(l.debounce_deadline, Some(1_210));
}

#[test]
fn too_many_followups_start_a_quiet_minute() {
    let mut l = DisplayLoop::new();
    for i in 0..19 {
        l.step(DisplayEvent::Reconciled(ReconcileOutcome::Changed), i);
        assert!(l.step(DisplayEvent::Availability, i).is_empty());
    }
    l.step(DisplayEvent::Reconciled(ReconcileOutcome::Changed), 100);
    let actions = l.step(DisplayEvent::Availability, 100);
    assert!(matches!(actions[0], DisplayAction::Notify(DisplayNotice::Throttled)));
    assert_eq!(l.quiet_until, Some(60_100));
    l.step(DisplayEvent::Availability, 60_099);
    assert_eq!(l.debounce_deadline, None);
    l.step(DisplayEvent::Availability, 60_100);
    assert_eq!(l.debounce_deadline, Some(61_300));
}

#[test]
fn failed_reconcile_is_recovered() {
    let mut l = DisplayLoop::new();
    let actions = l.step(DisplayEvent::Reconciled(ReconcileOutcome::Failed), 0);
    assert!(matches!(actions[0], DisplayAction::EnsureRecovery(ReconcileReason::DisplayState)));
    assert!(matches!(l.step(DisplayEvent::Closed, 0)[0], DisplayAction::Stop));
    assert_eq!(ReconcileReason::Orientation.as_str(), "orientation update");
    assert_eq!(reconcile_outcome(&Ok(true)), ReconcileOutcome::Changed);
    assert_eq!(reconcile_outcome(&Ok(false)), ReconcileOutcome::Unchanged);
    assert_eq!(
        reconcile_outcome(&Err(DisplayApplyError::GuardPaused)),
        ReconcileOutcome::GuardBlocked
    );
    assert_eq!(
        reconcile_outcome(&Err(DisplayApplyError::Apply("x".to_string()))),
        ReconcileOutcome::Failed
    );
}

#[test]
fn recovery_gives_up_after_twenty_attempts() {
    let mut run = RecoveryRun::new();
    for attempt in 1..20 {
        let (notice, command) = run.step(RecoveryOutcome::Failed);
        assert_eq!(notice, Some(DisplayNotice::RecoveryRetrying { attempt }));
        assert_eq!(command, RecoveryCommand::RetryAfter { secs: 1 });
    }
    let (notice, command) = run.step(RecoveryOutcome::Failed);
    assert_eq!(notice, Some(DisplayNotice::RecoveryFailed));
    assert_eq!(command, RecoveryCommand::Stop);
    assert_eq!(
        RecoveryRun::new().step(RecoveryOutcome::GuardBlocked),
        (Some(DisplayNotice::ApplyBlocked), RecoveryCommand::Stop)
    );
    assert_eq!(
        RecoveryRun::new().step(RecoveryOutcome::Converged),
        (None, RecoveryCommand::Stop)
    );
    let content = DisplayNotice::RecoveryRetrying { attempt: 3 }.content();
    assert!(content.body.contains("attempt 3/20"));
    assert!(content.transient);
    assert!(!DisplayNotice::RecoveryFailed.content().transient);
}

#[test]
fn recovery_needs_unchanged_inputs() {
    let inputs = |primary: &str| RecoveryInputs {
        keyboard_attached: false,
        secondary_enabled: true,
        primary: primary.to_string(),
    };
    assert!(recovery_converged(&inputs("eDP-1"), &inputs("eDP-1")).is_ok());
    assert!(recovery_converged(&inputs("eDP-1"), &inputs("eDP-2")).is_err());
}

#[test]
fn lower_panel_is_waited_for() {
    assert!(should_wait_for_edp2("eDP-2", true, false));
    assert!(!should_wait_for_edp2("eDP-2", true, true));
    assert!(!should_wait_for_edp2("eDP-1", true, false));
    assert_eq!(
        update_availability_monitor_for_edp2(true, true, true),
        AvailabilityCommand::Keep
    );
    assert_eq!(
        update_availability_monitor_for_edp2(true, true, false),
        AvailabilityCommand::Start
    );
    assert_eq!(
        update_availability_monitor_for_edp2(false, true, false),
        AvailabilityCommand::Stop
    );
    assert!(should_restore_primary("eDP-2", &both(1, false).logical));
    assert!(!should_restore_primary("eDP-2", &both(1, true).logical));
    assert!(!should_restore_primary("eDP-2", &upper_only(1).logical));
}

#[test]
fn brightness_goes_to_active_internal_panels() {
    let entry = |name: Option<&str>, active: Option<bool>| BacklightEntry {
        connector: name.map(String::from),
        active,
    };
    let entries = vec![
        entry(Some("eDP-1"), Some(true)),
        entry(Some("eDP-2"), Some(false)),
        entry(Some("HDMI-A-1"), Some(true)),
        entry(None, Some(true)),
        entry(Some("eDP-2"), None),
    ];
    assert_eq!(wanted_backlights(&entries), vec!["eDP-1"]);
}
