//! When the session daemon brings the layout up to date: debouncing of signals, throttling of
//! rapid changes, and recovery after a failure.
use vstd::prelude::*;

use crate::session::apply::DisplayApplyError;
use crate::session::display::{read_current_config, LogicalMonitor};
use crate::text::same;

verus! {

pub const RECONCILE_DEBOUNCE_MS: u64 = 1200;

pub const ORIENTATION_STABILIZATION_MS: u64 = 1800;

/// Changes in a row, each followed by a new signal, after which signals are ignored for a while.
pub const MAX_FOLLOWUPS: u32 = 20;

/// How long signals are ignored then.
pub const QUIET_PERIOD_MS: u64 = 60_000;

pub const MAX_RECOVERY_ATTEMPTS: u32 = 20;

pub const RECOVERY_DELAY_SECS: u64 = 1;

// ── Notices ──────────────────────────────────────────────────────────────────

/// A desktop notification about the layout.
#[derive(Clone, Copy, Debug, PartialEq, Eq, Structural)]
pub enum DisplayNotice {
    Throttled,
    ApplyBlocked,
    RecoveryRetrying { attempt: u32 },
    RecoveryFailed,
}

/// What a notification shows. A timeout of zero keeps it until it is dismissed; urgency runs from
/// 0 (low) to 2 (critical); a transient one leaves no trace in the notification list.
pub struct NoticeContent {
    pub summary: String,
    pub body: String,
    pub icon: String,
    pub timeout_ms: i32,
    pub urgency: u8,
    pub transient: bool,
}

pub struct NoticeContentView {
    pub summary: Seq<char>,
    pub body: Seq<char>,
    pub icon: Seq<char>,
    pub timeout_ms: i32,
    pub urgency: u8,
    pub transient: bool,
}

impl View for NoticeContent {
    type V = NoticeContentView;

    open spec fn view(&self) -> NoticeContentView {
        NoticeContentView {
            summary: self.summary@,
            body: self.body@,
            icon: self.icon@,
            timeout_ms: self.timeout_ms,
            urgency: self.urgency,
            transient: self.transient,
        }
    }
}

impl DisplayNotice {
    pub open spec fn shows(self) -> NoticeContentView {
        match self {
            DisplayNotice::Throttled => NoticeContentView {
                summary: "Display changes throttled"@,
                body: "You are changing your mind too fast or hardware is sending too many display-change signals. Quieting down for 1 minute."@,
                icon: "dialog-warning"@,
                timeout_ms: 59_000,
                urgency: 1,
                transient: true,
            },
            DisplayNotice::ApplyBlocked => NoticeContentView {
                summary: "Display applies blocked"@,
                body: "The root display guard paused changes or could not be reached, so recovery stopped. If applies were paused due to repeated failures, run: sudo zenbook-duo-daemon resume-display-applies"@,
                icon: "dialog-warning"@,
                timeout_ms: 0,
                urgency: 2,
                transient: false,
            },
            DisplayNotice::RecoveryRetrying { attempt } => NoticeContentView {
                summary: "Display recovery retrying"@,
                body: "Display recovery attempt "@ + crate::text::decimal(attempt as nat) + "/"@
                    + crate::text::decimal(MAX_RECOVERY_ATTEMPTS as nat)
                    + " did not converge yet. Retrying automatically."@,
                icon: "dialog-warning"@,
                timeout_ms: 800,
                urgency: 1,
                transient: true,
            },
            DisplayNotice::RecoveryFailed => NoticeContentView {
                summary: "Display Recovery Failed"@,
                body: "Zenbook Duo daemon could not restore the desired display layout after repeated retries."@,
                icon: "dialog-error"@,
                timeout_ms: 0,
                urgency: 2,
                transient: false,
            },
        }
    }

    /// What the notification shows.
    pub fn content(&self) -> (r: NoticeContent)
        ensures
            r@ == self.shows(),
    {
        match self {
            DisplayNotice::Throttled => NoticeContent {
                summary: "Display changes throttled".to_owned(),
                body: "You are changing your mind too fast or hardware is sending too many display-change signals. Quieting down for 1 minute.".to_owned(),
                icon: "dialog-warning".to_owned(),
                timeout_ms: 59_000,
                urgency: 1,
                transient: true,
            },
            DisplayNotice::ApplyBlocked => NoticeContent {
                summary: "Display applies blocked".to_owned(),
                body: "The root display guard paused changes or could not be reached, so recovery stopped. If applies were paused due to repeated failures, run: sudo zenbook-duo-daemon resume-display-applies".to_owned(),
                icon: "dialog-warning".to_owned(),
                timeout_ms: 0,
                urgency: 2,
                transient: false,
            },
            DisplayNotice::RecoveryRetrying { attempt } => {
                let mut body = "Display recovery attempt ".to_owned();
                body.append(crate::text::decimal_text(*attempt as u64).as_str());
                body.append("/");
                body.append(crate::text::decimal_text(MAX_RECOVERY_ATTEMPTS as u64).as_str());
                body.append(" did not converge yet. Retrying automatically.");
                NoticeContent {
                    summary: "Display recovery retrying".to_owned(),
                    body,
                    icon: "dialog-warning".to_owned(),
                    timeout_ms: 800,
                    urgency: 1,
                    transient: true,
                }
            },
            DisplayNotice::RecoveryFailed => NoticeContent {
                summary: "Display Recovery Failed".to_owned(),
                body: "Zenbook Duo daemon could not restore the desired display layout after repeated retries.".to_owned(),
                icon: "dialog-error".to_owned(),
                timeout_ms: 0,
                urgency: 2,
                transient: false,
            },
        }
    }
}

// ── The loop ─────────────────────────────────────────────────────────────────

/// What the next reconcile follows.
#[derive(Clone, Copy, Debug, PartialEq, Eq, Structural)]
pub enum ReconcileReason {
    DisplayState,
    Orientation,
    OrientationLag,
    DesiredSecondary,
    KeyboardAttach,
    DesiredPrimary,
    Availability,
}

impl ReconcileReason {
    pub open spec fn text(self) -> Seq<char> {
        match self {
            ReconcileReason::DisplayState => "display state update"@,
            ReconcileReason::Orientation => "orientation update"@,
            ReconcileReason::OrientationLag => "orientation lag"@,
            ReconcileReason::DesiredSecondary => "desired secondary update"@,
            ReconcileReason::KeyboardAttach => "keyboard attach state update"@,
            ReconcileReason::DesiredPrimary => "desired primary update"@,
            ReconcileReason::Availability => "display availability update"@,
        }
    }

    pub fn as_str(&self) -> (r: &'static str)
        ensures
            r@ == self.text(),
    {
        match self {
            ReconcileReason::DisplayState => "display state update",
            ReconcileReason::Orientation => "orientation update",
            ReconcileReason::OrientationLag => "orientation lag",
            ReconcileReason::DesiredSecondary => "desired secondary update",
            ReconcileReason::KeyboardAttach => "keyboard attach state update",
            ReconcileReason::DesiredPrimary => "desired primary update",
            ReconcileReason::Availability => "display availability update",
        }
    }
}

/// How a reconcile ended.
#[derive(Clone, Copy, Debug, PartialEq, Eq, Structural)]
pub enum ReconcileOutcome {
    Changed,
    Unchanged,
    GuardBlocked,
    Failed,
}

/// Sums up the result of a reconcile.
pub fn reconcile_outcome(result: &Result<bool, DisplayApplyError>) -> (r: ReconcileOutcome)
    ensures
        r == (match *result {
            Ok(true) => ReconcileOutcome::Changed,
            Ok(false) => ReconcileOutcome::Unchanged,
            Err(e) => if e@.guard_block() {
                ReconcileOutcome::GuardBlocked
            } else {
                ReconcileOutcome::Failed
            },
        }),
{
    match result {
        Ok(changed) => if *changed {
            ReconcileOutcome::Changed
        } else {
            ReconcileOutcome::Unchanged
        },
        Err(e) => if e.is_guard_block() {
            ReconcileOutcome::GuardBlocked
        } else {
            ReconcileOutcome::Failed
        },
    }
}

pub enum DisplayEvent {
    /// The debounce deadline has passed.
    DebounceElapsed,
    /// The reconcile that was asked for has ended.
    Reconciled(ReconcileOutcome),
    Orientation,
    OrientationLagged,
    DesiredSecondary(bool),
    KeyboardAttached(bool),
    DesiredPrimary(String),
    /// eDP-2 has become available.
    Availability,
    /// Some other channel lost messages.
    Lagged,
    /// A channel is gone.
    Closed,
}

pub enum DisplayAction {
    StoreDesiredSecondary(bool),
    AcknowledgeSecondary,
    StoreKeyboardAttached(bool),
    AcknowledgeKeyboard,
    StoreDesiredPrimary(String),
    CancelRecovery(ReconcileReason),
    Reconcile(ReconcileReason),
    EnsureRecovery(ReconcileReason),
    Notify(DisplayNotice),
    Stop,
}

/// State of the loop. Times are milliseconds of a clock that never runs backwards.
#[derive(Clone, Copy, Debug, PartialEq, Eq, Structural)]
pub struct DisplayLoop {
    pub keyboard_attached: bool,
    pub keyboard_state_initialized: bool,
    /// Changes in a row that were each followed by a new signal.
    pub followups: u32,
    /// Until when signals are ignored.
    pub quiet_until: Option<u64>,
    /// When the scheduled reconcile is due.
    pub debounce_deadline: Option<u64>,
    pub pending_reason: ReconcileReason,
    /// The last reconcile changed the layout and no signal has come since.
    pub changed_apply_waiting_followup: bool,
}

impl DisplayLoop {
    pub open spec fn well_formed(self) -> bool {
        self.followups < MAX_FOLLOWUPS
    }

    /// The clock is far enough from its end for the longest delay.
    pub open spec fn in_time(now: u64) -> bool {
        now + QUIET_PERIOD_MS <= u64::MAX
    }

    /// The scheduled reconcile is due.
    pub open spec fn due(self, now: u64) -> bool {
        self.debounce_deadline matches Some(at) && at <= now
    }

    pub open spec fn quiet(self, now: u64) -> bool {
        self.quiet_until matches Some(until) && now < until
    }

    /// A reconcile is due `delay` after `now`, for a new reason.
    pub open spec fn scheduled(self, now: u64, reason: ReconcileReason, delay: u64) -> DisplayLoop {
        DisplayLoop {
            pending_reason: reason,
            debounce_deadline: Some((now + delay) as u64),
            ..self
        }
    }

    /// A quiet period that is over is forgotten, and the count with it.
    pub open spec fn awake(self) -> DisplayLoop {
        if self.quiet_until is Some {
            DisplayLoop {
                quiet_until: None,
                followups: 0,
                changed_apply_waiting_followup: false,
                ..self
            }
        } else {
            self
        }
    }

    /// A signal after a change counts as a follow-up.
    pub open spec fn counted(self) -> DisplayLoop {
        if self.changed_apply_waiting_followup {
            DisplayLoop {
                followups: (self.followups + 1) as u32,
                changed_apply_waiting_followup: false,
                ..self
            }
        } else {
            self
        }
    }

    /// With too many follow-ups nothing stays scheduled and a quiet period begins.
    pub open spec fn throttled(self, now: u64) -> (DisplayLoop, Seq<DisplayAction>) {
        if self.followups >= MAX_FOLLOWUPS {
            (
                DisplayLoop {
                    quiet_until: Some((now + QUIET_PERIOD_MS) as u64),
                    debounce_deadline: None,
                    followups: 0,
                    changed_apply_waiting_followup: false,
                    ..self
                },
                seq![DisplayAction::Notify(DisplayNotice::Throttled)],
            )
        } else {
            (self, Seq::empty())
        }
    }

    /// A signal that asks for a reconcile, unless it comes in a quiet period.
    pub open spec fn signalled(self, now: u64, reason: ReconcileReason, delay: u64) -> (
        DisplayLoop,
        Seq<DisplayAction>,
    ) {
        if self.quiet(now) {
            (self, Seq::empty())
        } else {
            self.awake().counted().scheduled(now, reason, delay).throttled(now)
        }
    }

    /// The keyboard's state asks for a reconcile: it has changed, or it is the first and attached.
    pub open spec fn keyboard_edge(self, attached: bool) -> bool {
        if self.keyboard_state_initialized {
            attached != self.keyboard_attached
        } else {
            attached
        }
    }

    pub open spec fn with_keyboard(self, attached: bool) -> DisplayLoop {
        DisplayLoop { keyboard_attached: attached, keyboard_state_initialized: true, ..self }
    }

    /// What an event does to the loop, and what is to be done, in order. A timer that fires while
    /// nothing is due has no effect.
    pub open spec fn next(self, event: DisplayEvent, now: u64) -> (
        DisplayLoop,
        Seq<DisplayAction>,
    ) {
        match event {
            DisplayEvent::DebounceElapsed => {
                let idle = DisplayLoop { debounce_deadline: None, ..self };
                if !self.due(now) {
                    (self, Seq::empty())
                } else if self.quiet(now) {
                    (idle, Seq::empty())
                } else {
                    let ready = if self.quiet_until is Some {
                        DisplayLoop { quiet_until: None, followups: 0, ..idle }
                    } else {
                        idle
                    };
                    (
                        ready,
                        seq![
                            DisplayAction::CancelRecovery(self.pending_reason),
                            DisplayAction::Reconcile(self.pending_reason),
                        ],
                    )
                }
            },
            DisplayEvent::Reconciled(ReconcileOutcome::Changed) => (
                DisplayLoop { changed_apply_waiting_followup: true, ..self },
                Seq::empty(),
            ),
            DisplayEvent::Reconciled(ReconcileOutcome::Failed) => (
                self,
                seq![DisplayAction::EnsureRecovery(self.pending_reason)],
            ),
            DisplayEvent::Reconciled(_) => (
                DisplayLoop { followups: 0, changed_apply_waiting_followup: false, ..self },
                Seq::empty(),
            ),
            DisplayEvent::Orientation => self.signalled(
                now,
                ReconcileReason::Orientation,
                ORIENTATION_STABILIZATION_MS,
            ),
            DisplayEvent::OrientationLagged => (
                self.scheduled(now, ReconcileReason::OrientationLag, ORIENTATION_STABILIZATION_MS),
                Seq::empty(),
            ),
            DisplayEvent::DesiredSecondary(enable) => {
                let (s, actions) = self.signalled(
                    now,
                    ReconcileReason::DesiredSecondary,
                    RECONCILE_DEBOUNCE_MS,
                );
                (
                    s,
                    seq![
                        DisplayAction::StoreDesiredSecondary(enable),
                        DisplayAction::AcknowledgeSecondary,
                    ] + actions,
                )
            },
            DisplayEvent::KeyboardAttached(attached) => {
                let (s, actions) = if self.keyboard_edge(attached) {
                    self.with_keyboard(attached).signalled(
                        now,
                        ReconcileReason::KeyboardAttach,
                        RECONCILE_DEBOUNCE_MS,
                    )
                } else {
                    (self.with_keyboard(attached), Seq::empty())
                };
                (
                    s,
                    seq![
                        DisplayAction::StoreKeyboardAttached(attached),
                        DisplayAction::AcknowledgeKeyboard,
                    ] + actions,
                )
            },
            DisplayEvent::DesiredPrimary(primary) => {
                let (s, actions) = self.signalled(
                    now,
                    ReconcileReason::DesiredPrimary,
                    RECONCILE_DEBOUNCE_MS,
                );
                (s, seq![DisplayAction::StoreDesiredPrimary(primary)] + actions)
            },
            DisplayEvent::Availability => self.signalled(
                now,
                ReconcileReason::Availability,
                RECONCILE_DEBOUNCE_MS,
            ),
            DisplayEvent::Lagged => (self, Seq::empty()),
            DisplayEvent::Closed => (self, seq![DisplayAction::Stop]),
        }
    }

    /// The state before any event.
    pub fn new() -> (r: Self)
        ensures
            r.well_formed(),
            r == (DisplayLoop {
                keyboard_attached: false,
                keyboard_state_initialized: false,
                followups: 0,
                quiet_until: None,
                debounce_deadline: None,
                pending_reason: ReconcileReason::DisplayState,
                changed_apply_waiting_followup: false,
            }),
    {
        DisplayLoop {
            keyboard_attached: false,
            keyboard_state_initialized: false,
            followups: 0,
            quiet_until: None,
            debounce_deadline: None,
            pending_reason: ReconcileReason::DisplayState,
            changed_apply_waiting_followup: false,
        }
    }

    fn is_due(&self, now: u64) -> (r: bool)
        ensures
            r == self.due(now),
    {
        match self.debounce_deadline {
            Some(at) => at <= now,
            None => false,
        }
    }

    fn is_quiet(&self, now: u64) -> (r: bool)
        ensures
            r == self.quiet(now),
    {
        match self.quiet_until {
            Some(until) => now < until,
            None => false,
        }
    }

    /// Schedules a reconcile, in place of one that was scheduled before.
    pub fn schedule_reconcile(&mut self, now: u64, reason: ReconcileReason, delay_ms: u64)
        requires
            now + delay_ms <= u64::MAX,
        ensures
            *final(self) == old(self).scheduled(now, reason, delay_ms),
    {
        self.pending_reason = reason;
        self.debounce_deadline = Some(now + delay_ms);
    }

    fn signal(
        &mut self,
        now: u64,
        reason: ReconcileReason,
        delay: u64,
        actions: &mut Vec<DisplayAction>,
    )
        requires
            old(self).well_formed(),
            DisplayLoop::in_time(now),
            delay <= QUIET_PERIOD_MS,
        ensures
            *final(self) == old(self).signalled(now, reason, delay).0,
            final(actions)@ == old(actions)@ + old(self).signalled(now, reason, delay).1,
            final(self).well_formed(),
    {
        if self.is_quiet(now) {
            return ;
        }
        if self.quiet_until.is_some() {
            self.quiet_until = None;
            self.followups = 0;
            self.changed_apply_waiting_followup = false;
        }
        if self.changed_apply_waiting_followup {
            self.followups = self.followups + 1;
            self.changed_apply_waiting_followup = false;
        }
        self.schedule_reconcile(now, reason, delay);
        if self.followups >= MAX_FOLLOWUPS {
            actions.push(DisplayAction::Notify(DisplayNotice::Throttled));
            self.quiet_until = Some(now + QUIET_PERIOD_MS);
            self.debounce_deadline = None;
            self.followups = 0;
            self.changed_apply_waiting_followup = false;
        }
    }

    /// Takes an event at the given time and says what to do.
    pub fn step(&mut self, event: DisplayEvent, now: u64) -> (actions: Vec<DisplayAction>)
        requires
            old(self).well_formed(),
            DisplayLoop::in_time(now),
        ensures
            *final(self) == old(self).next(event, now).0,
            actions@ == old(self).next(event, now).1,
            final(self).well_formed(),
    {
        let mut actions: Vec<DisplayAction> = Vec::new();
        match event {
            DisplayEvent::DebounceElapsed => {
                if !self.is_due(now) {
                    return actions;
                }
                self.debounce_deadline = None;
                if self.is_quiet(now) {
                    return actions;
                }
                if self.quiet_until.is_some() {
                    self.quiet_until = None;
                    self.followups = 0;
                }
                actions.push(DisplayAction::CancelRecovery(self.pending_reason));
                actions.push(DisplayAction::Reconcile(self.pending_reason));
            },
            DisplayEvent::Reconciled(outcome) => match outcome {
                ReconcileOutcome::Changed => {
                    self.changed_apply_waiting_followup = true;
                },
                ReconcileOutcome::Failed => {
                    actions.push(DisplayAction::EnsureRecovery(self.pending_reason));
                },
                _ => {
                    self.followups = 0;
                    self.changed_apply_waiting_followup = false;
                },
            },
            DisplayEvent::Orientation => {
                self.signal(
                    now,
                    ReconcileReason::Orientation,
                    ORIENTATION_STABILIZATION_MS,
                    &mut actions,
                );
            },
            DisplayEvent::OrientationLagged => {
                self.schedule_reconcile(
                    now,
                    ReconcileReason::OrientationLag,
                    ORIENTATION_STABILIZATION_MS,
                );
            },
            DisplayEvent::DesiredSecondary(enable) => {
                actions.push(DisplayAction::StoreDesiredSecondary(enable));
                actions.push(DisplayAction::AcknowledgeSecondary);
                self.signal(
                    now,
                    ReconcileReason::DesiredSecondary,
                    RECONCILE_DEBOUNCE_MS,
                    &mut actions,
                );
            },
            DisplayEvent::KeyboardAttached(attached) => {
                let previous = self.keyboard_attached;
                let initialized = self.keyboard_state_initialized;
                self.keyboard_attached = attached;
                self.keyboard_state_initialized = true;
                actions.push(DisplayAction::StoreKeyboardAttached(attached));
                actions.push(DisplayAction::AcknowledgeKeyboard);
                let edge = if initialized {
                    attached != previous
                } else {
                    attached
                };
                if edge {
                    self.signal(
                        now,
                        ReconcileReason::KeyboardAttach,
                        RECONCILE_DEBOUNCE_MS,
                        &mut actions,
                    );
                }
            },
            DisplayEvent::DesiredPrimary(primary) => {
                actions.push(DisplayAction::StoreDesiredPrimary(primary));
                self.signal(
                    now,
                    ReconcileReason::DesiredPrimary,
                    RECONCILE_DEBOUNCE_MS,
                    &mut actions,
                );
            },
            DisplayEvent::Availability => {
                self.signal(
                    now,
                    ReconcileReason::Availability,
                    RECONCILE_DEBOUNCE_MS,
                    &mut actions,
                );
            },
            DisplayEvent::Lagged => {},
            DisplayEvent::Closed => {
                actions.push(DisplayAction::Stop);
            },
        }
        actions
    }
}

/// A signal in a quiet period leads to no reconcile; nor does a deadline that passes in one.
pub proof fn law_quiet_period_holds(s: DisplayLoop, event: DisplayEvent, now: u64)
    requires
        s.quiet(now),
    ensures
        forall|i: int|
            0 <= i < s.next(event, now).1.len() ==> !(#[trigger] s.next(event, now).1[i]
                is Reconcile),
        s.next(event, now).0.quiet_until == s.quiet_until,
{
}

/// A reconcile is started only by a deadline that has passed, outside of quiet periods.
pub proof fn law_reconcile_is_debounced(s: DisplayLoop, event: DisplayEvent, now: u64, i: int)
    requires
        0 <= i < s.next(event, now).1.len(),
        s.next(event, now).1[i] is Reconcile,
    ensures
        event is DebounceElapsed,
        s.debounce_deadline matches Some(at) && at <= now,
        !s.quiet(now),
        s.next(event, now).0.debounce_deadline is None,
{
}

/// Outside of quiet periods a deadline that has passed starts exactly one reconcile, for the
/// reason that was given last, in place of a recovery.
pub proof fn law_due_reconcile_is_started(s: DisplayLoop, now: u64)
    requires
        s.due(now),
        !s.quiet(now),
    ensures
        s.next(DisplayEvent::DebounceElapsed, now).1 == seq![
            DisplayAction::CancelRecovery(s.pending_reason),
            DisplayAction::Reconcile(s.pending_reason),
        ],
        ({
            let started = s.next(DisplayEvent::DebounceElapsed, now).0;
            started.next(DisplayEvent::DebounceElapsed, now) == (
                started,
                Seq::<DisplayAction>::empty(),
            )
        }),
{
}

/// A later signal replaces the scheduled reconcile: its deadline is the only one.
pub proof fn law_signals_are_coalesced(
    s: DisplayLoop,
    first: ReconcileReason,
    second: ReconcileReason,
    earlier: u64,
    later: u64,
    delay: u64,
)
    requires
        later + delay <= u64::MAX,
    ensures
        s.scheduled(earlier, first, delay).scheduled(later, second, delay) == s.scheduled(
            later,
            second,
            delay,
        ),
{
}

/// The keyboard's state, told twice, asks for a reconcile at most once.
pub proof fn law_repeated_keyboard_state_is_ignored(s: DisplayLoop, attached: bool, now: u64)
    ensures
        ({
            let told = s.next(DisplayEvent::KeyboardAttached(attached), now).0;
            told.next(DisplayEvent::KeyboardAttached(attached), now).0 == told
        }),
{
}

/// The follow-up that makes the count full starts a quiet period of a minute and leaves nothing
/// scheduled.
pub proof fn law_throttle_starts_quiet_period(s: DisplayLoop, now: u64)
    requires
        s.well_formed(),
        DisplayLoop::in_time(now),
        s.quiet_until is None,
        s.changed_apply_waiting_followup,
        s.followups == MAX_FOLLOWUPS - 1,
    ensures
        ({
            let (t, actions) = s.next(DisplayEvent::Availability, now);
            &&& t.debounce_deadline is None
            &&& forall|later: u64| now <= later < now + 60_000 ==> #[trigger] t.quiet(later)
            &&& !t.quiet((now + 60_000) as u64)
            &&& actions == seq![DisplayAction::Notify(DisplayNotice::Throttled)]
        }),
{
}

// ── Waiting for eDP-2 ────────────────────────────────────────────────────────

/// What to do with the task that watches for eDP-2.
#[derive(Clone, Copy, Debug, PartialEq, Eq, Structural)]
pub enum AvailabilityCommand {
    Keep,
    Start,
    Stop,
}

/// eDP-2 is to become primary once it is there.
pub open spec fn waits_for_edp2(
    primary: Seq<char>,
    secondary_enabled: bool,
    keyboard_attached: bool,
) -> bool {
    primary == "eDP-2"@ && crate::session::apply::secondary_effective(
        secondary_enabled,
        keyboard_attached,
    )
}

/// Whether eDP-2 is to become primary once it is there.
pub fn should_wait_for_edp2(primary: &str, secondary_enabled: bool, keyboard_attached: bool) -> (r:
    bool)
    ensures
        r == waits_for_edp2(primary@, secondary_enabled, keyboard_attached),
{
    same(primary, "eDP-2") && crate::session::apply::effective_secondary_enabled(
        secondary_enabled,
        keyboard_attached,
    )
}

/// Keeps the watching task running exactly while eDP-2 is waited for. `started` says that a task
/// was started and not stopped since, `running` that it has not ended by itself.
pub fn update_availability_monitor_for_edp2(should_wait: bool, started: bool, running: bool) -> (r:
    AvailabilityCommand)
    requires
        running ==> started,
    ensures
        r == AvailabilityCommand::Start <==> should_wait && !running,
        r == AvailabilityCommand::Stop <==> !should_wait && started,
{
    if should_wait {
        if running {
            AvailabilityCommand::Keep
        } else {
            AvailabilityCommand::Start
        }
    } else if started {
        AvailabilityCommand::Stop
    } else {
        AvailabilityCommand::Keep
    }
}

/// The monitors have changed: eDP-2 is wanted as primary, is in use, and is not primary yet.
pub fn should_restore_primary(desired_primary: &str, logical: &Vec<LogicalMonitor>) -> (r: bool)
    ensures
        r == ({
            let config = crate::session::display::config_of(logical@);
            &&& desired_primary@ == "eDP-2"@
            &&& config.contains_key("eDP-2"@)
            &&& !config["eDP-2"@].primary
        }),
{
    if !same(desired_primary, "eDP-2") {
        return false;
    }
    let (config, _is_corrupted) = read_current_config(logical);
    match config.get("eDP-2") {
        Some(row) => !row.primary,
        None => false,
    }
}

// ── Recovery ─────────────────────────────────────────────────────────────────

/// The layout's inputs as they were before and after a recovery attempt.
pub struct RecoveryInputs {
    pub keyboard_attached: bool,
    pub secondary_enabled: bool,
    pub primary: String,
}

/// Judges an attempt that applied its layout: it has converged only if its inputs stayed the same.
pub fn recovery_converged(before: &RecoveryInputs, after: &RecoveryInputs) -> (r: Result<
    (),
    DisplayApplyError,
>)
    ensures
        r is Ok <==> before.keyboard_attached == after.keyboard_attached && before.secondary_enabled
            == after.secondary_enabled && before.primary@ == after.primary@,
        r matches Err(e) ==> e@ == crate::session::apply::DisplayApplyErrorView::Apply(
            "keyboard or desired display inputs changed during recovery; not treating as layout convergence"@,
        ),
{
    if before.keyboard_attached == after.keyboard_attached && before.secondary_enabled
        == after.secondary_enabled && same(before.primary.as_str(), after.primary.as_str()) {
        Ok(())
    } else {
        Err(
            DisplayApplyError::Apply(
                "keyboard or desired display inputs changed during recovery; not treating as layout convergence".to_owned(),
            ),
        )
    }
}

/// How a recovery attempt ended.
#[derive(Clone, Copy, Debug, PartialEq, Eq, Structural)]
pub enum RecoveryOutcome {
    Converged,
    GuardBlocked,
    Failed,
}

#[derive(Clone, Copy, Debug, PartialEq, Eq, Structural)]
pub enum RecoveryCommand {
    /// Wait, then make the next attempt.
    RetryAfter { secs: u64 },
    Stop,
}

/// A recovery in progress: the number of the attempt being made, from 1.
#[derive(Clone, Copy, Debug, PartialEq, Eq, Structural)]
pub struct RecoveryRun {
    pub attempt: u32,
}

impl RecoveryRun {
    pub open spec fn well_formed(self) -> bool {
        1 <= self.attempt <= MAX_RECOVERY_ATTEMPTS
    }

    /// A failed attempt is repeated until the last one; the guard ends the recovery at once.
    pub open spec fn next(self, outcome: RecoveryOutcome) -> (
        RecoveryRun,
        Option<DisplayNotice>,
        RecoveryCommand,
    ) {
        match outcome {
            RecoveryOutcome::Converged => (self, None, RecoveryCommand::Stop),
            RecoveryOutcome::GuardBlocked => (
                self,
                Some(DisplayNotice::ApplyBlocked),
                RecoveryCommand::Stop,
            ),
            RecoveryOutcome::Failed => if self.attempt < MAX_RECOVERY_ATTEMPTS {
                (
                    RecoveryRun { attempt: (self.attempt + 1) as u32 },
                    Some(DisplayNotice::RecoveryRetrying { attempt: self.attempt }),
                    RecoveryCommand::RetryAfter { secs: RECOVERY_DELAY_SECS },
                )
            } else {
                (self, Some(DisplayNotice::RecoveryFailed), RecoveryCommand::Stop)
            },
        }
    }

    /// The first attempt.
    pub fn new() -> (r: Self)
        ensures
            r.well_formed(),
            r.attempt == 1,
    {
        RecoveryRun { attempt: 1 }
    }

    /// Takes the outcome of an attempt; gives what to show and what to do.
    pub fn step(&mut self, outcome: RecoveryOutcome) -> (r: (Option<DisplayNotice>, RecoveryCommand))
        requires
            old(self).well_formed(),
        ensures
            (*final(self), r.0, r.1) == old(self).next(outcome),
            final(self).well_formed(),
    {
        match outcome {
            RecoveryOutcome::Converged => (None, RecoveryCommand::Stop),
            RecoveryOutcome::GuardBlocked => (
                Some(DisplayNotice::ApplyBlocked),
                RecoveryCommand::Stop,
            ),
            RecoveryOutcome::Failed => if self.attempt < MAX_RECOVERY_ATTEMPTS {
                let attempt: u32 = self.attempt;
                self.attempt = attempt + 1;
                (
                    Some(DisplayNotice::RecoveryRetrying { attempt }),
                    RecoveryCommand::RetryAfter { secs: RECOVERY_DELAY_SECS },
                )
            } else {
                (Some(DisplayNotice::RecoveryFailed), RecoveryCommand::Stop)
            },
        }
    }
}

/// A recovery makes at most as many attempts as allowed: each retry has a higher number, up to
/// the last, which is never retried.
pub proof fn law_recovery_is_bounded(run: RecoveryRun, outcome: RecoveryOutcome)
    requires
        run.well_formed(),
    ensures
        run.next(outcome).2 is RetryAfter ==> run.attempt < run.next(outcome).0.attempt
            <= MAX_RECOVERY_ATTEMPTS,
        run.attempt == MAX_RECOVERY_ATTEMPTS ==> run.next(outcome).2 is Stop,
{
}

/// What [`wanted_backlights`] picks of one entry.
pub open spec fn backlight_wanted(e: BacklightEntry) -> bool {
    e.active == Some(true) && e.connector is Some && crate::session::display_mode::internal(
        e.connector->0@,
    )
}

/// A backlight that the compositor reports.
pub struct BacklightEntry {
    pub connector: Option<String>,
    pub active: Option<bool>,
}

/// Indices of the backlights that a brightness is set on: the active ones of the internal panels,
/// in order.
pub open spec fn wanted_indices(entries: Seq<BacklightEntry>) -> Seq<int>
    decreases entries.len(),
{
    if entries.len() == 0 {
        Seq::empty()
    } else {
        let before = wanted_indices(entries.drop_last());
        if backlight_wanted(entries.last()) {
            before.push(entries.len() - 1)
        } else {
            before
        }
    }
}

/// The connectors on which a display brightness is set.
pub fn wanted_backlights(entries: &Vec<BacklightEntry>) -> (r: Vec<String>)
    ensures
        r@.len() == wanted_indices(entries@).len(),
        forall|k: int|
            0 <= k < r@.len() ==> Some(#[trigger] r@[k]) == entries@[wanted_indices(
                entries@,
            )[k]].connector,
{
    let mut out: Vec<String> = Vec::new();
    let mut i: usize = 0;
    proof {
        assert(entries@.take(0) =~= Seq::empty());
    }
    while i < entries.len()
        invariant
            i <= entries@.len(),
            out@.len() == wanted_indices(entries@.take(i as int)).len(),
            forall|k: int|
                0 <= k < out@.len() ==> Some(#[trigger] out@[k]) == entries@[wanted_indices(
                    entries@.take(i as int),
                )[k]].connector,
        decreases entries@.len() - i,
    {
        proof {
            assert(entries@.take(i as int + 1).drop_last() =~= entries@.take(i as int));
            assert(entries@.take(i as int + 1).last() == entries@[i as int]);
        }
        let entry = &entries[i];
        let active = match entry.active {
            Some(active) => active,
            None => false,
        };
        match &entry.connector {
            Some(connector) => {
                if active && crate::session::display_mode::is_internal_connector(
                    connector.as_str(),
                ) {
                    out.push(connector.clone());
                }
            },
            None => {},
        }
        i = i + 1;
    }
    proof {
        assert(entries@.take(entries@.len() as int) =~= entries@);
    }
    out
}

// ── What each event brings about ─────────────────────────────────────────────

/// A keyboard that is attached or detached, after its first state is known, has the layout brought
/// up to date 1.2 seconds later, whichever of the two it was.
pub proof fn law_keyboard_change_is_followed(s: DisplayLoop, attached: bool, now: u64)
    requires
        s.keyboard_state_initialized,
        attached != s.keyboard_attached,
        s.quiet_until is None,
        s.followups < 19 || !s.changed_apply_waiting_followup,
        s.followups < 20,
        now + 60_000 <= u64::MAX,
    ensures
        ({
            let (t, actions) = s.next(DisplayEvent::KeyboardAttached(attached), now);
            &&& t.debounce_deadline == Some((now + 1200) as u64)
            &&& t.pending_reason == ReconcileReason::KeyboardAttach
            &&& t.keyboard_attached == attached
            &&& t.keyboard_state_initialized
        }),
{
}

/// The first state of the keyboard is followed only if it is attached; a state that is no change
/// leaves what is scheduled as it was.
pub proof fn law_keyboard_state_without_change(s: DisplayLoop, attached: bool, now: u64)
    requires
        now + 60_000 <= u64::MAX,
    ensures
        ({
            let (t, actions) = s.next(DisplayEvent::KeyboardAttached(attached), now);
            &&& s.keyboard_state_initialized && attached == s.keyboard_attached
                ==> t.debounce_deadline == s.debounce_deadline && t.pending_reason
                == s.pending_reason && t.followups == s.followups && t.quiet_until == s.quiet_until
                && t.changed_apply_waiting_followup == s.changed_apply_waiting_followup
            &&& !s.keyboard_state_initialized && !attached ==> t.debounce_deadline
                == s.debounce_deadline && t.pending_reason == s.pending_reason
            &&& !s.keyboard_state_initialized && attached && s.quiet_until is None
                && !s.changed_apply_waiting_followup && s.followups < 20 ==> t.debounce_deadline
                == Some((now + 1200) as u64) && t.pending_reason == ReconcileReason::KeyboardAttach
            &&& t.keyboard_attached == attached && t.keyboard_state_initialized
            &&& actions.len() >= 2
            &&& actions[0] == DisplayAction::StoreKeyboardAttached(attached)
            &&& actions[1] == DisplayAction::AcknowledgeKeyboard
        }),
{
}

/// Every other signal is followed too, each for its own reason: a turn of the machine after 1.8
/// seconds, the others after 1.2.
pub proof fn law_signals_are_followed(s: DisplayLoop, enable: bool, primary: String, now: u64)
    requires
        s.quiet_until is None,
        s.followups < 19 || !s.changed_apply_waiting_followup,
        s.followups < 20,
        now + 60_000 <= u64::MAX,
    ensures
        ({
            let t = s.next(DisplayEvent::Orientation, now).0;
            t.debounce_deadline == Some((now + 1800) as u64) && t.pending_reason
                == ReconcileReason::Orientation
        }),
        ({
            let t = s.next(DisplayEvent::DesiredSecondary(enable), now).0;
            t.debounce_deadline == Some((now + 1200) as u64) && t.pending_reason
                == ReconcileReason::DesiredSecondary
        }),
        ({
            let t = s.next(DisplayEvent::DesiredPrimary(primary), now).0;
            t.debounce_deadline == Some((now + 1200) as u64) && t.pending_reason
                == ReconcileReason::DesiredPrimary
        }),
        ({
            let t = s.next(DisplayEvent::Availability, now).0;
            t.debounce_deadline == Some((now + 1200) as u64) && t.pending_reason
                == ReconcileReason::Availability
        }),
{
}

/// A signal first stores what it says, and is acknowledged where an answer is waited for, even in a
/// quiet period.
pub proof fn law_signals_are_stored(s: DisplayLoop, enable: bool, primary: String, now: u64)
    ensures
        ({
            let actions = s.next(DisplayEvent::DesiredSecondary(enable), now).1;
            actions.len() >= 2 && actions[0] == DisplayAction::StoreDesiredSecondary(enable)
                && actions[1] == DisplayAction::AcknowledgeSecondary
        }),
        ({
            let actions = s.next(DisplayEvent::DesiredPrimary(primary), now).1;
            actions.len() >= 1 && actions[0] == DisplayAction::StoreDesiredPrimary(primary)
        }),
{
}

/// Lost orientation signals are made up for after 1.8 seconds; other lost signals have no effect;
/// a channel that is gone ends the loop.
pub proof fn law_lost_signals(s: DisplayLoop, now: u64)
    requires
        now + 60_000 <= u64::MAX,
    ensures
        ({
            let (t, actions) = s.next(DisplayEvent::OrientationLagged, now);
            &&& t.debounce_deadline == Some((now + 1800) as u64)
            &&& t.pending_reason == ReconcileReason::OrientationLag
            &&& t.followups == s.followups && t.quiet_until == s.quiet_until
            &&& t.keyboard_attached == s.keyboard_attached
            &&& actions.len() == 0
        }),
        s.next(DisplayEvent::Lagged, now) == (s, Seq::<DisplayAction>::empty()),
        s.next(DisplayEvent::Closed, now).0 == s,
        s.next(DisplayEvent::Closed, now).1.len() == 1,
        s.next(DisplayEvent::Closed, now).1[0] == DisplayAction::Stop,
{
}

/// A change of the layout is followed by the wait for a follow-up; without a change, or where the
/// guard stood in the way, the count begins anew; a failure starts a recovery and nothing else does.
pub proof fn law_outcomes(s: DisplayLoop, now: u64)
    ensures
        ({
            let (t, actions) = s.next(DisplayEvent::Reconciled(ReconcileOutcome::Changed), now);
            t.changed_apply_waiting_followup && t.followups == s.followups && t.debounce_deadline
                == s.debounce_deadline && t.quiet_until == s.quiet_until && actions.len() == 0
        }),
        ({
            let (t, actions) = s.next(DisplayEvent::Reconciled(ReconcileOutcome::Unchanged), now);
            !t.changed_apply_waiting_followup && t.followups == 0 && t.debounce_deadline
                == s.debounce_deadline && t.quiet_until == s.quiet_until && actions.len() == 0
        }),
        ({
            let (t, actions) = s.next(
                DisplayEvent::Reconciled(ReconcileOutcome::GuardBlocked),
                now,
            );
            !t.changed_apply_waiting_followup && t.followups == 0 && actions.len() == 0
        }),
        ({
            let (t, actions) = s.next(DisplayEvent::Reconciled(ReconcileOutcome::Failed), now);
            t == s && actions.len() == 1 && actions[0] == DisplayAction::EnsureRecovery(
                s.pending_reason,
            )
        }),
{
}

/// Signals are counted only where each comes after a change, and the twentieth such signal starts a
/// minute of quiet, with a notice.
pub proof fn law_followups_are_counted(s: DisplayLoop, now: u64)
    requires
        s.quiet_until is None,
        s.followups < 20,
        now + 60_000 <= u64::MAX,
    ensures
        ({
            let (t, actions) = s.next(DisplayEvent::Availability, now);
            &&& !s.changed_apply_waiting_followup ==> t.followups == s.followups && t.quiet_until
                is None && actions.len() == 0
            &&& s.changed_apply_waiting_followup && s.followups < 19 ==> t.followups == s.followups
                + 1 && t.quiet_until is None && actions.len() == 0
            &&& s.changed_apply_waiting_followup && s.followups == 19 ==> t.quiet_until == Some(
                (now + 60_000) as u64,
            ) && t.debounce_deadline is None && t.followups == 0 && actions.len() == 1 && actions[0]
                == DisplayAction::Notify(DisplayNotice::Throttled)
            &&& !t.changed_apply_waiting_followup
        }),
{
}

/// In a quiet period a signal schedules nothing; after it the count begins anew and signals are
/// followed again.
pub proof fn law_quiet_period_ends(s: DisplayLoop, until: u64, now: u64)
    requires
        s.quiet_until == Some(until),
        now + 60_000 <= u64::MAX,
    ensures
        now < until ==> s.next(DisplayEvent::Availability, now) == (
            s,
            Seq::<DisplayAction>::empty(),
        ),
        now < until ==> s.next(DisplayEvent::Orientation, now) == (
            s,
            Seq::<DisplayAction>::empty(),
        ),
        until <= now ==> ({
            let t = s.next(DisplayEvent::Availability, now).0;
            t.quiet_until is None && t.followups == 0 && t.debounce_deadline == Some(
                (now + 1200) as u64,
            )
        }),
{
}

/// A deadline that has not come leaves all as it was; one that passes in a quiet period is dropped;
/// one that passes after it ends the period.
pub proof fn law_deadlines(s: DisplayLoop, at: u64, now: u64)
    requires
        s.debounce_deadline == Some(at),
    ensures
        ({
            let (t, actions) = s.next(DisplayEvent::DebounceElapsed, now);
            &&& now < at ==> t == s && actions.len() == 0
            &&& at <= now ==> t.debounce_deadline is None
            &&& at <= now && (s.quiet_until matches Some(until) ==> until <= now) ==> actions.len()
                == 2 && actions[1] == DisplayAction::Reconcile(s.pending_reason) && t.quiet_until
                is None && (s.quiet_until is Some ==> t.followups == 0) && (s.quiet_until is None
                ==> t.followups == s.followups)
            &&& t.changed_apply_waiting_followup == s.changed_apply_waiting_followup
            &&& t.keyboard_attached == s.keyboard_attached
        }),
{
}

/// The words for each reason.
pub proof fn law_reasons_in_words()
    ensures
        ReconcileReason::DisplayState.text() == "display state update"@,
        ReconcileReason::Orientation.text() == "orientation update"@,
        ReconcileReason::OrientationLag.text() == "orientation lag"@,
        ReconcileReason::DesiredSecondary.text() == "desired secondary update"@,
        ReconcileReason::KeyboardAttach.text() == "keyboard attach state update"@,
        ReconcileReason::DesiredPrimary.text() == "desired primary update"@,
        ReconcileReason::Availability.text() == "display availability update"@,
{
}

/// A notice that needs the user stays and is critical; one about a passing state goes by itself.
pub proof fn law_notices_stay_where_the_user_must_act(attempt: u32)
    ensures
        DisplayNotice::Throttled.shows().timeout_ms == 59_000,
        DisplayNotice::Throttled.shows().urgency == 1,
        DisplayNotice::Throttled.shows().transient,
        DisplayNotice::Throttled.shows().summary == "Display changes throttled"@,
        DisplayNotice::Throttled.shows().icon == "dialog-warning"@,
        DisplayNotice::ApplyBlocked.shows().timeout_ms == 0,
        DisplayNotice::ApplyBlocked.shows().urgency == 2,
        !DisplayNotice::ApplyBlocked.shows().transient,
        DisplayNotice::ApplyBlocked.shows().summary == "Display applies blocked"@,
        DisplayNotice::ApplyBlocked.shows().icon == "dialog-warning"@,
        ({
            let shown = DisplayNotice::RecoveryRetrying { attempt }.shows();
            &&& shown.timeout_ms == 800
            &&& shown.urgency == 1
            &&& shown.transient
            &&& shown.summary == "Display recovery retrying"@
            &&& shown.icon == "dialog-warning"@
            &&& shown.body == "Display recovery attempt "@ + crate::text::decimal(attempt as nat)
                + "/"@ + crate::text::decimal(20) + " did not converge yet. Retrying automatically."@
        }),
        DisplayNotice::RecoveryFailed.shows().timeout_ms == 0,
        DisplayNotice::RecoveryFailed.shows().urgency == 2,
        !DisplayNotice::RecoveryFailed.shows().transient,
        DisplayNotice::RecoveryFailed.shows().summary == "Display Recovery Failed"@,
        DisplayNotice::RecoveryFailed.shows().icon == "dialog-error"@,
{
}

/// eDP-2 is waited for exactly where it is to be primary, is wanted and is not covered.
pub proof fn law_waiting_for_edp2(
    primary: Seq<char>,
    secondary_enabled: bool,
    keyboard_attached: bool,
)
    ensures
        waits_for_edp2(primary, secondary_enabled, keyboard_attached) <==> primary == "eDP-2"@
            && secondary_enabled && !keyboard_attached,
{
}

/// A failed attempt is repeated after a second, up to the twentieth, with a notice that counts it;
/// success and a blocked guard end the recovery, the latter with a notice.
pub proof fn law_recovery_goes_on_until_it_converges(run: RecoveryRun)
    requires
        1 <= run.attempt <= 20,
    ensures
        run.next(RecoveryOutcome::Converged) == (run, None::<DisplayNotice>, RecoveryCommand::Stop),
        run.next(RecoveryOutcome::GuardBlocked) == (
            run,
            Some(DisplayNotice::ApplyBlocked),
            RecoveryCommand::Stop,
        ),
        run.attempt < 20 ==> ({
            let (t, notice, command) = run.next(RecoveryOutcome::Failed);
            t.attempt == run.attempt + 1 && notice == Some(
                DisplayNotice::RecoveryRetrying { attempt: run.attempt },
            ) && command == (RecoveryCommand::RetryAfter { secs: 1 })
        }),
        run.attempt == 20 ==> run.next(RecoveryOutcome::Failed) == (
            run,
            Some(DisplayNotice::RecoveryFailed),
            RecoveryCommand::Stop,
        ),
{
}

/// A brightness is set on exactly the active backlights of eDP-1 and eDP-2, in their order.
pub proof fn law_brightness_goes_to_the_active_internal_panels(
    entries: Seq<BacklightEntry>,
    e: BacklightEntry,
    connector: String,
)
    ensures
        ({
            let active = e.active == Some(true) && e.connector is Some && (e.connector->0@
                == "eDP-1"@ || e.connector->0@ == "eDP-2"@);
            &&& active ==> wanted_indices(entries.push(e)) == wanted_indices(entries).push(
                entries.len() as int,
            )
            &&& !active ==> wanted_indices(entries.push(e)) == wanted_indices(entries)
        }),
        wanted_indices(Seq::empty()).len() == 0,
{
    assert(entries.push(e).drop_last() =~= entries);
}

/// A notice is seen field by field.
pub proof fn law_notices_are_seen_as_they_are(n: NoticeContent)
    ensures
        n@.summary == n.summary@,
        n@.body == n.body@,
        n@.icon == n.icon@,
        n@.timeout_ms == n.timeout_ms,
        n@.urgency == n.urgency,
        n@.transient == n.transient,
        DisplayNotice::Throttled.shows().body
            == "You are changing your mind too fast or hardware is sending too many display-change signals. Quieting down for 1 minute."@,
        DisplayNotice::ApplyBlocked.shows().body
            == "The root display guard paused changes or could not be reached, so recovery stopped. If applies were paused due to repeated failures, run: sudo zenbook-duo-daemon resume-display-applies"@,
        DisplayNotice::RecoveryFailed.shows().body
            == "Zenbook Duo daemon could not restore the desired display layout after repeated retries."@,
{
}

/// The loop counts fewer than twenty follow-ups, and a recovery attempts from one to twenty; the
/// clock must be a minute from its end.
pub proof fn law_loop_counts_to_twenty(s: DisplayLoop, run: RecoveryRun, now: u64)
    ensures
        s.well_formed() <==> s.followups < 20,
        run.well_formed() <==> 1 <= run.attempt <= 20,
        DisplayLoop::in_time(now) <==> now + 60_000 <= u64::MAX,
        s.due(now) <==> s.debounce_deadline is Some && s.debounce_deadline->0 <= now,
        s.quiet(now) <==> s.quiet_until is Some && now < s.quiet_until->0,
{
}

} // verus!
