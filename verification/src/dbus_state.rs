//! State that the root daemon publishes on the bus, and the rules of the calls on it.
use vstd::prelude::*;

use crate::config::tablet_mode_from_str;
use crate::secondary_coordinator::{
    coordinate_secondary_display_to_state, coordinate_secondary_display_toggle, CoordinatorAction,
};
use crate::state::{
    validate_desired_display_mode_strings, validate_desired_primary, DisplayStateChange,
    KeyboardBacklightState,
};
use crate::state_manager::{
    InnerState, KeyboardStateManager, LightState, Publication, StateEffect, TabletState,
};
use crate::text::{decimal_text, join2, same};

verus! {

pub const ROOT_DBUS_SERVICE: &'static str = "asus.zenbook.duo";

pub const ROOT_DBUS_PATH: &'static str = "/asus/zenbook/duo/State";

// ── Errors of calls ──────────────────────────────────────────────────────────

/// Why a call on the bus is refused.
pub enum CallError {
    Failed(String),
    AccessDenied(String),
    AuthFailed(String),
}

pub enum CallErrorView {
    Failed(Seq<char>),
    AccessDenied(Seq<char>),
    AuthFailed(Seq<char>),
}

impl View for CallError {
    type V = CallErrorView;

    open spec fn view(&self) -> CallErrorView {
        match self {
            CallError::Failed(s) => CallErrorView::Failed(s@),
            CallError::AccessDenied(s) => CallErrorView::AccessDenied(s@),
            CallError::AuthFailed(s) => CallErrorView::AuthFailed(s@),
        }
    }
}

// ── The guard of layout changes ──────────────────────────────────────────────

/// Layout changes allowed in a rolling window: more than a whole recovery needs at its pace, few
/// enough to stop bursts.
pub const DISPLAY_APPLY_GUARD_MAX_ATTEMPTS: u32 = 15;

/// After how many seconds an attempt no longer counts.
pub const DISPLAY_APPLY_GUARD_DECAY_SECS: u64 = 5;

/// Answer of the root daemon to a session that asks to change the layout.
#[derive(Clone, Copy, Debug, PartialEq, Eq, Structural)]
pub enum DisplayApplyPermit {
    Allowed,
    Paused,
}

/// Counts the layout changes of late, and stops them when there are too many.
#[derive(Clone, Copy, Debug, PartialEq, Eq, Structural)]
pub struct DisplayApplyGuard {
    pub attempts: u32,
    pub paused: bool,
}

impl DisplayApplyGuard {
    /// An attempt: refused while paused; the one that exceeds the budget pauses the guard.
    pub open spec fn attempted(self) -> (DisplayApplyGuard, bool) {
        if self.paused {
            (self, false)
        } else {
            let attempts = if self.attempts == u32::MAX {
                u32::MAX
            } else {
                (self.attempts + 1) as u32
            };
            let over = attempts > DISPLAY_APPLY_GUARD_MAX_ATTEMPTS;
            (DisplayApplyGuard { attempts, paused: over }, !over)
        }
    }

    pub open spec fn decayed(self) -> DisplayApplyGuard {
        DisplayApplyGuard {
            attempts: if self.attempts == 0 {
                0
            } else {
                (self.attempts - 1) as u32
            },
            ..self
        }
    }

    /// A guard that has seen nothing, or was resumed.
    pub open spec fn fresh() -> DisplayApplyGuard {
        DisplayApplyGuard { attempts: 0, paused: false }
    }

    /// A guard that has seen nothing.
    pub fn new() -> (r: Self)
        ensures
            r == DisplayApplyGuard::fresh(),
    {
        DisplayApplyGuard { attempts: 0, paused: false }
    }

    /// An attempt to change the layout. One that is allowed is to be forgotten after a while.
    pub fn register_attempt(&mut self) -> (allowed: bool)
        ensures
            (*final(self), allowed) == old(self).attempted(),
    {
        if self.paused {
            return false;
        }
        self.attempts = self.attempts.saturating_add(1);
        if self.attempts > DISPLAY_APPLY_GUARD_MAX_ATTEMPTS {
            self.paused = true;
            return false;
        }
        true
    }

    /// An attempt is forgotten.
    pub fn decay(&mut self)
        ensures
            *final(self) == old(self).decayed(),
    {
        self.attempts = self.attempts.saturating_sub(1);
    }

    /// An operator lets changes go on.
    pub fn resume(&mut self)
        ensures
            *final(self) == DisplayApplyGuard::fresh(),
    {
        self.attempts = 0;
        self.paused = false;
    }
}

/// Something that concerns the guard.
pub enum GuardEvent {
    /// Someone on the bus asks for an attempt.
    Attempt { sender: Option<Seq<char>> },
    /// An attempt is forgotten.
    Decay,
    /// An operator lets changes go on.
    Resume,
}

/// What asking for an attempt does to the guard, and the answer: none for anyone but the
/// registered session.
pub open spec fn attempt_answer(
    registry: Option<RegisteredSessionView>,
    guard: DisplayApplyGuard,
    sender: Option<Seq<char>>,
) -> (DisplayApplyGuard, Option<bool>) {
    if sender_registered(registry, sender) {
        (guard.attempted().0, Some(guard.attempted().1))
    } else {
        (guard, None)
    }
}

/// The guard after a sequence of events.
pub open spec fn guard_after(
    registry: Option<RegisteredSessionView>,
    guard: DisplayApplyGuard,
    events: Seq<GuardEvent>,
) -> DisplayApplyGuard
    decreases events.len(),
{
    if events.len() == 0 {
        guard
    } else {
        let before = guard_after(registry, guard, events.drop_last());
        match events.last() {
            GuardEvent::Attempt { sender } => attempt_answer(registry, before, sender).0,
            GuardEvent::Decay => before.decayed(),
            GuardEvent::Resume => DisplayApplyGuard::fresh(),
        }
    }
}

/// `n` attempts of one sender in a row, before any is forgotten.
pub open spec fn burst(sender: Option<Seq<char>>, n: nat) -> Seq<GuardEvent> {
    Seq::new(n, |i: int| GuardEvent::Attempt { sender })
}

/// The guard after `n` attempts in a row.
pub open spec fn after_attempts(g: DisplayApplyGuard, n: nat) -> DisplayApplyGuard
    decreases n,
{
    if n == 0 {
        g
    } else {
        after_attempts(g, (n - 1) as nat).attempted().0
    }
}

proof fn lemma_guard_counts(n: nat)
    ensures
        ({
            let g = after_attempts(DisplayApplyGuard::fresh(), n);
            if n <= 15 {
                g == (DisplayApplyGuard { attempts: n as u32, paused: false })
            } else {
                g == (DisplayApplyGuard { attempts: 16, paused: true })
            }
        }),
    decreases n,
{
    if n > 0 {
        lemma_guard_counts((n - 1) as nat);
    }
}

proof fn lemma_burst(
    registry: Option<RegisteredSessionView>,
    guard: DisplayApplyGuard,
    sender: Option<Seq<char>>,
    n: nat,
)
    requires
        sender_registered(registry, sender),
    ensures
        guard_after(registry, guard, burst(sender, n)) == after_attempts(guard, n),
    decreases n,
{
    if n > 0 {
        lemma_burst(registry, guard, sender, (n - 1) as nat);
        assert(burst(sender, n).drop_last() =~= burst(sender, (n - 1) as nat));
    }
}

/// The registered session may attempt fifteen changes before any is forgotten, whether the guard
/// has seen nothing or was resumed; the sixteenth attempt is refused and pauses the guard.
pub proof fn law_session_has_fifteen_attempts(
    registry: Option<RegisteredSessionView>,
    session: Option<Seq<char>>,
    guard: DisplayApplyGuard,
    earlier: Seq<GuardEvent>,
    n: nat,
)
    requires
        sender_registered(registry, session),
    ensures
        ({
            let resumed = guard_after(registry, guard, earlier.push(GuardEvent::Resume));
            let spent = guard_after(registry, resumed, burst(session, n));
            &&& resumed == DisplayApplyGuard::fresh()
            &&& attempt_answer(registry, spent, session).1 == Some(n < 15)
            &&& spent.paused == (n > 15)
        }),
{
    assert(earlier.push(GuardEvent::Resume).last() is Resume);
    lemma_burst(registry, DisplayApplyGuard::fresh(), session, n);
    lemma_guard_counts(n);
}

/// A paused guard refuses every attempt, whatever has been asked or forgotten since, until it is
/// resumed.
pub proof fn law_paused_guard_refuses_until_resumed(
    registry: Option<RegisteredSessionView>,
    session: Option<Seq<char>>,
    guard: DisplayApplyGuard,
    since: Seq<GuardEvent>,
)
    requires
        sender_registered(registry, session),
        guard.paused,
        forall|i: int| 0 <= i < since.len() ==> !(#[trigger] since[i] is Resume),
    ensures
        guard_after(registry, guard, since).paused,
        attempt_answer(registry, guard_after(registry, guard, since), session) == (
            guard_after(registry, guard, since),
            Some(false),
        ),
    decreases since.len(),
{
    if since.len() > 0 {
        let before = since.drop_last();
        assert forall|i: int| 0 <= i < before.len() implies !(#[trigger] before[i] is Resume) by {
            assert(before[i] == since[i]);
        }
        assert(!(since[since.len() - 1] is Resume));
        law_paused_guard_refuses_until_resumed(registry, session, guard, before);
    }
}

/// Anyone but the registered session gets no answer and leaves the guard as it is.
pub proof fn law_strangers_leave_guard_alone(
    registry: Option<RegisteredSessionView>,
    stranger: Option<Seq<char>>,
    guard: DisplayApplyGuard,
    n: nat,
)
    requires
        !sender_registered(registry, stranger),
    ensures
        attempt_answer(registry, guard, stranger) == (guard, None::<bool>),
        guard_after(registry, guard, burst(stranger, n)) == guard,
    decreases n,
{
    if n > 0 {
        law_strangers_leave_guard_alone(registry, stranger, guard, (n - 1) as nat);
        assert(burst(stranger, n).drop_last() =~= burst(stranger, (n - 1) as nat));
    }
}

// ── The registered session ───────────────────────────────────────────────────

/// A session daemon that has registered. Times are microseconds since the epoch.
pub struct RegisteredSession {
    pub session_id: u64,
    /// Its unique name on the bus.
    pub owner: String,
    /// When it last called.
    pub last_seen_usec: u64,
}

pub struct RegisteredSessionView {
    pub session_id: u64,
    pub owner: Seq<char>,
    pub last_seen_usec: u64,
}

impl View for RegisteredSession {
    type V = RegisteredSessionView;

    open spec fn view(&self) -> RegisteredSessionView {
        RegisteredSessionView {
            session_id: self.session_id,
            owner: self.owner@,
            last_seen_usec: self.last_seen_usec,
        }
    }
}

/// The session daemon that has registered, if any.
pub struct SessionRegistry {
    registration: Option<RegisteredSession>,
}

impl View for SessionRegistry {
    type V = Option<RegisteredSessionView>;

    closed spec fn view(&self) -> Option<RegisteredSessionView> {
        match self.registration {
            Some(s) => Some(s@),
            None => None,
        }
    }
}

/// Whether a session daemon is registered.
pub fn is_session_registered(registry: &SessionRegistry) -> (r: bool)
    ensures
        r == (registry@ is Some),
{
    registry.registration.is_some()
}

/// The sender is the registered session.
pub open spec fn sender_registered(
    registry: Option<RegisteredSessionView>,
    sender: Option<Seq<char>>,
) -> bool {
    registry matches Some(s) && sender == Some(s.owner)
}

/// Why a sender is refused.
pub open spec fn sender_error(
    registry: Option<RegisteredSessionView>,
    sender: Option<Seq<char>>,
) -> CallErrorView {
    match (sender, registry) {
        (None, _) => CallErrorView::AccessDenied("missing D-Bus sender"@),
        (Some(name), Some(s)) => CallErrorView::AccessDenied(
            "sender "@ + name + " does not match registered session "@ + s.owner,
        ),
        (Some(_), None) => CallErrorView::AccessDenied(
            "no session daemon is currently registered"@,
        ),
    }
}

/// Who is registered after a session daemon has registered.
pub open spec fn after_registering(
    session_id: u64,
    owner: Seq<char>,
    now_usec: u64,
) -> Option<RegisteredSessionView> {
    Some(RegisteredSessionView { session_id, owner, last_seen_usec: now_usec })
}

/// Who is registered after a name has left the bus.
pub open spec fn after_leaving(
    registry: Option<RegisteredSessionView>,
    name: Seq<char>,
) -> Option<RegisteredSessionView> {
    if sender_registered(registry, Some(name)) {
        None
    } else {
        registry
    }
}

pub open spec fn opt_text(s: Option<&str>) -> Option<Seq<char>> {
    match s {
        Some(t) => Some(t@),
        None => None,
    }
}

impl SessionRegistry {
    /// Nobody is registered.
    pub fn new() -> (r: Self)
        ensures
            r@ is None,
    {
        SessionRegistry { registration: None }
    }

    /// Accepts the registered session only.
    pub fn ensure_registered_sender(&self, sender: Option<&str>) -> (r: Result<(), CallError>)
        ensures
            match r {
                Ok(_) => sender_registered(self@, opt_text(sender)),
                Err(e) => !sender_registered(self@, opt_text(sender)) && e@ == sender_error(
                    self@,
                    opt_text(sender),
                ),
            },
    {
        let name = match sender {
            Some(name) => name,
            None => return Err(CallError::AccessDenied("missing D-Bus sender".to_owned())),
        };
        match &self.registration {
            Some(session) => if same(session.owner.as_str(), name) {
                Ok(())
            } else {
                let mut text = join2("sender ", name);
                text.append(" does not match registered session ");
                text.append(session.owner.as_str());
                Err(CallError::AccessDenied(text))
            },
            None => Err(
                CallError::AccessDenied("no session daemon is currently registered".to_owned()),
            ),
        }
    }

    /// The registered session has called.
    pub fn mark_session_activity(&mut self, now_usec: u64)
        ensures
            final(self)@ == seen(old(self)@, now_usec),
    {
        match &mut self.registration {
            Some(session) => {
                session.last_seen_usec = now_usec;
            },
            None => {},
        }
    }

    /// A session daemon registers, in place of the one before.
    pub fn register(&mut self, session_id: u64, owner: String, now_usec: u64)
        ensures
            final(self)@ == after_registering(session_id, owner@, now_usec),
    {
        self.registration = Some(
            RegisteredSession { session_id, owner, last_seen_usec: now_usec },
        );
    }

    /// A name has left the bus: if it was that of the registered session, nobody is registered.
    pub fn clear_registration_for_owner(&mut self, owner: &str) -> (cleared: bool)
        ensures
            cleared == sender_registered(old(self)@, Some(owner@)),
            final(self)@ == after_leaving(old(self)@, owner@),
    {
        let cleared = match &self.registration {
            Some(session) => same(session.owner.as_str(), owner),
            None => false,
        };
        if cleared {
            self.registration = None;
        }
        cleared
    }

    /// The registered session's name on the bus, empty if there is none.
    pub fn session_owner(&self) -> (r: String)
        ensures
            r@ == (match self@ {
                Some(s) => s.owner,
                None => Seq::empty(),
            }),
    {
        match &self.registration {
            Some(session) => session.owner.clone(),
            None => String::new(),
        }
    }

    /// The registered session's id, 0 if there is none.
    pub fn session_id(&self) -> (r: u64)
        ensures
            r == (match self@ {
                Some(s) => s.session_id,
                None => 0,
            }),
    {
        match &self.registration {
            Some(session) => session.session_id,
            None => 0,
        }
    }

    /// When the registered session last called, 0 if there is none.
    pub fn session_last_seen_usec(&self) -> (r: u64)
        ensures
            r == (match self@ {
                Some(s) => s.last_seen_usec,
                None => 0,
            }),
    {
        match &self.registration {
            Some(session) => session.last_seen_usec,
            None => 0,
        }
    }
}

/// What is done before a session is registered: if the lower panel is to be on, it is switched on
/// and waited for.
pub fn registration_preparation(secondary_enabled: bool) -> (r: Vec<CoordinatorAction>)
    ensures
        r@ == (if secondary_enabled {
            seq![
                CoordinatorAction::ArmFallback,
                CoordinatorAction::EmitState,
                CoordinatorAction::AwaitSwitchOn { secs: 8 },
            ]
        } else {
            Seq::empty()
        }),
{
    let mut actions: Vec<CoordinatorAction> = Vec::new();
    if secondary_enabled {
        actions.push(CoordinatorAction::ArmFallback);
        actions.push(CoordinatorAction::EmitState);
        actions.push(CoordinatorAction::AwaitSwitchOn { secs: 8 });
    }
    proof {
        if secondary_enabled {
            assert(actions@ =~= seq![
                CoordinatorAction::ArmFallback,
                CoordinatorAction::EmitState,
                CoordinatorAction::AwaitSwitchOn { secs: 8 },
            ]);
        }
    }
    actions
}

/// The session that registered last is accepted and nobody else, until its name leaves the bus;
/// then nobody is. Other names may leave without effect.
pub proof fn law_only_registered_session_is_accepted(
    session_id: u64,
    owner: Seq<char>,
    now_usec: u64,
    sender: Option<Seq<char>>,
    name: Seq<char>,
)
    ensures
        ({
            let registered = after_registering(session_id, owner, now_usec);
            &&& sender_registered(registered, sender) == (sender == Some(owner))
            &&& name != owner ==> after_leaving(registered, name) == registered
            &&& !sender_registered(after_leaving(registered, owner), sender)
        }),
{
}

// ── Calls of the session ─────────────────────────────────────────────────────

/// An acknowledgement of the session.
#[derive(Clone, Copy, Debug, PartialEq, Eq, Structural)]
pub enum AckEvent {
    KeyboardPogoDocked(bool),
    DesiredSecondaryApplied(bool),
}

/// A call that only the registered session may make.
pub enum SessionCall {
    Acknowledge(AckEvent),
    /// The layout is stable without the lower panel.
    SecondaryPoweroffReady,
    ReportAmbientLight(bool),
    ReportObservedMode { attachment: String, layout: String },
}

/// What a call of the session leads to.
pub enum SessionReply {
    /// Tell those who wait for it.
    Acknowledged(AckEvent),
    PowerOffSecondary,
    Effects(Vec<StateEffect>),
    /// Store the mode, and publish it.
    ModeStored(Vec<StateEffect>),
}

/// The state of the root daemon that calls on the bus work on.
pub struct RootState {
    pub registry: SessionRegistry,
    pub guard: DisplayApplyGuard,
    pub manager: KeyboardStateManager,
}

/// What the registered session's call does to the state, and what it leads to.
pub open spec fn call_done(
    call: SessionCall,
    state: InnerState,
    state_after: InnerState,
    r: Result<SessionReply, CallError>,
) -> bool {
    match call {
        SessionCall::Acknowledge(ack) => state_after == state && (r matches Ok(
            SessionReply::Acknowledged(a),
        ) && a == ack),
        SessionCall::SecondaryPoweroffReady => state_after == state && (r matches Ok(SessionReply::PowerOffSecondary)),
        SessionCall::ReportAmbientLight(value) => state_after == (
        InnerState { ambient_light_enabled: value, ..state }) && (r matches Ok(
            SessionReply::Effects(effects),
        ) && effects@ == crate::state_manager::when(
            state.ambient_light_enabled != value,
            seq![StateEffect::StoreDisplay(DisplayStateChange::AmbientLightEnabled(value))],
        )),
        SessionCall::ReportObservedMode { attachment, layout } => (
        if crate::state::known_attachment(attachment@) && crate::state::known_layout(layout@) {
            &&& state_after == (InnerState {
                desired_display_attachment: attachment,
                desired_display_layout: layout,
                ..state
            })
            &&& (r matches Ok(SessionReply::ModeStored(effects)) && effects@ == seq![
                StateEffect::StoreDisplay(DisplayStateChange::Mode { attachment, layout }),
            ])
        } else {
            &&& state_after == state
            &&& (r matches Err(e) && e@ == CallErrorView::Failed(
                if !crate::state::known_attachment(attachment@) {
                    "invalid desired_display_attachment: "@ + attachment@
                } else {
                    "invalid desired_display_layout: "@ + layout@
                },
            ))
        }),
    }
}

/// The registry after the registered session has called.
pub open spec fn seen(registry: Option<RegisteredSessionView>, now_usec: u64) -> Option<
    RegisteredSessionView,
> {
    match registry {
        Some(s) => Some(RegisteredSessionView { last_seen_usec: now_usec, ..s }),
        None => None,
    }
}

impl RootState {
    /// A call of the session. Anyone else is refused and changes nothing.
    pub fn session_call(&mut self, sender: Option<&str>, call: SessionCall, now_usec: u64) -> (r:
        Result<SessionReply, CallError>)
        requires
            old(self).manager@.well_formed(),
        ensures
            final(self).manager@.well_formed(),
            !sender_registered(old(self).registry@, opt_text(sender)) ==> *final(self) == *old(self)
                && (r matches Err(e) && e@ == sender_error(
                old(self).registry@,
                opt_text(sender),
            )),
            sender_registered(old(self).registry@, opt_text(sender)) ==> final(self).registry@
                == seen(old(self).registry@, now_usec) && final(self).guard == old(self).guard
                && call_done(
                call,
                old(self).manager@,
                final(self).manager@,
                r,
            ),
    {
        match self.registry.ensure_registered_sender(sender) {
            Ok(_) => {},
            Err(e) => {
                return Err(e);
            },
        }
        self.registry.mark_session_activity(now_usec);
        match call {
            SessionCall::Acknowledge(ack) => Ok(SessionReply::Acknowledged(ack)),
            SessionCall::SecondaryPoweroffReady => Ok(SessionReply::PowerOffSecondary),
            SessionCall::ReportAmbientLight(value) => {
                if self.manager.get_ambient_light_enabled() != value {
                    Ok(SessionReply::Effects(self.manager.set_ambient_light_enabled(value)))
                } else {
                    Ok(SessionReply::Effects(Vec::new()))
                }
            },
            SessionCall::ReportObservedMode { attachment, layout } => {
                match validate_desired_display_mode_strings(attachment.as_str(), layout.as_str()) {
                    Ok(_) => {
                        let effects = self.manager.persist_desired_display_mode(attachment, layout);
                        Ok(SessionReply::ModeStored(effects))
                    },
                    Err(text) => Err(CallError::Failed(text)),
                }
            },
        }
    }

    /// The session asks for permission to change the layout. An attempt that is allowed is to be
    /// forgotten after [`DISPLAY_APPLY_GUARD_DECAY_SECS`]. Anyone else is refused and changes
    /// nothing.
    pub fn register_display_apply_attempt(&mut self, sender: Option<&str>, now_usec: u64) -> (r:
        Result<bool, CallError>)
        ensures
            final(self).guard == attempt_answer(
                old(self).registry@,
                old(self).guard,
                opt_text(sender),
            ).0,
            final(self).manager@ == old(self).manager@,
            match r {
                Ok(allowed) => attempt_answer(
                    old(self).registry@,
                    old(self).guard,
                    opt_text(sender),
                ).1 == Some(allowed) && final(self).registry@ == seen(
                    old(self).registry@,
                    now_usec,
                ),
                Err(e) => !sender_registered(old(self).registry@, opt_text(sender)) && e@
                    == sender_error(old(self).registry@, opt_text(sender)) && *final(self) == *old(
                    self,
                ),
            },
    {
        match self.registry.ensure_registered_sender(sender) {
            Ok(_) => {},
            Err(e) => {
                return Err(e);
            },
        }
        self.registry.mark_session_activity(now_usec);
        Ok(self.guard.register_attempt())
    }

    /// An attempt is forgotten.
    pub fn forget_display_apply_attempt(&mut self)
        ensures
            final(self).guard == old(self).guard.decayed(),
            final(self).registry@ == old(self).registry@,
            final(self).manager@ == old(self).manager@,
    {
        self.guard.decay();
    }

    /// An authorised user lets changes of the layout go on.
    pub fn resume_display_applies(&mut self)
        ensures
            final(self).guard == DisplayApplyGuard::fresh(),
            final(self).registry@ == old(self).registry@,
            final(self).manager@ == old(self).manager@,
    {
        self.guard.resume();
    }

    /// Whether changes of the layout are held back.
    pub fn display_apply_paused(&self) -> (r: bool)
        ensures
            r == self.guard.paused,
    {
        self.guard.paused
    }
}

/// Whether an acknowledgement that was received ends the wait for the expected one: `Some(true)`
/// if it is that one, `Some(false)` if none can come any more.
pub fn recv_matching_ack(received: Option<AckEvent>, expected: AckEvent) -> (r: Option<bool>)
    ensures
        r == (match received {
            Some(ack) => if ack == expected {
                Some(true)
            } else {
                None
            },
            None => Some(false),
        }),
{
    match received {
        Some(ack) => if ack == expected {
            Some(true)
        } else {
            None
        },
        None => Some(false),
    }
}

// ── Calls of an operator ─────────────────────────────────────────────────────

/// What an authorised user may ask for.
pub enum OperatorCommand {
    ToggleMicMuteLed,
    SetMicMuteLed(bool),
    ToggleKeyboardBacklight,
    SetKeyboardBacklightLevel(u8),
    SetDesiredPrimary(String),
    SetTabletMappingEnabled(bool),
    SetTabletMappingMode(String),
    ToggleTabletMappingMode,
    ApplyTabletMapping,
    ToggleSecondaryDisplay,
    SetSecondaryDisplay(bool),
}

/// What an operator's command leads to.
pub enum OperatorOutcome {
    Effects(Vec<StateEffect>),
    /// The lower panel's desire is to change; the actions change the state.
    Coordinate(Vec<CoordinatorAction>),
    /// Hold back brightness changes, carry out the effects and tell the session.
    PrimaryChanged { pause_secs: u64, effects: Vec<StateEffect> },
    /// It is so already.
    Unchanged,
}

pub const PRIMARY_PAUSE_SECS: u64 = 4;

/// The effects alone are what the command leads to.
pub open spec fn only_effects(
    r: Result<OperatorOutcome, CallError>,
    expected: Seq<StateEffect>,
) -> bool {
    r matches Ok(OperatorOutcome::Effects(effects)) && effects@ == expected
}

pub open spec fn coordinated(
    r: Result<OperatorOutcome, CallError>,
    expected: Seq<CoordinatorAction>,
) -> bool {
    r matches Ok(OperatorOutcome::Coordinate(actions)) && actions@ == expected
}

pub open spec fn failed(r: Result<OperatorOutcome, CallError>, text: Seq<char>) -> bool {
    r matches Err(e) && e@ == CallErrorView::Failed(text)
}

/// What a command on the keyboard's lights does.
pub open spec fn lights_done(
    command: OperatorCommand,
    s: InnerState,
    after: InnerState,
    r: Result<OperatorOutcome, CallError>,
) -> bool {
    match command {
        OperatorCommand::ToggleMicMuteLed => after == (InnerState {
            mic_mute_led: !s.mic_mute_led,
            ..s
        }) && only_effects(r, crate::state_manager::mic_led_told(s, !s.mic_mute_led)),
        OperatorCommand::SetMicMuteLed(enabled) => after == (InnerState {
            mic_mute_led: enabled,
            ..s
        }) && only_effects(r, crate::state_manager::mic_led_told(s, enabled)),
        OperatorCommand::ToggleKeyboardBacklight => after == (InnerState {
            light: (LightState { backlight: s.light.backlight.successor(), ..s.light }),
            ..s
        }) && only_effects(
            r,
            crate::state_manager::backlight_requested(s.light, s.light.backlight.successor()),
        ),
        OperatorCommand::SetKeyboardBacklightLevel(level) => match KeyboardBacklightState::of_rank(
            level as int,
        ) {
            Some(backlight) => after == (InnerState {
                light: (LightState { backlight, ..s.light }),
                ..s
            }) && only_effects(r, crate::state_manager::backlight_requested(s.light, backlight)),
            None => after == s && failed(
                r,
                "keyboard backlight level must be 0..=3, got "@ + crate::text::decimal(
                    level as nat,
                ),
            ),
        },
        _ => true,
    }
}

/// What a command on the pens' mapping does.
pub open spec fn pens_done(
    command: OperatorCommand,
    s: InnerState,
    after: InnerState,
    r: Result<OperatorOutcome, CallError>,
) -> bool {
    match command {
        OperatorCommand::SetTabletMappingEnabled(enabled) => after == (InnerState {
            tablet: (TabletState { tablet_mapping_enabled: enabled, ..s.tablet }),
            ..s
        }) && only_effects(
            r,
            crate::state_manager::when(
                s.tablet.tablet_mapping_enabled != enabled,
                seq![
                    StateEffect::StoreDisplay(DisplayStateChange::TabletMappingEnabled(enabled)),
                    StateEffect::Publish(Publication::TabletMapping),
                ],
            ),
        ),
        OperatorCommand::SetTabletMappingMode(name) => match crate::config::mode_named(name@) {
            Some(mode) => after == (InnerState {
                tablet: (TabletState { tablet_mapping_mode: mode, ..s.tablet }),
                ..s
            }) && only_effects(r, crate::state_manager::mode_told(s.tablet, mode)),
            None => after == s && failed(
                r,
                "tablet mapping mode must be one_to_one or all_to_primary, got "@ + name@,
            ),
        },
        OperatorCommand::ToggleTabletMappingMode => if s.tablet.tablet_mapping_enabled {
            let mode = crate::state_manager::other_mode(s.tablet.tablet_mapping_mode);
            &&& after == (InnerState {
                tablet: (TabletState { tablet_mapping_mode: mode, ..s.tablet }),
                ..s
            })
            &&& only_effects(r, crate::state_manager::mode_told(s.tablet, mode))
        } else {
            after == s && only_effects(r, Seq::empty())
        },
        OperatorCommand::ApplyTabletMapping => after == (InnerState {
            tablet: (TabletState {
                tablet_mapping_apply_nonce: if s.tablet.tablet_mapping_apply_nonce == u32::MAX {
                    0
                } else {
                    (s.tablet.tablet_mapping_apply_nonce + 1) as u32
                },
                ..s.tablet
            }),
            ..s
        }) && only_effects(
            r,
            seq![StateEffect::Publish(Publication::TabletMappingApplyNonce)],
        ),
        _ => true,
    }
}

/// What a command on the panels does.
pub open spec fn panels_done(
    command: OperatorCommand,
    s: InnerState,
    after: InnerState,
    r: Result<OperatorOutcome, CallError>,
) -> bool {
    let wanted = s.secondary.desired_secondary_display_enabled;
    let docked = s.link.is_pogo_docked;
    match command {
        OperatorCommand::SetDesiredPrimary(primary) => if primary@ != "eDP-1"@ && primary@
            != "eDP-2"@ {
            after == s && failed(r, "desired primary must be eDP-1 or eDP-2, got "@ + primary@)
        } else if crate::state::text_view(s.desired_primary) == Some(primary@) {
            after == s && r matches Ok(OperatorOutcome::Unchanged)
        } else {
            &&& after == (InnerState { desired_primary: Some(primary), ..s })
            &&& (r matches Ok(OperatorOutcome::PrimaryChanged { pause_secs, effects })
                && pause_secs == PRIMARY_PAUSE_SECS && effects@ == seq![
                StateEffect::StoreDisplay(DisplayStateChange::Primary(primary)),
            ])
        },
        OperatorCommand::ToggleSecondaryDisplay => after == s && coordinated(
            r,
            crate::secondary_coordinator::coordination(wanted, !wanted, docked),
        ),
        OperatorCommand::SetSecondaryDisplay(enabled) => after == s && coordinated(
            r,
            crate::secondary_coordinator::coordination(wanted, enabled, docked),
        ),
        _ => true,
    }
}

/// Carries out what an authorised user asks for.
pub fn run_operator_command(manager: &mut KeyboardStateManager, command: OperatorCommand) -> (r:
    Result<OperatorOutcome, CallError>)
    requires
        old(manager)@.well_formed(),
    ensures
        final(manager)@.well_formed(),
        lights_done(command, old(manager)@, final(manager)@, r),
        pens_done(command, old(manager)@, final(manager)@, r),
        panels_done(command, old(manager)@, final(manager)@, r),
{
    match command {
        OperatorCommand::ToggleMicMuteLed => Ok(
            OperatorOutcome::Effects(manager.toggle_mic_mute_led()),
        ),
        OperatorCommand::SetMicMuteLed(enabled) => Ok(
            OperatorOutcome::Effects(manager.set_mic_mute_led(enabled)),
        ),
        OperatorCommand::ToggleKeyboardBacklight => Ok(
            OperatorOutcome::Effects(manager.toggle_keyboard_backlight()),
        ),
        OperatorCommand::SetKeyboardBacklightLevel(level) => {
            match KeyboardBacklightState::from_level(level) {
                Some(state) => Ok(OperatorOutcome::Effects(manager.set_keyboard_backlight(state))),
                None => Err(
                    CallError::Failed(
                        join2(
                            "keyboard backlight level must be 0..=3, got ",
                            decimal_text(level as u64).as_str(),
                        ),
                    ),
                ),
            }
        },
        OperatorCommand::SetDesiredPrimary(primary) => set_desired_primary(manager, primary),
        OperatorCommand::SetTabletMappingEnabled(enabled) => Ok(
            OperatorOutcome::Effects(manager.set_tablet_mapping_enabled(enabled)),
        ),
        OperatorCommand::SetTabletMappingMode(name) => {
            match tablet_mode_from_str(name.as_str()) {
                Ok(mode) => Ok(OperatorOutcome::Effects(manager.set_tablet_mapping_mode(mode))),
                Err(text) => Err(CallError::Failed(text)),
            }
        },
        OperatorCommand::ToggleTabletMappingMode => {
            let (_, effects) = manager.toggle_tablet_mapping_mode();
            Ok(OperatorOutcome::Effects(effects))
        },
        OperatorCommand::ApplyTabletMapping => {
            let (_, effects) = manager.bump_tablet_mapping_apply_nonce();
            Ok(OperatorOutcome::Effects(effects))
        },
        OperatorCommand::ToggleSecondaryDisplay => {
            let was = manager.is_secondary_display_desired_enabled();
            let docked = manager.is_keyboard_pogo_docked();
            Ok(OperatorOutcome::Coordinate(coordinate_secondary_display_toggle(was, docked)))
        },
        OperatorCommand::SetSecondaryDisplay(enabled) => {
            let was = manager.is_secondary_display_desired_enabled();
            let docked = manager.is_keyboard_pogo_docked();
            Ok(
                OperatorOutcome::Coordinate(
                    coordinate_secondary_display_to_state(was, enabled, docked),
                ),
            )
        },
    }
}

fn set_desired_primary(manager: &mut KeyboardStateManager, primary: String) -> (r: Result<
    OperatorOutcome,
    CallError,
>)
    requires
        old(manager)@.well_formed(),
    ensures
        final(manager)@.well_formed(),
        panels_done(
            OperatorCommand::SetDesiredPrimary(primary),
            old(manager)@,
            final(manager)@,
            r,
        ),
{
    match validate_desired_primary(primary.as_str()) {
        Ok(_) => {},
        Err(text) => {
            return Err(CallError::Failed(text));
        },
    }
    match manager.get_desired_primary() {
        Some(current) => if same(current.as_str(), primary.as_str()) {
            return Ok(OperatorOutcome::Unchanged);
        },
        None => {},
    }
    let effects = manager.set_desired_primary(primary);
    Ok(OperatorOutcome::PrimaryChanged { pause_secs: PRIMARY_PAUSE_SECS, effects })
}

/// A command that fails changes nothing.
pub proof fn law_refused_command_changes_nothing(
    command: OperatorCommand,
    s: InnerState,
    after: InnerState,
    r: Result<OperatorOutcome, CallError>,
)
    requires
        lights_done(command, s, after, r),
        pens_done(command, s, after, r),
        panels_done(command, s, after, r),
        r is Err,
    ensures
        after == s,
{
}

// ── Sleep ────────────────────────────────────────────────────────────────────

/// After waking up, the keyboard was looked for: `Some` with whether it is on the dock, or `None`
/// if it is not on USB. The connection (USB, dock) to set, if it is not as known.
pub fn resync_after_sleep(found: Option<bool>, usb: bool, docked: bool) -> (r: Option<(bool, bool)>)
    ensures
        r == (if (found is Some) == usb && (found == Some(true)) == docked {
            None::<(bool, bool)>
        } else {
            Some((found is Some, found == Some(true)))
        }),
{
    match found {
        Some(pogo) => if !usb || pogo != docked {
            Some((true, pogo))
        } else {
            None
        },
        None => if usb || docked {
            Some((false, false))
        } else {
            None
        },
    }
}

// ── What the calls bring about ───────────────────────────────────────────────

/// The root daemon's name and object on the bus, and the guard's measure.
pub proof fn law_bus_constants()
    ensures
        ROOT_DBUS_SERVICE@ == "asus.zenbook.duo"@,
        ROOT_DBUS_PATH@ == "/asus/zenbook/duo/State"@,
        DISPLAY_APPLY_GUARD_MAX_ATTEMPTS == 15,
        DISPLAY_APPLY_GUARD_DECAY_SECS == 5,
        PRIMARY_PAUSE_SECS == 4,
{
}

/// An attempt is allowed while fewer than fifteen count and the guard is not paused, and then counts
/// itself; one too many pauses the guard. A forgotten attempt makes room but does not end a pause;
/// only an operator does.
pub proof fn law_guard_allows_fifteen(g: DisplayApplyGuard)
    ensures
        g.paused ==> g.attempted() == (g, false),
        !g.paused && g.attempts < 15 ==> ({
            let (t, allowed) = g.attempted();
            allowed && !t.paused && t.attempts == g.attempts + 1
        }),
        !g.paused && g.attempts >= 15 ==> !g.attempted().1 && g.attempted().0.paused,
        g.attempts > 0 ==> g.decayed().attempts == g.attempts - 1,
        g.attempts == 0 ==> g.decayed().attempts == 0,
        g.decayed().paused == g.paused,
        DisplayApplyGuard::fresh().attempts == 0,
        !DisplayApplyGuard::fresh().paused,
{
}

/// The sender is accepted exactly if it is the one that is registered; a refusal says why.
pub proof fn law_senders(registry: Option<RegisteredSessionView>, name: Seq<char>)
    ensures
        sender_registered(registry, Some(name)) <==> registry is Some && registry->0.owner == name,
        !sender_registered(registry, None),
        sender_error(registry, None) == CallErrorView::AccessDenied("missing D-Bus sender"@),
        registry is None ==> sender_error(registry, Some(name)) == CallErrorView::AccessDenied(
            "no session daemon is currently registered"@,
        ),
        registry matches Some(s) ==> sender_error(registry, Some(name))
            == CallErrorView::AccessDenied(
            "sender "@ + name + " does not match registered session "@ + s.owner,
        ),
{
}

/// A registration is kept as it was made; a call of the session only changes when it was last seen;
/// a name that leaves takes only its own registration along.
pub proof fn law_registrations(
    registry: Option<RegisteredSessionView>,
    session_id: u64,
    owner: Seq<char>,
    now_usec: u64,
)
    ensures
        after_registering(session_id, owner, now_usec) matches Some(s) && s.session_id == session_id
            && s.owner == owner && s.last_seen_usec == now_usec,
        registry is None ==> seen(registry, now_usec) is None,
        registry matches Some(s) ==> seen(registry, now_usec) matches Some(t) && t.session_id
            == s.session_id && t.owner == s.owner && t.last_seen_usec == now_usec,
        registry matches Some(s) ==> (after_leaving(registry, owner) is None <==> s.owner == owner),
        after_leaving(registry, owner) is Some ==> after_leaving(registry, owner) == registry,
{
}

/// Asking for an attempt counts it for the registered session only.
pub proof fn law_attempts_are_counted_for_the_session(
    s: RegisteredSessionView,
    guard: DisplayApplyGuard,
    name: Seq<char>,
)
    ensures
        name == s.owner && !guard.paused && guard.attempts < 15 ==> attempt_answer(
            Some(s),
            guard,
            Some(name),
        ).1 == Some(true) && attempt_answer(Some(s), guard, Some(name)).0.attempts
            == guard.attempts + 1,
        name == s.owner && guard.paused ==> attempt_answer(Some(s), guard, Some(name)) == (
            guard,
            Some(false),
        ),
        name != s.owner ==> attempt_answer(Some(s), guard, Some(name)) == (guard, None::<bool>),
{
}

/// What the session acknowledges is passed on unchanged, and its word that the lower panel is free
/// turns that off; neither changes the state.
pub proof fn law_session_reports_are_passed_on(
    ack: AckEvent,
    s: InnerState,
    after: InnerState,
    r: Result<SessionReply, CallError>,
)
    ensures
        call_done(SessionCall::Acknowledge(ack), s, after, r) ==> after == s && r is Ok && (
        r->Ok_0 matches SessionReply::Acknowledged(a) && a == ack),
        call_done(SessionCall::SecondaryPoweroffReady, s, after, r) ==> after == s && r is Ok
            && r->Ok_0 is PowerOffSecondary,
{
}

/// Automatic brightness that the session reports is kept, and stored exactly where it is news.
pub proof fn law_reported_brightness_is_kept(
    value: bool,
    s: InnerState,
    after: InnerState,
    r: Result<SessionReply, CallError>,
)
    requires
        call_done(SessionCall::ReportAmbientLight(value), s, after, r),
    ensures
        after.ambient_light_enabled == value,
        after.light == s.light && after.link == s.link && after.secondary == s.secondary,
        r is Ok && r->Ok_0 is Effects,
        s.ambient_light_enabled == value ==> r->Ok_0->Effects_0@.len() == 0,
        s.ambient_light_enabled != value ==> r->Ok_0->Effects_0@.len() == 1
            && r->Ok_0->Effects_0@[0] == StateEffect::StoreDisplay(
            DisplayStateChange::AmbientLightEnabled(value),
        ),
{
}

/// A display mode that the session reports is kept and stored if it is one of those that there are;
/// another is refused and changes nothing.
pub proof fn law_reported_mode_is_kept(
    attachment: String,
    layout: String,
    s: InnerState,
    after: InnerState,
    r: Result<SessionReply, CallError>,
)
    requires
        call_done(SessionCall::ReportObservedMode { attachment, layout }, s, after, r),
    ensures
        (attachment@ == "builtin_only"@ || attachment@ == "external_only"@ || attachment@
            == "all_connected"@) && (layout@ == "mirror"@ || layout@ == "joined"@) ==> r is Ok
            && after.desired_display_attachment@ == attachment@ && after.desired_display_layout@
            == layout@ && r->Ok_0 is ModeStored && r->Ok_0->ModeStored_0@.len() == 1
            && r->Ok_0->ModeStored_0@[0] == StateEffect::StoreDisplay(
            DisplayStateChange::Mode { attachment, layout },
        ),
        attachment@ != "builtin_only"@ && attachment@ != "external_only"@ && attachment@
            != "all_connected"@ ==> after == s && r is Err && r->Err_0@ == CallErrorView::Failed(
            "invalid desired_display_attachment: "@ + attachment@,
        ),
        layout@ != "mirror"@ && layout@ != "joined"@ ==> after == s && r is Err,
{
    crate::state::law_accepted_display_modes(attachment@);
    crate::state::law_accepted_display_modes(layout@);
}

/// A backlight level from 0 to 3 is the one that is asked for afterwards, and is told to the
/// keyboard where it is shown otherwise; another level is refused.
pub proof fn law_operator_sets_the_backlight(
    level: u8,
    s: InnerState,
    after: InnerState,
    r: Result<OperatorOutcome, CallError>,
)
    requires
        lights_done(OperatorCommand::SetKeyboardBacklightLevel(level), s, after, r),
    ensures
        level <= 3 ==> after.light.backlight.rank() == level && r is Ok && r->Ok_0 is Effects && (
        s.light.effective() != after.light.effective() ==> r->Ok_0->Effects_0@.contains(
            StateEffect::Emit(crate::events::Event::Backlight(after.light.effective())),
        )),
        level > 3 ==> after == s && r is Err && r->Err_0@ == CallErrorView::Failed(
            "keyboard backlight level must be 0..=3, got "@ + crate::text::decimal(level as nat),
        ),
        after.mic_mute_led == s.mic_mute_led && after.link == s.link && after.secondary
            == s.secondary && after.tablet == s.tablet,
{
    if level <= 3 {
        let backlight = KeyboardBacklightState::of_rank(level as int)->0;
        crate::state_manager::law_backlight_request_reaches_the_keyboard(s.light, backlight);
    }
}

/// Toggling the backlight goes to the next level, and from the highest to off.
pub proof fn law_operator_toggles_the_backlight(
    s: InnerState,
    after: InnerState,
    r: Result<OperatorOutcome, CallError>,
)
    requires
        lights_done(OperatorCommand::ToggleKeyboardBacklight, s, after, r),
    ensures
        after.light.backlight.rank() == (s.light.backlight.rank() + 1) % 4,
        r is Ok && r->Ok_0 is Effects,
        r->Ok_0->Effects_0@.contains(StateEffect::StoreBacklight(after.light.backlight)),
        r->Ok_0->Effects_0@.contains(
            StateEffect::Emit(crate::events::Event::Backlight(after.light.effective())),
        ),
{
    crate::state_manager::law_backlight_request_reaches_the_keyboard(
        s.light,
        after.light.backlight,
    );
}

/// The microphone LED is set as asked, or to the opposite, and told to the keyboard unless the
/// machine sleeps.
pub proof fn law_operator_sets_the_microphone_led(
    enabled: bool,
    s: InnerState,
    after: InnerState,
    r: Result<OperatorOutcome, CallError>,
)
    ensures
        lights_done(OperatorCommand::SetMicMuteLed(enabled), s, after, r) ==> after.mic_mute_led
            == enabled && after.light == s.light && r is Ok && r->Ok_0 is Effects && (
        !s.light.is_suspended ==> r->Ok_0->Effects_0@.contains(
            StateEffect::Emit(crate::events::Event::MicMuteLed(enabled)),
        )),
        lights_done(OperatorCommand::ToggleMicMuteLed, s, after, r) ==> after.mic_mute_led
            == !s.mic_mute_led && after.light == s.light && r is Ok && r->Ok_0 is Effects && (
        !s.light.is_suspended ==> r->Ok_0->Effects_0@.contains(
            StateEffect::Emit(crate::events::Event::MicMuteLed(!s.mic_mute_led)),
        )),
{
    crate::state_manager::law_microphone_led_reaches_the_keyboard(s, enabled);
    crate::state_manager::law_microphone_led_reaches_the_keyboard(s, !s.mic_mute_led);
}

/// The pens' mapping is switched on or off as asked; what is new is stored and published.
pub proof fn law_operator_switches_the_mapping(
    enabled: bool,
    s: InnerState,
    after: InnerState,
    r: Result<OperatorOutcome, CallError>,
)
    requires
        pens_done(OperatorCommand::SetTabletMappingEnabled(enabled), s, after, r),
    ensures
        after.tablet.tablet_mapping_enabled == enabled,
        after.tablet.tablet_mapping_mode == s.tablet.tablet_mapping_mode,
        after.tablet.tablet_mapping_apply_nonce == s.tablet.tablet_mapping_apply_nonce,
        r is Ok && r->Ok_0 is Effects,
        s.tablet.tablet_mapping_enabled == enabled ==> r->Ok_0->Effects_0@.len() == 0,
        s.tablet.tablet_mapping_enabled != enabled ==> r->Ok_0->Effects_0@.len() == 2
            && r->Ok_0->Effects_0@[0] == StateEffect::StoreDisplay(
            DisplayStateChange::TabletMappingEnabled(enabled),
        ) && r->Ok_0->Effects_0@[1] == StateEffect::Publish(Publication::TabletMapping),
{
}

/// The pens are mapped in the mode that is named; a name of no mode is refused.
pub proof fn law_operator_chooses_the_mapping(
    name: String,
    s: InnerState,
    after: InnerState,
    r: Result<OperatorOutcome, CallError>,
)
    requires
        pens_done(OperatorCommand::SetTabletMappingMode(name), s, after, r),
    ensures
        name@ == "one_to_one"@ ==> after.tablet.tablet_mapping_mode
            == crate::config::TabletMapMode::OneToOne && r is Ok,
        name@ == "all_to_primary"@ ==> after.tablet.tablet_mapping_mode
            == crate::config::TabletMapMode::AllToPrimary && r is Ok,
        name@ != "one_to_one"@ && name@ != "all_to_primary"@ ==> after == s && r is Err
            && r->Err_0@ == CallErrorView::Failed(
            "tablet mapping mode must be one_to_one or all_to_primary, got "@ + name@,
        ),
        after.tablet.tablet_mapping_enabled == s.tablet.tablet_mapping_enabled,
{
    crate::config::law_mode_names(name@);
}

/// Toggling the mapping takes the other mode while the mapping is on and does nothing while it is
/// off; asking for it anew counts up.
pub proof fn law_operator_toggles_the_mapping(
    s: InnerState,
    after: InnerState,
    r: Result<OperatorOutcome, CallError>,
)
    ensures
        pens_done(OperatorCommand::ToggleTabletMappingMode, s, after, r) ==> r is Ok && r->Ok_0
            is Effects && (s.tablet.tablet_mapping_enabled ==> after.tablet.tablet_mapping_mode
            != s.tablet.tablet_mapping_mode && r->Ok_0->Effects_0@.len() == 2) && (
        !s.tablet.tablet_mapping_enabled ==> after == s && r->Ok_0->Effects_0@.len() == 0),
        pens_done(OperatorCommand::ApplyTabletMapping, s, after, r) ==> r is Ok && r->Ok_0
            is Effects && after.tablet.tablet_mapping_apply_nonce
            != s.tablet.tablet_mapping_apply_nonce && (s.tablet.tablet_mapping_apply_nonce
            < u32::MAX ==> after.tablet.tablet_mapping_apply_nonce
            == s.tablet.tablet_mapping_apply_nonce + 1) && r->Ok_0->Effects_0@.len() == 1
            && r->Ok_0->Effects_0@[0] == StateEffect::Publish(
            Publication::TabletMappingApplyNonce,
        ) && after.tablet.tablet_mapping_mode == s.tablet.tablet_mapping_mode
            && after.tablet.tablet_mapping_enabled == s.tablet.tablet_mapping_enabled,
{
}

/// A panel that is to be primary is kept and stored, and brightness held back for four seconds,
/// unless it is so already; what is no internal panel is refused.
pub proof fn law_operator_chooses_the_primary(
    primary: String,
    s: InnerState,
    after: InnerState,
    r: Result<OperatorOutcome, CallError>,
)
    requires
        panels_done(OperatorCommand::SetDesiredPrimary(primary), s, after, r),
    ensures
        primary@ == "eDP-1"@ || primary@ == "eDP-2"@ ==> r is Ok && after.desired_primary is Some
            && after.desired_primary->0@ == primary@,
        (primary@ == "eDP-1"@ || primary@ == "eDP-2"@) && (s.desired_primary is None
            || s.desired_primary->0@ != primary@) ==> (r->Ok_0
            matches OperatorOutcome::PrimaryChanged { pause_secs, effects } && pause_secs == 4
            && effects@.len() == 1 && effects@[0] == StateEffect::StoreDisplay(
            DisplayStateChange::Primary(primary),
        )),
        s.desired_primary is Some && s.desired_primary->0@ == primary@ ==> after == s,
        primary@ != "eDP-1"@ && primary@ != "eDP-2"@ ==> after == s && r is Err && r->Err_0@
            == CallErrorView::Failed("desired primary must be eDP-1 or eDP-2, got "@ + primary@),
        after.secondary == s.secondary && after.light == s.light && after.link == s.link,
{
}

/// The lower panel's desire is set as asked, or to the opposite, by way of the coordination.
pub proof fn law_operator_switches_the_lower_panel(
    enabled: bool,
    s: InnerState,
    after: InnerState,
    r: Result<OperatorOutcome, CallError>,
)
    ensures
        panels_done(OperatorCommand::SetSecondaryDisplay(enabled), s, after, r) ==> after == s
            && r is Ok && r->Ok_0 is Coordinate && r->Ok_0->Coordinate_0@
            == crate::secondary_coordinator::coordination(
            s.secondary.desired_secondary_display_enabled,
            enabled,
            s.link.is_pogo_docked,
        ),
        panels_done(OperatorCommand::ToggleSecondaryDisplay, s, after, r) ==> after == s && r is Ok
            && r->Ok_0 is Coordinate && r->Ok_0->Coordinate_0@
            == crate::secondary_coordinator::coordination(
            s.secondary.desired_secondary_display_enabled,
            !s.secondary.desired_secondary_display_enabled,
            s.link.is_pogo_docked,
        ),
{
}

/// Refusals and registrations are seen as they are.
pub proof fn law_calls_are_seen_as_they_are(text: String, s: RegisteredSession, name: &str)
    ensures
        CallError::Failed(text)@ == CallErrorView::Failed(text@),
        CallError::AccessDenied(text)@ == CallErrorView::AccessDenied(text@),
        CallError::AuthFailed(text)@ == CallErrorView::AuthFailed(text@),
        s@.session_id == s.session_id,
        s@.owner == s.owner@,
        s@.last_seen_usec == s.last_seen_usec,
        opt_text(Some(name)) == Some(name@),
        opt_text(None) is None,
{
}

} // verus!
