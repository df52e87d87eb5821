//! The session daemon's side of the bus: its connection to the root daemon, and its requests to
//! change the layout.
use vstd::prelude::*;

use crate::config::{tablet_mode_from_str, TabletMapMode, TabletMappingConfig};
use crate::dbus_state::DisplayApplyPermit;
use crate::text::{contains, join2};

verus! {

// ── The connection to the root daemon ────────────────────────────────────────

pub const RECONNECT_SECS: u64 = 2;

/// How long the handler of the dock may take before it is no longer acknowledged.
pub const DOCK_HANDLER_SECS: u64 = 5;

/// How long the handler of the lower panel is waited for.
pub const SECONDARY_HANDLER_SECS: u64 = 8;

/// What is awaited.
#[derive(Clone, Copy, Debug, PartialEq, Eq, Structural)]
pub enum ClientPhase {
    /// The reports of the light setting that have queued up.
    Draining,
    Connecting,
    Attaching,
    Registering,
    /// The reports that have queued up meanwhile.
    DrainingAgain,
    /// The answer to the report of the light setting.
    Replaying,
    AttachingBus,
    WatchingOwner,
    /// Changes.
    Running,
    /// The answer to the report of a change of the light setting.
    Reporting,
    /// The next attempt.
    Waiting,
    Ended,
}

/// A property of the root daemon.
#[derive(Clone, Copy, Debug, PartialEq, Eq, Structural)]
pub enum RootProperty {
    KeyboardUsbConnected,
    KeyboardPogoDocked,
    DesiredSecondaryEnabled,
    DesiredPrimary,
    DisplayBrightness,
    TabletMapping,
}

pub enum ClientEvent {
    /// The queue of reports is empty; the last value taken from it, and whether more can come.
    Drained { latest: Option<bool>, open: bool },
    /// A step of the connection was taken or failed.
    Done(bool),
    /// The time of waiting is over.
    Waited,
    /// The root daemon has left the bus, or its state on the bus could not be read.
    OwnerLost,
    /// The root daemon is on the bus.
    OwnerKept,
    /// A stream of changes has ended.
    StreamEnded,
    /// A value could not be read.
    Unreadable,
    UsbConnected(bool),
    PogoDocked(bool),
    DesiredSecondary(bool),
    DesiredPrimary(String),
    Brightness(u32),
    /// The pens' mapping as it stands now, as far as it could be read.
    TabletMapping { enabled: Option<bool>, mode: Option<String> },
    /// The pens are to be mapped again.
    TabletApply,
    /// The light setting has changed; `None`: no more reports can come.
    Ambient(Option<bool>),
}

pub enum ClientAction {
    DrainAmbient,
    Connect,
    Attach,
    Register,
    /// Others may use the connection.
    ShareConnection,
    /// Others may no longer use it.
    WithdrawConnection,
    ReportAmbient(bool),
    AttachBus,
    WatchOwner,
    WatchProperties,
    Read(RootProperty),
    Wait { secs: u64 },
    SendUsb(bool),
    /// Tell the display side; acknowledge to the root daemon once it has handled the news in time.
    SendDock { docked: bool, secs: u64 },
    /// Remember the value, tell the display side, acknowledge at once, and take note of the
    /// handler's completion in time.
    ApplySecondary { enabled: bool, secs: u64 },
    /// Remember the value and tell the display side.
    ApplyPrimary(String),
    ApplyBrightness(u32),
    MapPens,
}

/// The session daemon's connection to the root daemon.
#[derive(Clone, Copy, Debug, PartialEq, Eq, Structural)]
pub struct SessionClient {
    pub phase: ClientPhase,
    /// The last reported light setting.
    pub latest_ambient: Option<bool>,
    pub tablet: TabletMappingConfig,
}

pub open spec fn initial_reads() -> Seq<ClientAction> {
    seq![
        ClientAction::WatchProperties,
        ClientAction::Read(RootProperty::KeyboardUsbConnected),
        ClientAction::Read(RootProperty::KeyboardPogoDocked),
        ClientAction::Read(RootProperty::DesiredSecondaryEnabled),
        ClientAction::Read(RootProperty::DesiredPrimary),
        ClientAction::Read(RootProperty::DisplayBrightness),
        ClientAction::Read(RootProperty::TabletMapping),
    ]
}

pub open spec fn newer(latest: Option<bool>, before: Option<bool>) -> Option<bool> {
    match latest {
        Some(v) => Some(v),
        None => before,
    }
}

/// The pens' mapping as read; an unknown mode counts as one to one.
pub open spec fn tablet_read(enabled: bool, mode: Seq<char>) -> TabletMappingConfig {
    TabletMappingConfig {
        enable: enabled,
        mode: match crate::config::mode_named(mode) {
            Some(m) => m,
            None => TabletMapMode::OneToOne,
        },
    }
}

impl SessionClient {
    /// The connection is registered, and others may use it.
    pub open spec fn shared(self) -> bool {
        match self.phase {
            ClientPhase::DrainingAgain
            | ClientPhase::Replaying
            | ClientPhase::AttachingBus
            | ClientPhase::WatchingOwner
            | ClientPhase::Running
            | ClientPhase::Reporting => true,
            _ => false,
        }
    }

    pub open spec fn at(self, phase: ClientPhase) -> SessionClient {
        SessionClient { phase, ..self }
    }

    /// The attempt is given up, and another one is made after a while.
    pub open spec fn retried(self) -> (SessionClient, Seq<ClientAction>) {
        (
            self.at(ClientPhase::Waiting),
            (if self.shared() {
                seq![ClientAction::WithdrawConnection]
            } else {
                Seq::empty()
            }) + seq![ClientAction::Wait { secs: RECONNECT_SECS }],
        )
    }

    /// The next step of the connection after the present one was taken.
    pub open spec fn advanced(self) -> (SessionClient, Seq<ClientAction>) {
        match self.phase {
            ClientPhase::Connecting => (
                self.at(ClientPhase::Attaching),
                seq![ClientAction::Attach],
            ),
            ClientPhase::Attaching => (
                self.at(ClientPhase::Registering),
                seq![ClientAction::Register],
            ),
            ClientPhase::Registering => (
                self.at(ClientPhase::DrainingAgain),
                seq![ClientAction::ShareConnection, ClientAction::DrainAmbient],
            ),
            ClientPhase::Replaying => (
                self.at(ClientPhase::AttachingBus),
                seq![ClientAction::AttachBus],
            ),
            ClientPhase::AttachingBus => (
                self.at(ClientPhase::WatchingOwner),
                seq![ClientAction::WatchOwner],
            ),
            ClientPhase::WatchingOwner => (self.at(ClientPhase::Running), initial_reads()),
            ClientPhase::Reporting => (self.at(ClientPhase::Running), Seq::empty()),
            _ => (self, Seq::empty()),
        }
    }

    /// A step is being taken.
    pub open spec fn stepping(self) -> bool {
        match self.phase {
            ClientPhase::Connecting
            | ClientPhase::Attaching
            | ClientPhase::Registering
            | ClientPhase::Replaying
            | ClientPhase::AttachingBus
            | ClientPhase::WatchingOwner
            | ClientPhase::Reporting => true,
            _ => false,
        }
    }

    /// The queue of reports was emptied.
    pub open spec fn drained(self, latest: Option<bool>, open: bool) -> (
        SessionClient,
        Seq<ClientAction>,
    ) {
        let c = SessionClient { latest_ambient: newer(latest, self.latest_ambient), ..self };
        if !open {
            (c.at(ClientPhase::Ended), seq![ClientAction::WithdrawConnection])
        } else if self.phase == ClientPhase::Draining {
            (c.at(ClientPhase::Connecting), seq![ClientAction::Connect])
        } else {
            match c.latest_ambient {
                Some(v) => (c.at(ClientPhase::Replaying), seq![ClientAction::ReportAmbient(v)]),
                None => (c.at(ClientPhase::AttachingBus), seq![ClientAction::AttachBus]),
            }
        }
    }

    /// A change while the connection stands.
    pub open spec fn changed(self, event: ClientEvent) -> (SessionClient, Seq<ClientAction>) {
        match event {
            ClientEvent::OwnerLost | ClientEvent::StreamEnded | ClientEvent::Ambient(None) => {
                self.retried()
            },
            ClientEvent::UsbConnected(b) => (self, seq![ClientAction::SendUsb(b)]),
            ClientEvent::PogoDocked(b) => (
                self,
                seq![ClientAction::SendDock { docked: b, secs: DOCK_HANDLER_SECS }],
            ),
            ClientEvent::DesiredSecondary(b) => (
                self,
                seq![ClientAction::ApplySecondary { enabled: b, secs: SECONDARY_HANDLER_SECS }],
            ),
            ClientEvent::DesiredPrimary(name) => (self, seq![ClientAction::ApplyPrimary(name)]),
            ClientEvent::Brightness(value) => (
                self,
                if value > 0 {
                    seq![ClientAction::ApplyBrightness(value)]
                } else {
                    Seq::empty()
                },
            ),
            ClientEvent::TabletMapping { enabled: Some(enabled), mode: Some(mode) } => {
                let tablet = tablet_read(enabled, mode@);
                (
                    SessionClient { tablet, ..self },
                    if tablet != self.tablet {
                        seq![ClientAction::MapPens]
                    } else {
                        Seq::empty()
                    },
                )
            },
            ClientEvent::TabletApply => (self, seq![ClientAction::MapPens]),
            ClientEvent::Ambient(Some(value)) => (
                SessionClient {
                    phase: ClientPhase::Reporting,
                    latest_ambient: Some(value),
                    ..self
                },
                seq![ClientAction::ReportAmbient(value)],
            ),
            _ => (self, Seq::empty()),
        }
    }

    /// The next state and what is to be done. What does not fit the phase changes nothing.
    pub open spec fn next(self, event: ClientEvent) -> (SessionClient, Seq<ClientAction>) {
        match event {
            ClientEvent::Drained { latest, open } => if self.phase == ClientPhase::Draining
                || self.phase == ClientPhase::DrainingAgain {
                self.drained(latest, open)
            } else {
                (self, Seq::empty())
            },
            ClientEvent::Done(ok) => if !self.stepping() {
                (self, Seq::empty())
            } else if ok {
                self.advanced()
            } else {
                self.retried()
            },
            ClientEvent::Waited => if self.phase == ClientPhase::Waiting {
                (self.at(ClientPhase::Draining), seq![ClientAction::DrainAmbient])
            } else {
                (self, Seq::empty())
            },
            _ => if self.phase == ClientPhase::Running {
                self.changed(event)
            } else {
                (self, Seq::empty())
            },
        }
    }

    /// The client before its first attempt; the queue of reports is to be emptied first.
    pub fn new(tablet: TabletMappingConfig) -> (r: Self)
        ensures
            r == (SessionClient { phase: ClientPhase::Draining, latest_ambient: None, tablet }),
    {
        SessionClient { phase: ClientPhase::Draining, latest_ambient: None, tablet }
    }

    fn is_shared(&self) -> (r: bool)
        ensures
            r == self.shared(),
    {
        match self.phase {
            ClientPhase::DrainingAgain
            | ClientPhase::Replaying
            | ClientPhase::AttachingBus
            | ClientPhase::WatchingOwner
            | ClientPhase::Running
            | ClientPhase::Reporting => true,
            _ => false,
        }
    }

    fn retry(&mut self) -> (actions: Vec<ClientAction>)
        ensures
            (*final(self), actions@) == old(self).retried(),
    {
        let mut actions: Vec<ClientAction> = Vec::new();
        if self.is_shared() {
            actions.push(ClientAction::WithdrawConnection);
        }
        actions.push(ClientAction::Wait { secs: RECONNECT_SECS });
        self.phase = ClientPhase::Waiting;
        proof {
            assert(actions@ =~= old(self).retried().1);
        }
        actions
    }

    fn drain(&mut self, latest: Option<bool>, open: bool) -> (actions: Vec<ClientAction>)
        ensures
            (*final(self), actions@) == old(self).drained(latest, open),
    {
        let mut actions: Vec<ClientAction> = Vec::new();
        let first = self.phase == ClientPhase::Draining;
        if latest.is_some() {
            self.latest_ambient = latest;
        }
        if !open {
            self.phase = ClientPhase::Ended;
            actions.push(ClientAction::WithdrawConnection);
        } else if first {
            self.phase = ClientPhase::Connecting;
            actions.push(ClientAction::Connect);
        } else {
            match self.latest_ambient {
                Some(v) => {
                    self.phase = ClientPhase::Replaying;
                    actions.push(ClientAction::ReportAmbient(v));
                },
                None => {
                    self.phase = ClientPhase::AttachingBus;
                    actions.push(ClientAction::AttachBus);
                },
            }
        }
        proof {
            assert(actions@ =~= old(self).drained(latest, open).1);
        }
        actions
    }

    fn advance(&mut self) -> (actions: Vec<ClientAction>)
        ensures
            (*final(self), actions@) == old(self).advanced(),
    {
        let mut actions: Vec<ClientAction> = Vec::new();
        match self.phase {
            ClientPhase::Connecting => {
                self.phase = ClientPhase::Attaching;
                actions.push(ClientAction::Attach);
            },
            ClientPhase::Attaching => {
                self.phase = ClientPhase::Registering;
                actions.push(ClientAction::Register);
            },
            ClientPhase::Registering => {
                self.phase = ClientPhase::DrainingAgain;
                actions.push(ClientAction::ShareConnection);
                actions.push(ClientAction::DrainAmbient);
            },
            ClientPhase::Replaying => {
                self.phase = ClientPhase::AttachingBus;
                actions.push(ClientAction::AttachBus);
            },
            ClientPhase::AttachingBus => {
                self.phase = ClientPhase::WatchingOwner;
                actions.push(ClientAction::WatchOwner);
            },
            ClientPhase::WatchingOwner => {
                self.phase = ClientPhase::Running;
                actions.push(ClientAction::WatchProperties);
                actions.push(ClientAction::Read(RootProperty::KeyboardUsbConnected));
                actions.push(ClientAction::Read(RootProperty::KeyboardPogoDocked));
                actions.push(ClientAction::Read(RootProperty::DesiredSecondaryEnabled));
                actions.push(ClientAction::Read(RootProperty::DesiredPrimary));
                actions.push(ClientAction::Read(RootProperty::DisplayBrightness));
                actions.push(ClientAction::Read(RootProperty::TabletMapping));
            },
            ClientPhase::Reporting => {
                self.phase = ClientPhase::Running;
            },
            _ => {},
        }
        proof {
            assert(actions@ =~= old(self).advanced().1);
        }
        actions
    }

    fn sync_tablet_mapping(&mut self, enabled: bool, mode: &str) -> (differs: bool)
        ensures
            *final(self) == (SessionClient { tablet: tablet_read(enabled, mode@), ..*old(self) }),
            differs == (tablet_read(enabled, mode@) != old(self).tablet),
    {
        let mode = match tablet_mode_from_str(mode) {
            Ok(m) => m,
            Err(_) => TabletMapMode::OneToOne,
        };
        let tablet = TabletMappingConfig { enable: enabled, mode };
        let differs = self.tablet != tablet;
        self.tablet = tablet;
        differs
    }

    fn change(&mut self, event: ClientEvent) -> (actions: Vec<ClientAction>)
        requires
            old(self).phase == ClientPhase::Running,
        ensures
            (*final(self), actions@) == old(self).changed(event),
    {
        let mut actions: Vec<ClientAction> = Vec::new();
        match event {
            ClientEvent::OwnerLost | ClientEvent::StreamEnded | ClientEvent::Ambient(None) => {
                return self.retry();
            },
            ClientEvent::UsbConnected(b) => {
                actions.push(ClientAction::SendUsb(b));
            },
            ClientEvent::PogoDocked(b) => {
                actions.push(ClientAction::SendDock { docked: b, secs: DOCK_HANDLER_SECS });
            },
            ClientEvent::DesiredSecondary(b) => {
                actions.push(
                    ClientAction::ApplySecondary { enabled: b, secs: SECONDARY_HANDLER_SECS },
                );
            },
            ClientEvent::DesiredPrimary(name) => {
                actions.push(ClientAction::ApplyPrimary(name));
            },
            ClientEvent::Brightness(value) => {
                if value > 0 {
                    actions.push(ClientAction::ApplyBrightness(value));
                }
            },
            ClientEvent::TabletMapping { enabled: Some(enabled), mode: Some(mode) } => {
                if self.sync_tablet_mapping(enabled, mode.as_str()) {
                    actions.push(ClientAction::MapPens);
                }
            },
            ClientEvent::TabletApply => {
                actions.push(ClientAction::MapPens);
            },
            ClientEvent::Ambient(Some(value)) => {
                self.phase = ClientPhase::Reporting;
                self.latest_ambient = Some(value);
                actions.push(ClientAction::ReportAmbient(value));
            },
            _ => {},
        }
        proof {
            assert(actions@ =~= old(self).changed(event).1);
        }
        actions
    }

    /// Takes what has happened and says what is to be done.
    pub fn run_session_client(&mut self, event: ClientEvent) -> (actions: Vec<ClientAction>)
        ensures
            (*final(self), actions@) == old(self).next(event),
    {
        match event {
            ClientEvent::Drained { latest, open } => if self.phase == ClientPhase::Draining
                || self.phase == ClientPhase::DrainingAgain {
                self.drain(latest, open)
            } else {
                Vec::new()
            },
            ClientEvent::Done(ok) => match self.phase {
                ClientPhase::Connecting
                | ClientPhase::Attaching
                | ClientPhase::Registering
                | ClientPhase::Replaying
                | ClientPhase::AttachingBus
                | ClientPhase::WatchingOwner
                | ClientPhase::Reporting => if ok {
                    self.advance()
                } else {
                    self.retry()
                },
                _ => Vec::new(),
            },
            ClientEvent::Waited => {
                let mut actions: Vec<ClientAction> = Vec::new();
                if self.phase == ClientPhase::Waiting {
                    self.phase = ClientPhase::Draining;
                    actions.push(ClientAction::DrainAmbient);
                }
                proof {
                    assert(actions@ =~= old(self).next(event).1);
                }
                actions
            },
            other => if self.phase == ClientPhase::Running {
                self.change(other)
            } else {
                Vec::new()
            },
        }
    }
}

/// Others get the connection exactly when it has been registered, and lose it exactly when it is
/// given up or the client ends.
pub proof fn law_connection_is_shared_while_registered(c: SessionClient, event: ClientEvent)
    ensures
        ({
            let (after, actions) = c.next(event);
            &&& !c.shared() && after.shared() <==> actions.contains(ClientAction::ShareConnection)
            &&& c.shared() && !after.shared() ==> actions.contains(
                ClientAction::WithdrawConnection,
            )
            &&& actions.contains(ClientAction::WithdrawConnection) ==> !after.shared()
        }),
{
    let (after, actions) = c.next(event);
    if c.shared() && !after.shared() {
        assert(actions[0] == ClientAction::WithdrawConnection);
    }
    if !c.shared() && after.shared() {
        assert(actions[0] == ClientAction::ShareConnection);
    }
}

/// A registered client reports the last known light setting before anything else.
pub proof fn law_light_setting_is_replayed(c: SessionClient, latest: Option<bool>)
    requires
        c.phase == ClientPhase::DrainingAgain,
        newer(latest, c.latest_ambient) is Some,
    ensures
        c.next(ClientEvent::Drained { latest, open: true }).1 == seq![
            ClientAction::ReportAmbient(newer(latest, c.latest_ambient)->0),
        ],
{
}

/// A failed step is tried again from the start after a pause.
pub proof fn law_failed_step_is_retried(c: SessionClient)
    requires
        c.stepping(),
    ensures
        ({
            let (waiting, actions) = c.next(ClientEvent::Done(false));
            &&& actions.last() == ClientAction::Wait { secs: RECONNECT_SECS }
            &&& waiting.latest_ambient == c.latest_ambient
            &&& waiting.next(ClientEvent::Waited).0.phase == ClientPhase::Draining
        }),
{
}

/// The pens are mapped again only when their mapping has changed: reading the same mapping twice
/// maps them at most once.
pub proof fn law_same_mapping_is_not_applied_twice(c: SessionClient, enabled: bool, mode: String)
    requires
        c.phase == ClientPhase::Running,
    ensures
        ({
            let event = ClientEvent::TabletMapping { enabled: Some(enabled), mode: Some(mode) };
            let (once, _) = c.next(event);
            once.next(event) == (once, Seq::<ClientAction>::empty())
        }),
{
}

// ── Permission to change the layout ──────────────────────────────────────────

/// What the request for permission is waiting for.
pub enum PermitEvent {
    /// The object that stands for the root daemon could not be made.
    Unattached(String),
    /// The root daemon's answer.
    Answered(Result<bool, String>),
    /// The answer to the repeated registration.
    Registered(Result<(), String>),
}

pub enum PermitStep {
    /// Ask for permission.
    Ask,
    /// Register the session again.
    Register,
    Decided(Result<DisplayApplyPermit, String>),
}

pub enum PermitStepView {
    Ask,
    Register,
    Decided(Result<DisplayApplyPermit, Seq<char>>),
}

impl View for PermitStep {
    type V = PermitStepView;

    open spec fn view(&self) -> PermitStepView {
        match self {
            PermitStep::Ask => PermitStepView::Ask,
            PermitStep::Register => PermitStepView::Register,
            PermitStep::Decided(Ok(p)) => PermitStepView::Decided(Ok(*p)),
            PermitStep::Decided(Err(e)) => PermitStepView::Decided(Err(e@)),
        }
    }
}

/// A request for permission: the refusal that a repeated registration is to mend, if there was one.
pub struct PermitRequest {
    refusal: Option<String>,
}

impl View for PermitRequest {
    type V = Option<Seq<char>>;

    closed spec fn view(&self) -> Option<Seq<char>> {
        crate::state::text_view(self.refusal)
    }
}

pub open spec fn is_sender_mismatch(text: Seq<char>) -> bool {
    crate::text::contains_text(text, "does not match registered session"@)
}

/// What follows an event: the session is registered again at most once, and only if the root
/// daemon does not know the sender.
pub open spec fn permit_next(refusal: Option<Seq<char>>, event: PermitEvent) -> (
    Option<Seq<char>>,
    PermitStepView,
) {
    match event {
        PermitEvent::Unattached(e) => (
            refusal,
            PermitStepView::Decided(Err("root state proxy for display apply guard: "@ + e@)),
        ),
        PermitEvent::Answered(Ok(allowed)) => (
            refusal,
            PermitStepView::Decided(
                Ok(
                    if allowed {
                        DisplayApplyPermit::Allowed
                    } else {
                        DisplayApplyPermit::Paused
                    },
                ),
            ),
        ),
        PermitEvent::Answered(Err(e)) => if is_sender_mismatch(e@) && refusal is None {
            (Some(e@), PermitStepView::Register)
        } else {
            (
                refusal,
                PermitStepView::Decided(Err("register_display_apply_attempt: "@ + e@)),
            )
        },
        PermitEvent::Registered(Ok(_)) => (refusal, PermitStepView::Ask),
        PermitEvent::Registered(Err(e)) => (
            refusal,
            PermitStepView::Decided(
                Err(
                    "register_session after display guard sender mismatch: "@ + e@ + " (was: "@ + (
                    match refusal {
                        Some(text) => text,
                        None => Seq::empty(),
                    }) + ")"@,
                ),
            ),
        ),
    }
}

impl PermitRequest {
    /// Starts a request: refused at once if the session has no connection to the root daemon.
    pub fn start(connected: bool) -> (r: Result<Self, String>)
        ensures
            match r {
                Ok(request) => connected && request@ is None,
                Err(e) => !connected && e@
                    == "session system bus not registered yet (is the session daemon running and connected to root?)"@,
            },
    {
        if connected {
            Ok(PermitRequest { refusal: None })
        } else {
            Err(
                "session system bus not registered yet (is the session daemon running and connected to root?)".to_owned(),
            )
        }
    }

    /// Takes what has happened and says what is to be done.
    pub fn register_display_apply_attempt(&mut self, event: PermitEvent) -> (step: PermitStep)
        ensures
            (final(self)@, step@) == permit_next(old(self)@, event),
    {
        match event {
            PermitEvent::Unattached(e) => PermitStep::Decided(
                Err(join2("root state proxy for display apply guard: ", e.as_str())),
            ),
            PermitEvent::Answered(Ok(allowed)) => if allowed {
                PermitStep::Decided(Ok(DisplayApplyPermit::Allowed))
            } else {
                PermitStep::Decided(Ok(DisplayApplyPermit::Paused))
            },
            PermitEvent::Answered(Err(e)) => {
                if contains(e.as_str(), "does not match registered session")
                    && self.refusal.is_none() {
                    self.refusal = Some(e);
                    PermitStep::Register
                } else {
                    PermitStep::Decided(
                        Err(join2("register_display_apply_attempt: ", e.as_str())),
                    )
                }
            },
            PermitEvent::Registered(Ok(_)) => PermitStep::Ask,
            PermitEvent::Registered(Err(e)) => {
                let mut text = join2(
                    "register_session after display guard sender mismatch: ",
                    e.as_str(),
                );
                text.append(" (was: ");
                match &self.refusal {
                    Some(was) => text.append(was.as_str()),
                    None => {},
                }
                text.append(")");
                proof {
                    if self.refusal is None {
                        assert(text@ =~= permit_next(
                            old(self)@,
                            event,
                        ).1->Decided_0->Err_0);
                    }
                }
                PermitStep::Decided(Err(text))
            },
        }
    }
}

/// Permission is granted only by the root daemon's own word.
pub proof fn law_permission_is_granted_by_root(refusal: Option<Seq<char>>, event: PermitEvent)
    ensures
        permit_next(refusal, event).1 == PermitStepView::Decided(Ok(DisplayApplyPermit::Allowed))
            <==> (event matches PermitEvent::Answered(Ok(allowed)) && allowed),
{
}

/// The session is registered again at most once in a request.
pub proof fn law_registration_is_repeated_once(refusal: Option<Seq<char>>, event: PermitEvent)
    ensures
        permit_next(refusal, event).1 is Register ==> refusal is None && permit_next(
            refusal,
            event,
        ).0 is Some,
        refusal is Some ==> permit_next(refusal, event).0 is Some,
{
}

// ── What the connection goes through ─────────────────────────────────────────

/// The steps of a connection follow each other: connect, attach, register, share the connection and
/// empty the queue; and after the report of the light setting, attach to the bus, watch the owner,
/// and read all properties.
pub proof fn law_steps_of_a_connection(c: SessionClient)
    ensures
        c.phase == ClientPhase::Connecting ==> c.next(ClientEvent::Done(true)).0.phase
            == ClientPhase::Attaching && c.next(ClientEvent::Done(true)).1 =~= seq![
            ClientAction::Attach,
        ],
        c.phase == ClientPhase::Attaching ==> c.next(ClientEvent::Done(true)).0.phase
            == ClientPhase::Registering && c.next(ClientEvent::Done(true)).1 =~= seq![
            ClientAction::Register,
        ],
        c.phase == ClientPhase::Registering ==> c.next(ClientEvent::Done(true)).0.phase
            == ClientPhase::DrainingAgain && c.next(ClientEvent::Done(true)).1 =~= seq![
            ClientAction::ShareConnection,
            ClientAction::DrainAmbient,
        ],
        c.phase == ClientPhase::Replaying ==> c.next(ClientEvent::Done(true)).0.phase
            == ClientPhase::AttachingBus && c.next(ClientEvent::Done(true)).1 =~= seq![
            ClientAction::AttachBus,
        ],
        c.phase == ClientPhase::AttachingBus ==> c.next(ClientEvent::Done(true)).0.phase
            == ClientPhase::WatchingOwner && c.next(ClientEvent::Done(true)).1 =~= seq![
            ClientAction::WatchOwner,
        ],
        c.phase == ClientPhase::Reporting ==> c.next(ClientEvent::Done(true)).0.phase
            == ClientPhase::Running && c.next(ClientEvent::Done(true)).1.len() == 0,
        c.next(ClientEvent::Done(true)).0.latest_ambient == c.latest_ambient,
        c.next(ClientEvent::Done(true)).0.tablet == c.tablet,
{
}

/// A connection that stands watches and reads every property.
pub proof fn law_standing_connection_reads_everything(c: SessionClient)
    requires
        c.phase == ClientPhase::WatchingOwner,
    ensures
        ({
            let (t, actions) = c.next(ClientEvent::Done(true));
            &&& t.phase == ClientPhase::Running
            &&& actions.len() == 7
            &&& actions[0] == ClientAction::WatchProperties
            &&& actions[1] == ClientAction::Read(RootProperty::KeyboardUsbConnected)
            &&& actions[2] == ClientAction::Read(RootProperty::KeyboardPogoDocked)
            &&& actions[3] == ClientAction::Read(RootProperty::DesiredSecondaryEnabled)
            &&& actions[4] == ClientAction::Read(RootProperty::DesiredPrimary)
            &&& actions[5] == ClientAction::Read(RootProperty::DisplayBrightness)
            &&& actions[6] == ClientAction::Read(RootProperty::TabletMapping)
        }),
{
}

/// A step that fails, an owner that is lost and a stream that ends lead to another attempt after two
/// seconds; a connection that others use is withdrawn first.
pub proof fn law_lost_connection_is_made_again(c: SessionClient)
    ensures
        c.phase == ClientPhase::Running ==> c.next(ClientEvent::OwnerLost).0.phase
            == ClientPhase::Waiting && c.next(ClientEvent::OwnerLost).1 =~= seq![
            ClientAction::WithdrawConnection,
            ClientAction::Wait { secs: 2 },
        ],
        c.phase == ClientPhase::Running ==> c.next(ClientEvent::StreamEnded) == c.next(
            ClientEvent::OwnerLost,
        ),
        c.phase == ClientPhase::Running ==> c.next(ClientEvent::Ambient(None)) == c.next(
            ClientEvent::OwnerLost,
        ),
        c.phase == ClientPhase::Connecting || c.phase == ClientPhase::Attaching || c.phase
            == ClientPhase::Registering ==> c.next(ClientEvent::Done(false)).0.phase
            == ClientPhase::Waiting && c.next(ClientEvent::Done(false)).1 =~= seq![
            ClientAction::Wait { secs: 2 },
        ],
        c.phase == ClientPhase::Replaying || c.phase == ClientPhase::AttachingBus || c.phase
            == ClientPhase::WatchingOwner || c.phase == ClientPhase::Reporting ==> c.next(
            ClientEvent::Done(false),
        ).0.phase == ClientPhase::Waiting && c.next(ClientEvent::Done(false)).1 =~= seq![
            ClientAction::WithdrawConnection,
            ClientAction::Wait { secs: 2 },
        ],
        c.phase == ClientPhase::Waiting ==> c.next(ClientEvent::Waited).0.phase
            == ClientPhase::Draining && c.next(ClientEvent::Waited).1 =~= seq![
            ClientAction::DrainAmbient,
        ],
{
}

/// The last light setting from the queue is remembered; then the connection is made, or, once it is
/// registered, the setting is reported if there is one. A queue that is closed ends the client.
pub proof fn law_queue_of_reports(c: SessionClient, value: bool)
    requires
        c.phase == ClientPhase::Draining || c.phase == ClientPhase::DrainingAgain,
    ensures
        ({
            let (t, actions) = c.next(ClientEvent::Drained { latest: Some(value), open: true });
            &&& t.latest_ambient == Some(value)
            &&& c.phase == ClientPhase::Draining ==> t.phase == ClientPhase::Connecting
                && actions =~= seq![ClientAction::Connect]
            &&& c.phase == ClientPhase::DrainingAgain ==> t.phase == ClientPhase::Replaying
                && actions =~= seq![ClientAction::ReportAmbient(value)]
        }),
        ({
            let (t, actions) = c.next(ClientEvent::Drained { latest: None, open: true });
            &&& t.latest_ambient == c.latest_ambient
            &&& c.phase == ClientPhase::DrainingAgain && c.latest_ambient is None ==> t.phase
                == ClientPhase::AttachingBus && actions =~= seq![ClientAction::AttachBus]
        }),
        ({
            let (t, actions) = c.next(ClientEvent::Drained { latest: None, open: false });
            t.phase == ClientPhase::Ended && actions =~= seq![ClientAction::WithdrawConnection]
        }),
{
}

/// What the root daemon tells is passed on as it was told: the cable, the dock with five seconds for
/// its handler, the lower panel with eight, the primary panel, and a brightness that is not zero.
pub proof fn law_news_is_passed_on(c: SessionClient, value: bool, name: String, level: u32)
    requires
        c.phase == ClientPhase::Running,
    ensures
        c.next(ClientEvent::UsbConnected(value)).0 == c,
        c.next(ClientEvent::UsbConnected(value)).1 =~= seq![ClientAction::SendUsb(value)],
        c.next(ClientEvent::PogoDocked(value)).0 == c,
        c.next(ClientEvent::PogoDocked(value)).1 =~= seq![
            ClientAction::SendDock { docked: value, secs: 5 },
        ],
        c.next(ClientEvent::DesiredSecondary(value)).0 == c,
        c.next(ClientEvent::DesiredSecondary(value)).1 =~= seq![
            ClientAction::ApplySecondary { enabled: value, secs: 8 },
        ],
        c.next(ClientEvent::DesiredPrimary(name)).0 == c,
        c.next(ClientEvent::DesiredPrimary(name)).1 =~= seq![ClientAction::ApplyPrimary(name)],
        c.next(ClientEvent::Brightness(level)).0 == c,
        level > 0 ==> c.next(ClientEvent::Brightness(level)).1 =~= seq![
            ClientAction::ApplyBrightness(level),
        ],
        level == 0 ==> c.next(ClientEvent::Brightness(level)).1.len() == 0,
        c.next(ClientEvent::TabletApply).0 == c,
        c.next(ClientEvent::TabletApply).1 =~= seq![ClientAction::MapPens],
        c.next(ClientEvent::OwnerKept) == (c, Seq::<ClientAction>::empty()),
        c.next(ClientEvent::Unreadable) == (c, Seq::<ClientAction>::empty()),
{
}

/// A change of the light setting is remembered and reported.
pub proof fn law_light_setting_is_reported(c: SessionClient, value: bool)
    requires
        c.phase == ClientPhase::Running,
    ensures
        ({
            let (t, actions) = c.next(ClientEvent::Ambient(Some(value)));
            &&& t.phase == ClientPhase::Reporting
            &&& t.latest_ambient == Some(value)
            &&& t.tablet == c.tablet
            &&& actions =~= seq![ClientAction::ReportAmbient(value)]
        }),
{
}

/// The pens' mapping is taken as it was read, an unknown mode as one to one, and the pens are mapped
/// exactly if it has changed; what could not be read changes nothing.
pub proof fn law_mapping_is_taken_over(c: SessionClient, enabled: bool, mode: String)
    requires
        c.phase == ClientPhase::Running,
    ensures
        ({
            let (t, actions) = c.next(
                ClientEvent::TabletMapping { enabled: Some(enabled), mode: Some(mode) },
            );
            &&& t.tablet.enable == enabled
            &&& t.tablet.mode == TabletMapMode::AllToPrimary <==> mode@ == "all_to_primary"@
            &&& t.tablet.mode == TabletMapMode::OneToOne <==> mode@ != "all_to_primary"@
            &&& t.phase == c.phase && t.latest_ambient == c.latest_ambient
            &&& t.tablet != c.tablet ==> actions =~= seq![ClientAction::MapPens]
            &&& t.tablet == c.tablet ==> actions.len() == 0
        }),
        c.next(ClientEvent::TabletMapping { enabled: None, mode: Some(mode) }) == (
            c,
            Seq::<ClientAction>::empty(),
        ),
        c.next(ClientEvent::TabletMapping { enabled: Some(enabled), mode: None }) == (
            c,
            Seq::<ClientAction>::empty(),
        ),
{
    crate::config::law_mode_names(mode@);
}

/// Before a connection stands, what the root daemon would tell has no effect.
pub proof fn law_no_news_before_the_connection_stands(c: SessionClient, value: bool)
    requires
        c.phase != ClientPhase::Running,
    ensures
        c.next(ClientEvent::UsbConnected(value)) == (c, Seq::<ClientAction>::empty()),
        c.next(ClientEvent::PogoDocked(value)) == (c, Seq::<ClientAction>::empty()),
        c.next(ClientEvent::DesiredSecondary(value)) == (c, Seq::<ClientAction>::empty()),
        c.next(ClientEvent::Ambient(Some(value))) == (c, Seq::<ClientAction>::empty()),
        c.next(ClientEvent::OwnerLost) == (c, Seq::<ClientAction>::empty()),
{
}

/// The root daemon's word decides; a sender that it does not know registers again, once, and asks
/// again; any other failure is told.
pub proof fn law_request_for_permission(refusal: Option<Seq<char>>, error: String)
    ensures
        permit_next(refusal, PermitEvent::Answered(Ok(true))).1 == PermitStepView::Decided(
            Ok(DisplayApplyPermit::Allowed),
        ),
        permit_next(refusal, PermitEvent::Answered(Ok(false))).1 == PermitStepView::Decided(
            Ok(DisplayApplyPermit::Paused),
        ),
        refusal is None && crate::text::contains_text(
            error@,
            "does not match registered session"@,
        ) ==> permit_next(refusal, PermitEvent::Answered(Err(error))) == (
            Some(error@),
            PermitStepView::Register,
        ),
        refusal is Some || !crate::text::contains_text(
            error@,
            "does not match registered session"@,
        ) ==> permit_next(refusal, PermitEvent::Answered(Err(error))) == (
            refusal,
            PermitStepView::Decided(Err("register_display_apply_attempt: "@ + error@)),
        ),
        permit_next(refusal, PermitEvent::Registered(Ok(()))) == (refusal, PermitStepView::Ask),
        refusal matches Some(text) ==> permit_next(refusal, PermitEvent::Registered(Err(error))).1
            == PermitStepView::Decided(
            Err(
                "register_session after display guard sender mismatch: "@ + error@ + " (was: "@
                    + text + ")"@,
            ),
        ),
        permit_next(refusal, PermitEvent::Unattached(error)).1 == PermitStepView::Decided(
            Err("root state proxy for display apply guard: "@ + error@),
        ),
{
}

/// Only a step that is being taken can succeed or fail: word of one at any other time, a wait that is
/// over and an emptied queue out of turn change nothing.
pub proof fn law_answers_out_of_turn(c: SessionClient, ok: bool, latest: Option<bool>, open: bool)
    ensures
        c.phase == ClientPhase::Draining || c.phase == ClientPhase::DrainingAgain || c.phase
            == ClientPhase::Running || c.phase == ClientPhase::Waiting || c.phase
            == ClientPhase::Ended ==> c.next(ClientEvent::Done(ok)) == (
            c,
            Seq::<ClientAction>::empty(),
        ),
        c.phase != ClientPhase::Waiting ==> c.next(ClientEvent::Waited) == (
            c,
            Seq::<ClientAction>::empty(),
        ),
        c.phase != ClientPhase::Draining && c.phase != ClientPhase::DrainingAgain ==> c.next(
            ClientEvent::Drained { latest, open },
        ) == (c, Seq::<ClientAction>::empty()),
        c.shared() <==> c.phase == ClientPhase::DrainingAgain || c.phase == ClientPhase::Replaying
            || c.phase == ClientPhase::AttachingBus || c.phase == ClientPhase::WatchingOwner
            || c.phase == ClientPhase::Running || c.phase == ClientPhase::Reporting,
{
}

/// The steps of a request for permission are seen as they are.
pub proof fn law_permit_steps_are_seen_as_they_are(permit: DisplayApplyPermit, text: String)
    ensures
        PermitStep::Ask@ is Ask,
        PermitStep::Register@ is Register,
        PermitStep::Decided(Ok(permit))@ == PermitStepView::Decided(Ok(permit)),
        PermitStep::Decided(Err(text))@ == PermitStepView::Decided(Err(text@)),
{
}

} // verus!
