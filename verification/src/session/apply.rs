//! One attempt to bring the compositor to the desired layout: read the state, plan, ask the root
//! daemon for permission, apply, and verify what came of it.
use vstd::prelude::*;

use crate::dbus_state::DisplayApplyPermit;
use crate::session::display::{
    adjust_offset_pixel, build_duo_lms, extract_all_modes, find_mode_matching_size,
    is_non_adjacent_error, read_current_config, requested_layout_matches_full, ApplyLm,
    LogicalMonitor, PhysicalMonitor, MonitorMode, EDPTWO_PRIMARY_PHASE1_STABILITY_MS,
};
use crate::session::display::ApplyLmView;
use crate::text::same;

verus! {

/// Delay between the final apply and its verification.
pub const VERIFY_DELAY_MS: u64 = 100;

/// Why an attempt failed.
pub enum DisplayApplyError {
    /// The root daemon's guard is paused or over budget.
    GuardPaused,
    /// The root daemon could not be asked.
    GuardCheck(String),
    /// The compositor refused, or did not do as asked.
    Apply(String),
}

pub enum DisplayApplyErrorView {
    GuardPaused,
    GuardCheck(Seq<char>),
    Apply(Seq<char>),
}

impl View for DisplayApplyError {
    type V = DisplayApplyErrorView;

    open spec fn view(&self) -> DisplayApplyErrorView {
        match self {
            DisplayApplyError::GuardPaused => DisplayApplyErrorView::GuardPaused,
            DisplayApplyError::GuardCheck(s) => DisplayApplyErrorView::GuardCheck(s@),
            DisplayApplyError::Apply(s) => DisplayApplyErrorView::Apply(s@),
        }
    }
}

impl DisplayApplyErrorView {
    /// The guard, not the compositor, stood in the way.
    pub open spec fn guard_block(self) -> bool {
        !(self is Apply)
    }

    pub open spec fn text(self) -> Seq<char> {
        match self {
            DisplayApplyErrorView::GuardPaused =>
                "root display apply guard is paused — run sudo zenbook-duo-daemon resume-display-applies"@,
            DisplayApplyErrorView::GuardCheck(s) => "display apply guard unreachable: "@ + s,
            DisplayApplyErrorView::Apply(s) => s,
        }
    }
}

impl DisplayApplyError {
    /// Whether the guard stood in the way: such a failure must not start a recovery.
    pub fn is_guard_block(&self) -> (r: bool)
        ensures
            r == self@.guard_block(),
    {
        match self {
            DisplayApplyError::GuardPaused => true,
            DisplayApplyError::GuardCheck(_) => true,
            DisplayApplyError::Apply(_) => false,
        }
    }

    /// The failure in words.
    pub fn message(&self) -> (r: String)
        ensures
            r@ == self@.text(),
    {
        match self {
            DisplayApplyError::GuardPaused =>
                "root display apply guard is paused — run sudo zenbook-duo-daemon resume-display-applies".to_owned(),
            DisplayApplyError::GuardCheck(s) => crate::text::join2(
                "display apply guard unreachable: ",
                s.as_str(),
            ),
            DisplayApplyError::Apply(s) => s.clone(),
        }
    }
}

/// What the compositor reports.
pub struct Snapshot {
    pub serial: u32,
    pub physical: Vec<PhysicalMonitor>,
    pub logical: Vec<LogicalMonitor>,
}

/// What the layout should follow from.
pub struct DisplayRequest {
    pub keyboard_attached: bool,
    pub secondary_enabled: bool,
    pub primary: String,
    pub transform: u32,
}

pub struct DisplayRequestView {
    pub keyboard_attached: bool,
    pub secondary_enabled: bool,
    pub primary: Seq<char>,
    pub transform: u32,
}

impl View for DisplayRequest {
    type V = DisplayRequestView;

    open spec fn view(&self) -> DisplayRequestView {
        DisplayRequestView {
            keyboard_attached: self.keyboard_attached,
            secondary_enabled: self.secondary_enabled,
            primary: self.primary@,
            transform: self.transform,
        }
    }
}

/// The lower panel takes part: it is wanted and the keyboard does not lie on it.
pub open spec fn secondary_effective(secondary_enabled: bool, keyboard_attached: bool) -> bool {
    secondary_enabled && !keyboard_attached
}

/// Whether the lower panel takes part.
pub fn effective_secondary_enabled(desired_secondary_enabled: bool, keyboard_attached: bool) -> (r:
    bool)
    ensures
        r == secondary_effective(desired_secondary_enabled, keyboard_attached),
{
    desired_secondary_enabled && !keyboard_attached
}

// ── Plan ─────────────────────────────────────────────────────────────────────

/// The layout that a request asks for, given what is connected. Both panels are used when the
/// lower one is present and takes part; the lower one is primary only then, and only on request.
/// Its mode is the one with the size of eDP-1's mode, if it has one.
pub open spec fn desired_layout(
    physical: Seq<PhysicalMonitor>,
    request: DisplayRequestView,
) -> Option<Seq<ApplyLmView>> {
    let modes = crate::session::display::modes_by_connector(physical);
    if !modes.contains_key("eDP-1"@) {
        None
    } else {
        let edp1 = modes["eDP-1"@];
        if !both_panels(physical, request) {
            Some(crate::session::display::duo_layout("eDP-1"@, edp1, None, request.transform))
        } else if request.primary == "eDP-2"@ {
            Some(
                crate::session::display::duo_layout(
                    "eDP-2"@,
                    edp2_mode(physical),
                    Some(("eDP-1"@, edp1)),
                    request.transform,
                ),
            )
        } else {
            Some(
                crate::session::display::duo_layout(
                    "eDP-1"@,
                    edp1,
                    Some(("eDP-2"@, edp2_mode(physical))),
                    request.transform,
                ),
            )
        }
    }
}

/// The lower panel is present and takes part.
pub open spec fn both_panels(physical: Seq<PhysicalMonitor>, request: DisplayRequestView) -> bool {
    crate::session::display::modes_by_connector(physical).contains_key("eDP-2"@)
        && secondary_effective(request.secondary_enabled, request.keyboard_attached)
}

/// The mode in which the lower panel is used beside eDP-1.
pub open spec fn edp2_mode(physical: Seq<PhysicalMonitor>) -> MonitorMode {
    let modes = crate::session::display::modes_by_connector(physical);
    let edp1 = modes["eDP-1"@];
    match crate::session::display::mode_matching_size(
        physical,
        "eDP-2"@,
        edp1.width,
        edp1.height,
    ) {
        Some(m) => m,
        None => modes["eDP-2"@],
    }
}

/// The present layout is free of duplicates and is the given one.
pub open spec fn shows(snapshot: Snapshot, layout: Seq<ApplyLmView>) -> bool {
    !crate::session::display::corrupted(snapshot.logical@)
        && crate::session::display::layout_matches(
        layout,
        crate::session::display::config_of(snapshot.logical@),
        crate::session::display::modes_by_connector(snapshot.physical@),
    )
}

/// Only eDP-1 is in use now while both panels with eDP-2 primary are asked for. Enabling a panel
/// and moving the primary in one apply leaves the compositor inconsistent, so this takes two.
pub open spec fn needs_two_phases(snapshot: Snapshot, request: DisplayRequestView) -> bool {
    &&& !crate::session::display::corrupted(snapshot.logical@)
    &&& both_panels(snapshot.physical@, request)
    &&& request.primary == "eDP-2"@
    &&& snapshot.logical@.len() == 1
    &&& crate::session::display_mode::bound_connectors(snapshot.logical@) == seq!["eDP-1"@]
}

/// What an attempt sets out to do.
pub enum Plan {
    /// The layout is already as desired.
    NoChange,
    /// eDP-1 has no mode.
    NoEdp1Mode,
    /// Apply `intermediate` first if it is there, then `desired`.
    Change { intermediate: Option<Vec<ApplyLm>>, desired: Vec<ApplyLm> },
}

pub enum PlanView {
    NoChange,
    NoEdp1Mode,
    Change { intermediate: Option<Seq<ApplyLmView>>, desired: Seq<ApplyLmView> },
}

impl View for Plan {
    type V = PlanView;

    open spec fn view(&self) -> PlanView {
        match self {
            Plan::NoChange => PlanView::NoChange,
            Plan::NoEdp1Mode => PlanView::NoEdp1Mode,
            Plan::Change { intermediate, desired } => PlanView::Change {
                intermediate: match intermediate {
                    Some(lms) => Some(crate::session::display::layout_view(lms@)),
                    None => None,
                },
                desired: crate::session::display::layout_view(desired@),
            },
        }
    }
}

pub open spec fn plan_for(snapshot: Snapshot, request: DisplayRequestView) -> PlanView {
    match desired_layout(snapshot.physical@, request) {
        None => PlanView::NoEdp1Mode,
        Some(desired) => if shows(snapshot, desired) {
            PlanView::NoChange
        } else if needs_two_phases(snapshot, request) {
            PlanView::Change {
                intermediate: desired_layout(
                    snapshot.physical@,
                    (DisplayRequestView { primary: "eDP-1"@, ..request }),
                ),
                desired,
            }
        } else {
            PlanView::Change { intermediate: None, desired }
        },
    }
}

fn shows_only_edp1(logical: &Vec<LogicalMonitor>) -> (r: bool)
    ensures
        r == (logical@.len() == 1 && crate::session::display_mode::bound_connectors(logical@)
            == seq!["eDP-1"@]),
{
    if logical.len() != 1 {
        return false;
    }
    let connectors = &logical[0].connectors;
    let ghost bound = crate::session::display_mode::bound_connectors(logical@);
    proof {
        assert(logical@.drop_last() =~= Seq::empty());
        assert(crate::session::display_mode::bound_connectors(Seq::empty()) =~= Seq::empty());
        assert(logical@.last() == logical@[0]);
        assert(bound =~= crate::text::texts(connectors@));
    }
    if connectors.len() != 1 {
        proof {
            assert(bound.len() != 1);
        }
        return false;
    }
    let only = same(connectors[0].as_str(), "eDP-1");
    proof {
        assert(bound[0] == connectors@[0]@);
        assert(only ==> bound =~= seq!["eDP-1"@]);
        assert(seq!["eDP-1"@][0] == "eDP-1"@);
    }
    only
}

/// Plans one attempt.
pub fn plan(snapshot: &Snapshot, request: &DisplayRequest) -> (r: Plan)
    ensures
        r@ == plan_for(*snapshot, request@),
{
    proof {
        reveal_strlit("eDP-1");
        reveal_strlit("eDP-2");
        assert("eDP-1"@[4] != "eDP-2"@[4]);
    }
    let modes = extract_all_modes(&snapshot.physical);
    let (config, is_corrupted) = read_current_config(&snapshot.logical);
    let edp1 = match modes.get("eDP-1") {
        Some(m) => m,
        None => return Plan::NoEdp1Mode,
    };
    let edp2_present = modes.get("eDP-2");
    let duo = match edp2_present {
        Some(m) => if effective_secondary_enabled(
            request.secondary_enabled,
            request.keyboard_attached,
        ) {
            match find_mode_matching_size(&snapshot.physical, "eDP-2", edp1.width, edp1.height) {
                Some(sized) => Some(sized),
                None => Some(m.clone()),
            }
        } else {
            None
        },
        None => None,
    };
    let edp2_primary = same(request.primary.as_str(), "eDP-2");
    let desired = match &duo {
        Some(edp2) => if edp2_primary {
            build_duo_lms("eDP-2", edp2, Some(("eDP-1", edp1)), request.transform)
        } else {
            build_duo_lms("eDP-1", edp1, Some(("eDP-2", edp2)), request.transform)
        },
        None => build_duo_lms("eDP-1", edp1, None, request.transform),
    };
    if !is_corrupted && requested_layout_matches_full(&desired, &config, &modes) {
        return Plan::NoChange;
    }
    let intermediate = match &duo {
        Some(edp2) => if !is_corrupted && edp2_primary && shows_only_edp1(&snapshot.logical) {
            Some(build_duo_lms("eDP-1", edp1, Some(("eDP-2", edp2)), request.transform))
        } else {
            None
        },
        None => None,
    };
    Plan::Change { intermediate, desired }
}

// ── The attempt as a sequence of commands and replies ────────────────────────

/// Where an attempt stands: the reply that it waits for.
#[derive(Clone, Copy, Debug, PartialEq, Eq, Structural)]
pub enum ApplyPhase {
    ReadState,
    Phase1Permit,
    Phase1Apply,
    Phase1Settle,
    Phase1Check,
    Permit,
    Apply,
    Settle,
    Verify,
    Finished,
}

/// A reply to a command.
pub enum ApplyEvent {
    State(Result<Snapshot, String>),
    Permit(Result<DisplayApplyPermit, String>),
    Applied(Result<(), String>),
    Slept,
}

/// What to do next.
pub enum ApplyCommand {
    ReadState,
    RequestPermit,
    Apply { serial: u32, lms: Vec<ApplyLm> },
    Sleep { ms: u64 },
    /// The attempt is over: `Ok(true)` after a verified change, `Ok(false)` where none was needed.
    Done(Result<bool, DisplayApplyError>),
}

pub enum ApplyCommandView {
    ReadState,
    RequestPermit,
    Apply { serial: u32, layout: Seq<ApplyLmView> },
    Sleep { ms: u64 },
    Done(Result<bool, DisplayApplyErrorView>),
}

impl View for ApplyCommand {
    type V = ApplyCommandView;

    open spec fn view(&self) -> ApplyCommandView {
        match self {
            ApplyCommand::ReadState => ApplyCommandView::ReadState,
            ApplyCommand::RequestPermit => ApplyCommandView::RequestPermit,
            ApplyCommand::Apply { serial, lms } => ApplyCommandView::Apply {
                serial: *serial,
                layout: crate::session::display::layout_view(lms@),
            },
            ApplyCommand::Sleep { ms } => ApplyCommandView::Sleep { ms: *ms },
            ApplyCommand::Done(Ok(b)) => ApplyCommandView::Done(Ok(*b)),
            ApplyCommand::Done(Err(e)) => ApplyCommandView::Done(Err(e@)),
        }
    }
}

/// An attempt in progress.
pub struct ApplyRun {
    request: DisplayRequest,
    phase: ApplyPhase,
    /// Applies of the current layout that the compositor has refused as not adjacent.
    refused: u8,
    serial: u32,
    intermediate: Vec<ApplyLm>,
    desired: Vec<ApplyLm>,
}

pub struct ApplyRunView {
    pub request: DisplayRequestView,
    pub phase: ApplyPhase,
    pub refused: int,
    pub serial: u32,
    pub intermediate: Seq<ApplyLmView>,
    pub desired: Seq<ApplyLmView>,
}

impl View for ApplyRun {
    type V = ApplyRunView;

    closed spec fn view(&self) -> ApplyRunView {
        ApplyRunView {
            request: self.request@,
            phase: self.phase,
            refused: self.refused as int,
            serial: self.serial,
            intermediate: crate::session::display::layout_view(self.intermediate@),
            desired: crate::session::display::layout_view(self.desired@),
        }
    }
}

/// A layout whose coordinates can be moved by a pixel either way.
pub open spec fn adjustable(layout: Seq<ApplyLmView>) -> bool {
    forall|i: int|
        0 <= i < layout.len() ==> i32::MIN < (#[trigger] layout[i]).x < i32::MAX && i32::MIN
            < layout[i].y < i32::MAX
}

impl PlanView {
    /// Every layout that the plan applies can be moved by a pixel either way.
    pub open spec fn movable(self) -> bool {
        match self {
            PlanView::Change { intermediate, desired } => adjustable(desired) && (
            intermediate matches Some(first) ==> adjustable(first)),
            _ => true,
        }
    }
}

impl ApplyRunView {
    pub open spec fn well_formed(self) -> bool {
        &&& 0 <= self.refused <= 2
        &&& adjustable(self.intermediate)
        &&& adjustable(self.desired)
    }

    /// The state that was read can be worked with: what is planned on it at the beginning has
    /// coordinates that can be moved.
    pub open spec fn admits(self, snapshot: Snapshot) -> bool {
        self.phase == ApplyPhase::ReadState ==> plan_for(snapshot, self.request).movable()
    }

    /// The reply is one to the last command.
    pub open spec fn expects(self, event: ApplyEvent) -> bool {
        match self.phase {
            ApplyPhase::ReadState => event matches ApplyEvent::State(s) && (s matches Ok(snap)
                ==> self.admits(snap)),
            ApplyPhase::Phase1Check | ApplyPhase::Verify => event is State,
            ApplyPhase::Phase1Permit | ApplyPhase::Permit => event is Permit,
            ApplyPhase::Phase1Apply | ApplyPhase::Apply => event is Applied,
            ApplyPhase::Phase1Settle | ApplyPhase::Settle => event is Slept,
            ApplyPhase::Finished => false,
        }
    }

    pub open spec fn at(self, phase: ApplyPhase) -> ApplyRunView {
        ApplyRunView { phase, ..self }
    }

    /// The attempt ends with an error.
    pub open spec fn fail(self, e: DisplayApplyErrorView) -> (ApplyRunView, ApplyCommandView) {
        (self.at(ApplyPhase::Finished), ApplyCommandView::Done(Err(e)))
    }

    pub open spec fn fail_apply(self, text: Seq<char>) -> (ApplyRunView, ApplyCommandView) {
        self.fail(DisplayApplyErrorView::Apply(text))
    }

    /// A permission was asked for: without it the attempt ends, with it `layout` is applied.
    pub open spec fn permitted(
        self,
        reply: Result<DisplayApplyPermit, String>,
        phase: ApplyPhase,
        layout: Seq<ApplyLmView>,
    ) -> (ApplyRunView, ApplyCommandView) {
        match reply {
            Ok(DisplayApplyPermit::Allowed) => (
                ApplyRunView { phase, refused: 0, ..self },
                ApplyCommandView::Apply { serial: self.serial, layout },
            ),
            Ok(DisplayApplyPermit::Paused) => self.fail(DisplayApplyErrorView::GuardPaused),
            Err(e) => self.fail(DisplayApplyErrorView::GuardCheck(e@)),
        }
    }

    /// The compositor refused a layout of two panels. A refusal for want of adjacency is met with
    /// the layout moved by one pixel forth, then back; a third one is final.
    pub open spec fn retried(
        self,
        layout: Seq<ApplyLmView>,
        error: Seq<char>,
        unrecoverable: Seq<char>,
    ) -> (ApplyRunView, ApplyCommandView) {
        if !crate::session::display::non_adjacent(crate::text::lowercase(error)) {
            self.fail_apply(error)
        } else if self.refused == 0 {
            (
                ApplyRunView { refused: 1, ..self },
                ApplyCommandView::Apply {
                    serial: self.serial,
                    layout: crate::session::display::shifted_layout(
                        layout,
                        self.request.transform,
                        1,
                    ),
                },
            )
        } else if self.refused == 1 {
            (
                ApplyRunView { refused: 2, ..self },
                ApplyCommandView::Apply {
                    serial: self.serial,
                    layout: crate::session::display::shifted_layout(
                        layout,
                        self.request.transform,
                        -1,
                    ),
                },
            )
        } else {
            self.fail_apply(unrecoverable)
        }
    }

    /// The state has been read: follow the plan.
    pub open spec fn planned(self, snapshot: Snapshot) -> (ApplyRunView, ApplyCommandView) {
        match plan_for(snapshot, self.request) {
            PlanView::NoEdp1Mode => self.fail_apply("No mode found for eDP-1"@),
            PlanView::NoChange => (
                self.at(ApplyPhase::Finished),
                ApplyCommandView::Done(Ok(false)),
            ),
            PlanView::Change { intermediate: Some(first), desired } => (
                ApplyRunView {
                    phase: ApplyPhase::Phase1Permit,
                    serial: snapshot.serial,
                    intermediate: first,
                    desired,
                    ..self
                },
                ApplyCommandView::RequestPermit,
            ),
            PlanView::Change { intermediate: None, desired } => (
                ApplyRunView {
                    phase: ApplyPhase::Permit,
                    serial: snapshot.serial,
                    desired,
                    ..self
                },
                ApplyCommandView::RequestPermit,
            ),
        }
    }

    /// The first of two phases has settled: both panels must be in use, each once.
    pub open spec fn phase1_checked(self, snapshot: Snapshot) -> (ApplyRunView, ApplyCommandView) {
        let config = crate::session::display::config_of(snapshot.logical@);
        if crate::session::display::corrupted(snapshot.logical@) || !config.contains_key("eDP-1"@)
            || !config.contains_key("eDP-2"@) {
            self.fail_apply("Two-phase eDP-2 primary: phase 1 did not leave a stable dual layout"@)
        } else {
            (
                ApplyRunView { phase: ApplyPhase::Permit, serial: snapshot.serial, ..self },
                ApplyCommandView::RequestPermit,
            )
        }
    }

    /// The final layout has settled: it must be the desired one.
    pub open spec fn verified(self, snapshot: Snapshot) -> (ApplyRunView, ApplyCommandView) {
        if shows(snapshot, self.desired) {
            (self.at(ApplyPhase::Finished), ApplyCommandView::Done(Ok(true)))
        } else {
            self.fail_apply("Desired display layout mismatch after apply"@)
        }
    }

    /// How an attempt goes on after a reply.
    pub open spec fn step(self, event: ApplyEvent) -> (ApplyRunView, ApplyCommandView) {
        match (self.phase, event) {
            (ApplyPhase::ReadState, ApplyEvent::State(Ok(snapshot))) => self.planned(snapshot),
            (ApplyPhase::Phase1Check, ApplyEvent::State(Ok(snapshot))) => self.phase1_checked(
                snapshot,
            ),
            (ApplyPhase::Verify, ApplyEvent::State(Ok(snapshot))) => self.verified(snapshot),
            (_, ApplyEvent::State(Err(e))) => self.fail_apply(e@),
            (ApplyPhase::Phase1Permit, ApplyEvent::Permit(reply)) => self.permitted(
                reply,
                ApplyPhase::Phase1Apply,
                self.intermediate,
            ),
            (ApplyPhase::Permit, ApplyEvent::Permit(reply)) => self.permitted(
                reply,
                ApplyPhase::Apply,
                self.desired,
            ),
            (ApplyPhase::Phase1Apply, ApplyEvent::Applied(Ok(_))) => (
                self.at(ApplyPhase::Phase1Settle),
                ApplyCommandView::Sleep { ms: EDPTWO_PRIMARY_PHASE1_STABILITY_MS },
            ),
            (ApplyPhase::Phase1Apply, ApplyEvent::Applied(Err(e))) => self.retried(
                self.intermediate,
                e@,
                "Two-phase eDP-2 primary: phase 1 failed (dual layout with eDP-1 primary)"@,
            ),
            (ApplyPhase::Apply, ApplyEvent::Applied(Ok(_))) => (
                self.at(ApplyPhase::Settle),
                ApplyCommandView::Sleep { ms: VERIFY_DELAY_MS },
            ),
            (ApplyPhase::Apply, ApplyEvent::Applied(Err(e))) => if self.desired.len() == 2 {
                self.retried(
                    self.desired,
                    e@,
                    "Failed to apply desired dual-monitor layout after adjacency correction"@,
                )
            } else {
                self.fail_apply(e@)
            },
            (ApplyPhase::Phase1Settle, _) => (
                self.at(ApplyPhase::Phase1Check),
                ApplyCommandView::ReadState,
            ),
            (ApplyPhase::Settle, _) => (self.at(ApplyPhase::Verify), ApplyCommandView::ReadState),
            _ => (self, ApplyCommandView::ReadState),
        }
    }
}

proof fn lemma_shift_fits(layout: Seq<ApplyLmView>, transform: u32, delta: int)
    requires
        adjustable(layout),
        -1 <= delta <= 1,
    ensures
        crate::session::display::fits(
            crate::session::display::shifted_layout(layout, transform, delta),
        ),
{
    let moved = crate::session::display::shifted_layout(layout, transform, delta);
    assert forall|i: int| 0 <= i < moved.len() implies i32::MIN <= (#[trigger] moved[i]).x
        <= i32::MAX && i32::MIN <= moved[i].y <= i32::MAX by {
        assert(moved[i] == crate::session::display::shifted(layout[i], transform, delta));
    }
}

fn copy_layout(lms: &Vec<ApplyLm>) -> (r: Vec<ApplyLm>)
    ensures
        crate::session::display::layout_view(r@) == crate::session::display::layout_view(lms@),
{
    let mut out: Vec<ApplyLm> = Vec::new();
    let mut i: usize = 0;
    while i < lms.len()
        invariant
            i <= lms@.len(),
            out@ =~= lms@.take(i as int),
        decreases lms@.len() - i,
    {
        out.push(lms[i].clone());
        i = i + 1;
    }
    proof {
        assert(out@ =~= lms@);
    }
    out
}

fn is_adjustable(lms: &Vec<ApplyLm>) -> (r: bool)
    ensures
        r == adjustable(crate::session::display::layout_view(lms@)),
{
    let ghost layout = crate::session::display::layout_view(lms@);
    let mut i: usize = 0;
    while i < lms.len()
        invariant
            i <= lms@.len(),
            layout == crate::session::display::layout_view(lms@),
            forall|k: int|
                0 <= k < i ==> i32::MIN < (#[trigger] layout[k]).x < i32::MAX && i32::MIN
                    < layout[k].y < i32::MAX,
        decreases lms@.len() - i,
    {
        let lm = &lms[i];
        proof {
            assert(layout[i as int] == lm@);
        }
        if lm.x == i32::MIN || lm.x == i32::MAX || lm.y == i32::MIN || lm.y == i32::MAX {
            return false;
        }
        i = i + 1;
    }
    true
}

impl ApplyRun {
    /// Starts an attempt: the first command is to read the state.
    pub fn start(request: DisplayRequest) -> (r: (Self, ApplyCommand))
        ensures
            r.0@.well_formed(),
            r.0@ == (ApplyRunView {
                request: request@,
                phase: ApplyPhase::ReadState,
                refused: 0,
                serial: 0,
                intermediate: Seq::empty(),
                desired: Seq::empty(),
            }),
            r.1@ == ApplyCommandView::ReadState,
    {
        let run = ApplyRun {
            request,
            phase: ApplyPhase::ReadState,
            refused: 0,
            serial: 0,
            intermediate: Vec::new(),
            desired: Vec::new(),
        };
        proof {
            assert(run@.intermediate =~= Seq::empty());
            assert(run@.desired =~= Seq::empty());
        }
        (run, ApplyCommand::ReadState)
    }

    /// The reply that the attempt waits for.
    pub fn phase(&self) -> (r: ApplyPhase)
        ensures
            r == self@.phase,
    {
        self.phase
    }

    /// Whether a state that was read can be handed to [`ApplyRun::step`].
    pub fn accepts(&self, snapshot: &Snapshot) -> (r: bool)
        ensures
            r == self@.admits(*snapshot),
    {
        if self.phase != ApplyPhase::ReadState {
            return true;
        }
        match plan(snapshot, &self.request) {
            Plan::Change { intermediate, desired } => {
                let first = match &intermediate {
                    Some(first) => is_adjustable(first),
                    None => true,
                };
                first && is_adjustable(&desired)
            },
            _ => true,
        }
    }

    fn fail(&mut self, e: DisplayApplyError) -> (r: ApplyCommand)
        ensures
            (final(self)@, r@) == old(self)@.fail(e@),
    {
        self.phase = ApplyPhase::Finished;
        ApplyCommand::Done(Err(e))
    }

    fn fail_apply(&mut self, text: &str) -> (r: ApplyCommand)
        ensures
            (final(self)@, r@) == old(self)@.fail_apply(text@),
    {
        self.fail(DisplayApplyError::Apply(text.to_owned()))
    }

    fn on_state(&mut self, snapshot: Snapshot) -> (r: ApplyCommand)
        requires
            old(self)@.well_formed(),
            plan_for(snapshot, old(self)@.request).movable(),
        ensures
            (final(self)@, r@) == old(self)@.planned(snapshot),
            final(self)@.well_formed(),
    {
        match plan(&snapshot, &self.request) {
            Plan::NoEdp1Mode => self.fail_apply("No mode found for eDP-1"),
            Plan::NoChange => {
                self.phase = ApplyPhase::Finished;
                ApplyCommand::Done(Ok(false))
            },
            Plan::Change { intermediate: Some(first), desired } => {
                self.phase = ApplyPhase::Phase1Permit;
                self.serial = snapshot.serial;
                self.intermediate = first;
                self.desired = desired;
                ApplyCommand::RequestPermit
            },
            Plan::Change { intermediate: None, desired } => {
                self.phase = ApplyPhase::Permit;
                self.serial = snapshot.serial;
                self.desired = desired;
                ApplyCommand::RequestPermit
            },
        }
    }

    fn on_permit(&mut self, reply: Result<DisplayApplyPermit, String>) -> (r: ApplyCommand)
        requires
            old(self)@.phase == ApplyPhase::Phase1Permit || old(self)@.phase == ApplyPhase::Permit,
        ensures
            (final(self)@, r@) == old(self)@.step(ApplyEvent::Permit(reply)),
    {
        match reply {
            Ok(DisplayApplyPermit::Allowed) => {
                self.refused = 0;
                if self.phase == ApplyPhase::Phase1Permit {
                    self.phase = ApplyPhase::Phase1Apply;
                    ApplyCommand::Apply {
                        serial: self.serial,
                        lms: copy_layout(&self.intermediate),
                    }
                } else {
                    self.phase = ApplyPhase::Apply;
                    ApplyCommand::Apply { serial: self.serial, lms: copy_layout(&self.desired) }
                }
            },
            Ok(DisplayApplyPermit::Paused) => self.fail(DisplayApplyError::GuardPaused),
            Err(e) => self.fail(DisplayApplyError::GuardCheck(e)),
        }
    }

    fn on_refusal(&mut self, error: String, unrecoverable: &str) -> (r: ApplyCommand)
        requires
            old(self)@.well_formed(),
            old(self)@.phase == ApplyPhase::Phase1Apply || old(self)@.phase == ApplyPhase::Apply,
        ensures
            (final(self)@, r@) == old(self)@.retried(
                if old(self)@.phase == ApplyPhase::Phase1Apply {
                    old(self)@.intermediate
                } else {
                    old(self)@.desired
                },
                error@,
                unrecoverable@,
            ),
            final(self)@.well_formed(),
    {
        if !is_non_adjacent_error(error.as_str()) {
            return self.fail(DisplayApplyError::Apply(error));
        }
        if self.refused >= 2 {
            return self.fail_apply(unrecoverable);
        }
        let delta: i32 = if self.refused == 0 {
            1
        } else {
            -1
        };
        proof {
            lemma_shift_fits(self@.intermediate, self.request.transform, delta as int);
            lemma_shift_fits(self@.desired, self.request.transform, delta as int);
        }
        self.refused = self.refused + 1;
        let lms = if self.phase == ApplyPhase::Phase1Apply {
            adjust_offset_pixel(&self.intermediate, self.request.transform, delta)
        } else {
            adjust_offset_pixel(&self.desired, self.request.transform, delta)
        };
        ApplyCommand::Apply { serial: self.serial, lms }
    }

    fn on_applied(&mut self, reply: Result<(), String>) -> (r: ApplyCommand)
        requires
            old(self)@.well_formed(),
            old(self)@.phase == ApplyPhase::Phase1Apply || old(self)@.phase == ApplyPhase::Apply,
        ensures
            (final(self)@, r@) == old(self)@.step(ApplyEvent::Applied(reply)),
            final(self)@.well_formed(),
    {
        match reply {
            Ok(_) => if self.phase == ApplyPhase::Phase1Apply {
                self.phase = ApplyPhase::Phase1Settle;
                ApplyCommand::Sleep { ms: EDPTWO_PRIMARY_PHASE1_STABILITY_MS }
            } else {
                self.phase = ApplyPhase::Settle;
                ApplyCommand::Sleep { ms: VERIFY_DELAY_MS }
            },
            Err(e) => if self.phase == ApplyPhase::Phase1Apply {
                self.on_refusal(
                    e,
                    "Two-phase eDP-2 primary: phase 1 failed (dual layout with eDP-1 primary)",
                )
            } else if self.desired.len() == 2 {
                self.on_refusal(
                    e,
                    "Failed to apply desired dual-monitor layout after adjacency correction",
                )
            } else {
                self.fail(DisplayApplyError::Apply(e))
            },
        }
    }

    fn on_phase1_state(&mut self, snapshot: Snapshot) -> (r: ApplyCommand)
        ensures
            (final(self)@, r@) == old(self)@.phase1_checked(snapshot),
    {
        let (config, is_corrupted) = read_current_config(&snapshot.logical);
        if is_corrupted || !config.contains_key("eDP-1") || !config.contains_key("eDP-2") {
            self.fail_apply("Two-phase eDP-2 primary: phase 1 did not leave a stable dual layout")
        } else {
            self.phase = ApplyPhase::Permit;
            self.serial = snapshot.serial;
            ApplyCommand::RequestPermit
        }
    }

    fn on_final_state(&mut self, snapshot: Snapshot) -> (r: ApplyCommand)
        ensures
            (final(self)@, r@) == old(self)@.verified(snapshot),
    {
        let (config, is_corrupted) = read_current_config(&snapshot.logical);
        let modes = extract_all_modes(&snapshot.physical);
        if !is_corrupted && requested_layout_matches_full(&self.desired, &config, &modes) {
            self.phase = ApplyPhase::Finished;
            ApplyCommand::Done(Ok(true))
        } else {
            self.fail_apply("Desired display layout mismatch after apply")
        }
    }

    /// Takes the reply to the last command and gives the next one.
    pub fn step(&mut self, event: ApplyEvent) -> (r: ApplyCommand)
        requires
            old(self)@.well_formed(),
            old(self)@.expects(event),
        ensures
            (final(self)@, r@) == old(self)@.step(event),
            final(self)@.well_formed(),
    {
        match event {
            ApplyEvent::State(Err(e)) => self.fail(DisplayApplyError::Apply(e)),
            ApplyEvent::State(Ok(snapshot)) => match self.phase {
                ApplyPhase::ReadState => self.on_state(snapshot),
                ApplyPhase::Phase1Check => self.on_phase1_state(snapshot),
                _ => self.on_final_state(snapshot),
            },
            ApplyEvent::Permit(reply) => self.on_permit(reply),
            ApplyEvent::Applied(reply) => self.on_applied(reply),
            ApplyEvent::Slept => {
                if self.phase == ApplyPhase::Phase1Settle {
                    self.phase = ApplyPhase::Phase1Check;
                } else {
                    self.phase = ApplyPhase::Verify;
                }
                ApplyCommand::ReadState
            },
        }
    }
}

// ── Laws of an attempt ───────────────────────────────────────────────────────

/// The compositor refused for want of adjacency.
pub open spec fn refused_as_non_adjacent(event: ApplyEvent) -> bool {
    event matches ApplyEvent::Applied(Err(e)) && crate::session::display::non_adjacent(
        crate::text::lowercase(e@),
    )
}

/// The compositor reports a state for which `p` holds.
pub open spec fn reports(event: ApplyEvent, p: spec_fn(Snapshot) -> bool) -> bool {
    event matches ApplyEvent::State(Ok(snapshot)) && p(snapshot)
}

/// The compositor is told to change the layout only on the root daemon's permission, or to repeat
/// a permitted change by a pixel's difference after a refusal for want of adjacency.
pub proof fn law_no_apply_without_permission(s: ApplyRunView, event: ApplyEvent)
    requires
        s.well_formed(),
        s.expects(event),
        s.step(event).1 is Apply,
    ensures
        event == ApplyEvent::Permit(Ok(DisplayApplyPermit::Allowed)) || ((s.phase
            == ApplyPhase::Phase1Apply || s.phase == ApplyPhase::Apply) && s.refused < 2
            && refused_as_non_adjacent(event)),
{
}

/// An attempt that reports a change has seen the desired layout; one that reports no change has
/// seen that layout before it touched anything.
pub proof fn law_success_is_observed(s: ApplyRunView, event: ApplyEvent)
    requires
        s.expects(event),
    ensures
        s.step(event).1 == ApplyCommandView::Done(Ok(true)) <==> s.phase == ApplyPhase::Verify
            && reports(event, |snapshot: Snapshot| shows(snapshot, s.desired)),
        s.step(event).1 == ApplyCommandView::Done(Ok(false)) <==> s.phase == ApplyPhase::ReadState
            && reports(
            event,
            |snapshot: Snapshot|
                match desired_layout(snapshot.physical@, s.request) {
                    Some(layout) => shows(snapshot, layout),
                    None => false,
                },
        ),
{
}

/// Replies that an attempt can still take before it is over.
pub open spec fn replies_left(s: ApplyRunView) -> int {
    match s.phase {
        ApplyPhase::ReadState => 13,
        ApplyPhase::Phase1Permit => 12,
        ApplyPhase::Phase1Apply => 11 - s.refused,
        ApplyPhase::Phase1Settle => 8,
        ApplyPhase::Phase1Check => 7,
        ApplyPhase::Permit => 6,
        ApplyPhase::Apply => 5 - s.refused,
        ApplyPhase::Settle => 2,
        ApplyPhase::Verify => 1,
        ApplyPhase::Finished => 0,
    }
}

/// Every reply brings an attempt nearer to its end, and it ends exactly with a result.
pub proof fn law_attempt_ends(s: ApplyRunView, event: ApplyEvent)
    requires
        s.well_formed(),
        s.expects(event),
    ensures
        0 <= replies_left(s.step(event).0) < replies_left(s) <= 13,
        s.step(event).0.phase == ApplyPhase::Finished <==> s.step(event).1 is Done,
{
}

/// A layout that was verified needs no further change, as long as what is connected still leads
/// to the same desired layout.
pub proof fn law_verified_layout_is_stable(s: ApplyRunView, snapshot: Snapshot)
    requires
        s.phase == ApplyPhase::Verify,
        s.step(ApplyEvent::State(Ok(snapshot))).1 == ApplyCommandView::Done(Ok(true)),
        desired_layout(snapshot.physical@, s.request) == Some(s.desired),
    ensures
        plan_for(snapshot, s.request) == PlanView::NoChange,
{
}

/// While the keyboard lies on the lower panel, or that panel is not wanted, only eDP-1 is used.
pub proof fn law_single_panel_when_secondary_is_off(
    physical: Seq<PhysicalMonitor>,
    request: DisplayRequestView,
)
    requires
        request.keyboard_attached || !request.secondary_enabled,
    ensures
        desired_layout(physical, request) matches Some(layout) ==> layout.len() == 1
            && layout[0].connector == "eDP-1"@ && layout[0].primary,
{
}

/// A move to an eDP-2 primary from eDP-1 alone first enables both panels with eDP-1 primary.
pub proof fn law_first_phase_keeps_primary(snapshot: Snapshot, request: DisplayRequestView)
    ensures
        plan_for(snapshot, request) matches PlanView::Change {
            intermediate: Some(first),
            desired,
        } ==> first.len() == 2 && first.last().connector == "eDP-1"@ && first.last().primary
            && desired.last().connector == "eDP-2"@ && desired.last().primary,
{
    reveal_strlit("eDP-1");
    reveal_strlit("eDP-2");
    assert("eDP-1"@[4] != "eDP-2"@[4]);
}

// ── What a request brings about ──────────────────────────────────────────────

/// Every monitor of the layout that a request leads to is turned as the request says.
pub proof fn law_layout_has_the_requested_transform(
    physical: Seq<PhysicalMonitor>,
    request: DisplayRequestView,
)
    ensures
        desired_layout(physical, request) matches Some(layout) ==> forall|i: int|
            0 <= i < layout.len() ==> (#[trigger] layout[i]).transform == request.transform,
{
}

/// Every layout that a plan applies, the intermediate one too, is turned as the request says, and
/// has its primary panel last.
pub proof fn law_plan_has_the_requested_transform(snapshot: Snapshot, request: DisplayRequestView)
    ensures
        plan_for(snapshot, request) matches PlanView::Change { intermediate, desired } ==> {
            &&& forall|i: int|
                0 <= i < desired.len() ==> (#[trigger] desired[i]).transform == request.transform
            &&& intermediate matches Some(first) ==> forall|i: int|
                0 <= i < first.len() ==> (#[trigger] first[i]).transform == request.transform
        },
{
}

proof fn lemma_config_is_finite(logical: Seq<LogicalMonitor>)
    ensures
        crate::session::display::config_of(logical).dom().finite(),
    decreases logical.len(),
{
    if logical.len() > 0 {
        lemma_config_is_finite(logical.drop_last());
    }
}

proof fn lemma_one_or_two(s: Set<Seq<char>>, a: Seq<char>, b: Seq<char>, c: Seq<char>)
    requires
        s.finite(),
        s.contains(a),
        s.contains(b),
        s.contains(c),
        s.len() == (if a == b { 1int } else { 2int }),
    ensures
        c == a || c == b,
{
    if c != a && c != b {
        let rest = s.remove(a).remove(b);
        assert(rest.contains(c));
        assert(rest.len() == 0);
        assert(rest =~= Set::empty());
    }
}

proof fn lemma_lead_is_bound(logical: Seq<LogicalMonitor>, i: int)
    requires
        0 <= i < logical.len(),
        logical[i].connectors@.len() > 0,
    ensures
        crate::session::display_mode::bound_connectors(logical).contains(
            logical[i].connectors@[0]@,
        ),
    decreases logical.len(),
{
    let before = logical.drop_last();
    let names = crate::text::texts(logical.last().connectors@);
    let c = logical[i].connectors@[0]@;
    if i < logical.len() - 1 {
        assert(before[i] == logical[i]);
        lemma_lead_is_bound(before, i);
    } else {
        assert(names[0] == c);
    }
    crate::seqs::lemma_concat_contains(
        crate::session::display_mode::bound_connectors(before),
        names,
        c,
    );
}

proof fn lemma_leads_differ(logical: Seq<LogicalMonitor>, i: int, j: int)
    requires
        !crate::session::display::corrupted(logical),
        0 <= i < j < logical.len(),
        logical[i].connectors@.len() > 0,
        logical[j].connectors@.len() > 0,
    ensures
        logical[i].connectors@[0]@ != logical[j].connectors@[0]@,
    decreases logical.len(),
{
    let before = logical.drop_last();
    let listed = crate::session::display_mode::bound_connectors(before);
    let names = crate::text::texts(logical.last().connectors@);
    let all = listed + names;
    if j < logical.len() - 1 {
        assert forall|a: int, b: int| 0 <= a < listed.len() && 0 <= b < listed.len() && a
            != b implies listed[a] != listed[b] by {
            assert(all[a] == listed[a] && all[b] == listed[b]);
        }
        assert(listed.no_duplicates());
        assert(before[i] == logical[i] && before[j] == logical[j]);
        lemma_leads_differ(before, i, j);
    } else if logical[i].connectors@[0]@ == logical[j].connectors@[0]@ {
        assert(before[i] == logical[i]);
        lemma_lead_is_bound(before, i);
        let k = choose|k: int|
            0 <= k < listed.len() && listed[k] == logical[i].connectors@[0]@;
        assert(names[0] == logical[j].connectors@[0]@);
        assert(all[k] == all[listed.len() as int]);
    }
}

/// No change is planned only where every logical monitor with an output is turned as the request
/// says, and the primary one is the one asked for.
pub proof fn law_no_change_only_when_turned_as_requested(
    snapshot: Snapshot,
    request: DisplayRequestView,
    i: int,
)
    requires
        plan_for(snapshot, request) == PlanView::NoChange,
        0 <= i < snapshot.logical@.len(),
        snapshot.logical@[i].connectors@.len() > 0,
    ensures
        snapshot.logical@[i].transform == request.transform,
        snapshot.logical@[i].scale_matches,
        snapshot.logical@[i].connectors@[0]@ == "eDP-1"@ || snapshot.logical@[i].connectors@[0]@
            == "eDP-2"@,
        snapshot.logical@[i].connectors@[0]@ == "eDP-2"@ ==> request.secondary_enabled
            && !request.keyboard_attached && (snapshot.logical@[i].primary <==> request.primary
            == "eDP-2"@),
{
    reveal_strlit("eDP-1");
    reveal_strlit("eDP-2");
    assert("eDP-1"@[4] != "eDP-2"@[4]);
    let logical = snapshot.logical@;
    let config = crate::session::display::config_of(logical);
    let c = logical[i].connectors@[0]@;
    assert forall|j: int|
        i < j < logical.len() && (#[trigger] logical[j]).connectors@.len() > 0 implies logical[j].connectors@[0]@
        != c by {
        lemma_leads_differ(logical, i, j);
    }
    crate::session::display::law_config_is_that_of_the_last_row(logical, i);
    lemma_config_is_finite(logical);
    let layout = desired_layout(snapshot.physical@, request)->0;
    assert(shows(snapshot, layout));
    assert(crate::session::display::lm_matches(
        layout[0],
        config,
        crate::session::display::modes_by_connector(snapshot.physical@),
    ));
    assert(crate::session::display::lm_matches(
        layout.last(),
        config,
        crate::session::display::modes_by_connector(snapshot.physical@),
    ));
    lemma_one_or_two(config.dom(), layout[0].connector, layout.last().connector, c);
}

/// A request has no layout exactly where eDP-1 has no mode. It uses the lower panel exactly where
/// that has a mode, is wanted and is not covered by the keyboard; the lower panel is primary then
/// if the request says so.
pub proof fn law_request_decides_the_panels(
    physical: Seq<PhysicalMonitor>,
    request: DisplayRequestView,
)
    ensures
        ({
            let modes = crate::session::display::modes_by_connector(physical);
            let both = modes.contains_key("eDP-2"@) && request.secondary_enabled
                && !request.keyboard_attached;
            match desired_layout(physical, request) {
                None => !modes.contains_key("eDP-1"@),
                Some(layout) => {
                    &&& modes.contains_key("eDP-1"@)
                    &&& layout.last().primary
                    &&& !both ==> layout.len() == 1 && layout[0].connector == "eDP-1"@
                        && layout[0].mode_id == modes["eDP-1"@].id@ && layout[0].x == 0
                        && layout[0].y == 0
                    &&& both ==> layout.len() == 2 && !layout[0].primary
                    &&& both && request.primary == "eDP-2"@ ==> layout[1].connector == "eDP-2"@
                        && layout[0].connector == "eDP-1"@ && layout[0].mode_id
                        == modes["eDP-1"@].id@
                    &&& both && request.primary != "eDP-2"@ ==> layout[1].connector == "eDP-1"@
                        && layout[0].connector == "eDP-2"@ && layout[1].mode_id
                        == modes["eDP-1"@].id@
                },
            }
        }),
{
}

/// Both panels of a layout are where the machine's orientation puts them, whichever is primary.
pub proof fn law_request_decides_the_places(
    physical: Seq<PhysicalMonitor>,
    request: DisplayRequestView,
    up: int,
    low: int,
)
    requires
        desired_layout(physical, request) is Some,
        desired_layout(physical, request)->0.len() == 2,
        0 <= up < 2,
        0 <= low < 2,
        desired_layout(physical, request)->0[up].connector == "eDP-1"@,
        desired_layout(physical, request)->0[low].connector == "eDP-2"@,
    ensures
        ({
            let layout = desired_layout(physical, request)->0;
            let (upper, lower) = (layout[up], layout[low]);
            let edp1 = crate::session::display::modes_by_connector(physical)["eDP-1"@];
            let edp2 = edp2_mode(physical);
            &&& lower.mode_id == edp2.id@
            &&& request.transform == 0 ==> (upper.x, upper.y) == (0int, 0int) && (lower.x, lower.y)
                == (0int, edp1.logical_height as int)
            &&& request.transform == 1 ==> (lower.x, lower.y) == (0int, 0int) && (upper.x, upper.y)
                == (edp2.logical_height as int, 0int)
            &&& request.transform == 2 ==> (lower.x, lower.y) == (0int, 0int) && (upper.x, upper.y)
                == (0int, edp2.logical_height as int)
            &&& request.transform == 3 ==> (upper.x, upper.y) == (0int, 0int) && (lower.x, lower.y)
                == (edp1.logical_height as int, 0int)
        }),
{
    reveal_strlit("eDP-1");
    reveal_strlit("eDP-2");
    assert("eDP-1"@[4] != "eDP-2"@[4]);
    let edp1 = crate::session::display::modes_by_connector(physical)["eDP-1"@];
    crate::session::display::law_internal_panels_turn_with_the_machine(
        edp1,
        edp2_mode(physical),
        request.transform,
    );
    crate::session::display::law_placement_ignores_primary(
        edp1,
        edp2_mode(physical),
        request.transform,
    );
}

/// The lower panel is used in a mode of the size of eDP-1's mode where its first row has one.
pub proof fn law_lower_panel_takes_the_size_of_the_upper(
    physical: Seq<PhysicalMonitor>,
    row: int,
    k: int,
)
    requires
        0 <= row < physical.len(),
        physical[row].connector@ == "eDP-2"@,
        forall|j: int| 0 <= j < row ==> (#[trigger] physical[j]).connector@ != "eDP-2"@,
        0 <= k < physical[row].modes@.len(),
        ({
            let edp1 = crate::session::display::modes_by_connector(physical)["eDP-1"@];
            physical[row].modes@[k].width == edp1.width && physical[row].modes@[k].height
                == edp1.height
        }),
    ensures
        ({
            let edp1 = crate::session::display::modes_by_connector(physical)["eDP-1"@];
            edp2_mode(physical).width == edp1.width && edp2_mode(physical).height == edp1.height
                && physical[row].modes@.contains(edp2_mode(physical))
        }),
{
    let edp1 = crate::session::display::modes_by_connector(physical)["eDP-1"@];
    crate::session::display::law_mode_has_the_size_asked_for(
        physical,
        row,
        edp1.width,
        edp1.height,
    );
    assert(physical[row].modes@[k].width == edp1.width);
}

/// What is planned: nothing where the layout is there already, two steps where eDP-1 alone is to
/// give way to both panels with eDP-2 primary, and one step otherwise. The first of two steps only
/// differs in which panel is primary.
pub proof fn law_two_steps_only_towards_an_edp2_primary(
    snapshot: Snapshot,
    request: DisplayRequestView,
)
    ensures
        plan_for(snapshot, request) is NoEdp1Mode <==> desired_layout(
            snapshot.physical@,
            request,
        ) is None,
        plan_for(snapshot, request) matches PlanView::Change { intermediate, desired } ==> {
            &&& desired_layout(snapshot.physical@, request) == Some(desired)
            &&& intermediate is Some ==> request.primary == "eDP-2"@ && request.secondary_enabled
                && !request.keyboard_attached && snapshot.logical@.len() == 1
                && desired.len() == 2
            &&& intermediate matches Some(first) ==> first.len() == 2 && first[1].connector
                == "eDP-1"@ && first[0].connector == "eDP-2"@ && (first[1].x, first[1].y) == (
                desired[0].x,
                desired[0].y,
            ) && (first[0].x, first[0].y) == (desired[1].x, desired[1].y)
        },
{
    reveal_strlit("eDP-1");
    reveal_strlit("eDP-2");
    assert("eDP-1"@[4] != "eDP-2"@[4]);
    crate::session::display::law_placement_ignores_primary(
        crate::session::display::modes_by_connector(snapshot.physical@)["eDP-1"@],
        edp2_mode(snapshot.physical@),
        request.transform,
    );
}

/// From eDP-1 alone, sound and wanted to be joined by a primary eDP-2, two steps are planned.
pub proof fn law_lone_edp1_takes_two_steps(snapshot: Snapshot, request: DisplayRequestView)
    requires
        snapshot.logical@.len() == 1,
        snapshot.logical@[0].connectors@.len() == 1,
        snapshot.logical@[0].connectors@[0]@ == "eDP-1"@,
        crate::session::display::modes_by_connector(snapshot.physical@).contains_key("eDP-1"@),
        crate::session::display::modes_by_connector(snapshot.physical@).contains_key("eDP-2"@),
        request.secondary_enabled,
        !request.keyboard_attached,
        request.primary == "eDP-2"@,
    ensures
        plan_for(snapshot, request) matches PlanView::Change { intermediate, .. } && intermediate
            is Some,
{
    reveal_strlit("eDP-1");
    reveal_strlit("eDP-2");
    assert("eDP-1"@[4] != "eDP-2"@[4]);
    let logical = snapshot.logical@;
    let bound = crate::session::display_mode::bound_connectors(logical);
    assert(logical.drop_last() =~= Seq::empty());
    assert(crate::session::display_mode::bound_connectors(Seq::empty()) =~= Seq::empty());
    assert(logical.last() == logical[0]);
    assert(bound =~= crate::text::texts(logical[0].connectors@));
    assert(bound[0] == logical[0].connectors@[0]@);
    assert(bound =~= seq!["eDP-1"@]);
    let layout = desired_layout(snapshot.physical@, request)->0;
    assert(layout[1].connector == "eDP-2"@);
    if shows(snapshot, layout) {
        assert(crate::session::display::lm_matches(
            layout[1],
            crate::session::display::config_of(logical),
            crate::session::display::modes_by_connector(snapshot.physical@),
        ));
        crate::session::display::law_config_holds_only_leading_outputs(logical, "eDP-2"@);
    }
}

// ── How an attempt goes on ───────────────────────────────────────────────────

/// What was planned is kept with the serial of the state it was planned on, and permission is asked
/// for before anything is applied.
pub proof fn law_plan_is_kept(s: ApplyRunView, snapshot: Snapshot)
    requires
        s.phase == ApplyPhase::ReadState,
    ensures
        ({
            let (t, command) = s.step(ApplyEvent::State(Ok(snapshot)));
            match plan_for(snapshot, s.request) {
                PlanView::NoChange => command == ApplyCommandView::Done(Ok(false)),
                PlanView::NoEdp1Mode => command == ApplyCommandView::Done(
                    Err(DisplayApplyErrorView::Apply("No mode found for eDP-1"@)),
                ),
                PlanView::Change { intermediate, desired } => {
                    &&& command is RequestPermit
                    &&& t.serial == snapshot.serial
                    &&& t.desired == desired
                    &&& t.request == s.request
                    &&& intermediate is None ==> t.phase == ApplyPhase::Permit
                    &&& intermediate matches Some(first) ==> t.phase == ApplyPhase::Phase1Permit
                        && t.intermediate == first
                },
            }
        }),
{
}

/// With permission exactly the layout at hand is applied, on the serial at hand; without it nothing
/// is, and the reason is told.
pub proof fn law_permission_decides(s: ApplyRunView, reason: String)
    requires
        s.phase == ApplyPhase::Phase1Permit || s.phase == ApplyPhase::Permit,
    ensures
        ({
            let (t, command) = s.step(ApplyEvent::Permit(Ok(DisplayApplyPermit::Allowed)));
            &&& command matches ApplyCommandView::Apply { serial, layout } && serial == s.serial
                && layout == (if s.phase == ApplyPhase::Phase1Permit {
                s.intermediate
            } else {
                s.desired
            })
            &&& t.refused == 0
            &&& t.phase == (if s.phase == ApplyPhase::Phase1Permit {
                ApplyPhase::Phase1Apply
            } else {
                ApplyPhase::Apply
            })
            &&& t.desired == s.desired && t.intermediate == s.intermediate && t.serial == s.serial
                && t.request == s.request
        }),
        s.step(ApplyEvent::Permit(Ok(DisplayApplyPermit::Paused))).1 == ApplyCommandView::Done(
            Err(DisplayApplyErrorView::GuardPaused),
        ),
        s.step(ApplyEvent::Permit(Err(reason))).1 == ApplyCommandView::Done(
            Err(DisplayApplyErrorView::GuardCheck(reason@)),
        ),
{
}

/// An applied layout is given time, three tenths of a second after the first of two steps and a
/// tenth after the last, and then looked at.
pub proof fn law_applied_layout_is_looked_at(s: ApplyRunView)
    ensures
        s.phase == ApplyPhase::Phase1Apply ==> s.step(ApplyEvent::Applied(Ok(()))) == (
            s.at(ApplyPhase::Phase1Settle),
            ApplyCommandView::Sleep { ms: 300 },
        ),
        s.phase == ApplyPhase::Apply ==> s.step(ApplyEvent::Applied(Ok(()))) == (
            s.at(ApplyPhase::Settle),
            ApplyCommandView::Sleep { ms: 100 },
        ),
        s.phase == ApplyPhase::Phase1Settle ==> s.step(ApplyEvent::Slept) == (
            s.at(ApplyPhase::Phase1Check),
            ApplyCommandView::ReadState,
        ),
        s.phase == ApplyPhase::Settle ==> s.step(ApplyEvent::Slept) == (
            s.at(ApplyPhase::Verify),
            ApplyCommandView::ReadState,
        ),
        forall|phase: ApplyPhase| #[trigger]
            s.at(phase).phase == phase && s.at(phase).request == s.request && s.at(phase).refused
                == s.refused && s.at(phase).serial == s.serial && s.at(phase).intermediate
                == s.intermediate && s.at(phase).desired == s.desired,
{
}

/// A layout of two panels that is refused for want of adjacency is tried a pixel further, then a
/// pixel nearer, then given up; any other refusal is final, and so is that of a single panel.
pub proof fn law_refusals(s: ApplyRunView, error: String)
    requires
        s.well_formed(),
        s.phase == ApplyPhase::Apply,
    ensures
        ({
            let (t, command) = s.step(ApplyEvent::Applied(Err(error)));
            let adjacency = crate::text::contains_text(
                crate::text::lowercase(error@),
                "adjacent"@,
            );
            &&& !adjacency || s.desired.len() != 2 ==> command == ApplyCommandView::Done(
                Err(DisplayApplyErrorView::Apply(error@)),
            )
            &&& adjacency && s.desired.len() == 2 && s.refused < 2 ==> {
                &&& t == (ApplyRunView { refused: s.refused + 1, ..s })
                &&& command matches ApplyCommandView::Apply { serial, layout } && serial == s.serial
                    && layout == crate::session::display::shifted_layout(
                    s.desired,
                    s.request.transform,
                    if s.refused == 0 {
                        1int
                    } else {
                        -1int
                    },
                )
            }
            &&& adjacency && s.desired.len() == 2 && s.refused == 2 ==> command
                == ApplyCommandView::Done(
                Err(
                    DisplayApplyErrorView::Apply(
                        "Failed to apply desired dual-monitor layout after adjacency correction"@,
                    ),
                ),
            )
        }),
{
}

/// The first of two steps meets refusals in the same way.
pub proof fn law_refusals_of_the_first_step(s: ApplyRunView, error: String)
    requires
        s.well_formed(),
        s.phase == ApplyPhase::Phase1Apply,
    ensures
        ({
            let (t, command) = s.step(ApplyEvent::Applied(Err(error)));
            let adjacency = crate::text::contains_text(
                crate::text::lowercase(error@),
                "adjacent"@,
            );
            &&& !adjacency ==> command == ApplyCommandView::Done(
                Err(DisplayApplyErrorView::Apply(error@)),
            )
            &&& adjacency && s.refused < 2 ==> {
                &&& t == (ApplyRunView { refused: s.refused + 1, ..s })
                &&& command matches ApplyCommandView::Apply { serial, layout } && serial == s.serial
                    && layout == crate::session::display::shifted_layout(
                    s.intermediate,
                    s.request.transform,
                    if s.refused == 0 {
                        1int
                    } else {
                        -1int
                    },
                )
            }
            &&& adjacency && s.refused == 2 ==> command == ApplyCommandView::Done(
                Err(
                    DisplayApplyErrorView::Apply(
                        "Two-phase eDP-2 primary: phase 1 failed (dual layout with eDP-1 primary)"@,
                    ),
                ),
            )
        }),
{
}

/// The second step is made, on the serial of the state that was read, where both panels are in use
/// and none twice; otherwise the attempt fails.
pub proof fn law_second_step_needs_both_panels(s: ApplyRunView, snapshot: Snapshot)
    requires
        s.phase == ApplyPhase::Phase1Check,
    ensures
        ({
            let (t, command) = s.step(ApplyEvent::State(Ok(snapshot)));
            let config = crate::session::display::config_of(snapshot.logical@);
            let sound = !crate::session::display::corrupted(snapshot.logical@)
                && config.contains_key("eDP-1"@) && config.contains_key("eDP-2"@);
            &&& sound ==> command is RequestPermit && t.phase == ApplyPhase::Permit && t.serial
                == snapshot.serial && t.desired == s.desired && t.request == s.request
            &&& !sound ==> command == ApplyCommandView::Done(
                Err(
                    DisplayApplyErrorView::Apply(
                        "Two-phase eDP-2 primary: phase 1 did not leave a stable dual layout"@,
                    ),
                ),
            )
        }),
{
}

/// A change that is not seen afterwards is a failure, and so is a state that cannot be read.
pub proof fn law_unseen_change_fails(s: ApplyRunView, snapshot: Snapshot, error: String)
    ensures
        s.phase == ApplyPhase::Verify && !shows(snapshot, s.desired) ==> s.step(
            ApplyEvent::State(Ok(snapshot)),
        ).1 == ApplyCommandView::Done(
            Err(DisplayApplyErrorView::Apply("Desired display layout mismatch after apply"@)),
        ),
        s.step(ApplyEvent::State(Err(error))).1 == ApplyCommandView::Done(
            Err(DisplayApplyErrorView::Apply(error@)),
        ),
{
}

/// A failure of the guard is told from one of the compositor, and each is told in words.
pub proof fn law_failures_in_words(text: Seq<char>)
    ensures
        DisplayApplyErrorView::GuardPaused.guard_block(),
        DisplayApplyErrorView::GuardCheck(text).guard_block(),
        !DisplayApplyErrorView::Apply(text).guard_block(),
        DisplayApplyErrorView::GuardPaused.text()
            == "root display apply guard is paused — run sudo zenbook-duo-daemon resume-display-applies"@,
        DisplayApplyErrorView::GuardCheck(text).text() == "display apply guard unreachable: "@
            + text,
        DisplayApplyErrorView::Apply(text).text() == text,
{
}

/// A plan can be carried out unless one of its monitors is at the very edge of the coordinates; one
/// that changes nothing always can.
pub proof fn law_plans_that_can_be_moved(layout: Seq<ApplyLmView>, i: int, s: ApplyRunView, snap: Snapshot)
    ensures
        PlanView::NoChange.movable(),
        PlanView::NoEdp1Mode.movable(),
        (PlanView::Change { intermediate: None, desired: layout }).movable() <==> adjustable(layout),
        adjustable(layout) && 0 <= i < layout.len() ==> -0x8000_0000 < layout[i].x < 0x7fff_ffff
            && -0x8000_0000 < layout[i].y < 0x7fff_ffff,
        (forall|k: int|
            0 <= k < layout.len() ==> -0x8000_0000 < (#[trigger] layout[k]).x < 0x7fff_ffff
                && -0x8000_0000 < layout[k].y < 0x7fff_ffff) ==> adjustable(layout),
        s.phase != ApplyPhase::ReadState ==> s.admits(snap),
        s.phase == ApplyPhase::ReadState ==> (s.admits(snap) <==> plan_for(
            snap,
            s.request,
        ).movable()),
{
}

/// Failures, requests, plans and commands are seen as they are.
pub proof fn law_attempts_are_seen_as_they_are(
    text: String,
    request: DisplayRequest,
    first: Vec<ApplyLm>,
    lms: Vec<ApplyLm>,
    serial: u32,
    ms: u64,
    changed: bool,
    e: DisplayApplyError,
)
    ensures
        DisplayApplyError::GuardPaused@ is GuardPaused,
        DisplayApplyError::GuardCheck(text)@ == DisplayApplyErrorView::GuardCheck(text@),
        DisplayApplyError::Apply(text)@ == DisplayApplyErrorView::Apply(text@),
        request@.keyboard_attached == request.keyboard_attached,
        request@.secondary_enabled == request.secondary_enabled,
        request@.primary == request.primary@,
        request@.transform == request.transform,
        Plan::NoChange@ is NoChange,
        Plan::NoEdp1Mode@ is NoEdp1Mode,
        (Plan::Change { intermediate: None, desired: lms })@ == (PlanView::Change {
            intermediate: None,
            desired: crate::session::display::layout_view(lms@),
        }),
        (Plan::Change { intermediate: Some(first), desired: lms })@ == (PlanView::Change {
            intermediate: Some(crate::session::display::layout_view(first@)),
            desired: crate::session::display::layout_view(lms@),
        }),
        ApplyCommand::ReadState@ is ReadState,
        ApplyCommand::RequestPermit@ is RequestPermit,
        (ApplyCommand::Apply { serial, lms })@ == (ApplyCommandView::Apply {
            serial,
            layout: crate::session::display::layout_view(lms@),
        }),
        (ApplyCommand::Sleep { ms })@ == (ApplyCommandView::Sleep { ms }),
        ApplyCommand::Done(Ok(changed))@ == ApplyCommandView::Done(Ok(changed)),
        ApplyCommand::Done(Err(e))@ == ApplyCommandView::Done(Err(e@)),
{
}

/// The lower panel takes part exactly if it is wanted and not covered; without a mode of the size of
/// eDP-1's, or a first row with any, it is used in the mode chosen for it.
pub proof fn law_lower_panel_takes_part(
    secondary_enabled: bool,
    keyboard_attached: bool,
    physical: Seq<PhysicalMonitor>,
)
    ensures
        secondary_effective(secondary_enabled, keyboard_attached) <==> secondary_enabled
            && !keyboard_attached,
        ({
            let modes = crate::session::display::modes_by_connector(physical);
            crate::session::display::mode_matching_size(
                physical,
                "eDP-2"@,
                modes["eDP-1"@].width,
                modes["eDP-1"@].height,
            ) is None ==> edp2_mode(physical) == modes["eDP-2"@]
        }),
{
}

/// What an attempt waits for at each phase: the reply to what it asked for last, and nothing once it
/// is over.
pub proof fn law_attempts_wait_for(
    s: ApplyRunView,
    error: String,
    snapshot: Snapshot,
    permit: Result<DisplayApplyPermit, String>,
    applied: Result<(), String>,
)
    ensures
        s.phase == ApplyPhase::ReadState || s.phase == ApplyPhase::Phase1Check || s.phase
            == ApplyPhase::Verify <==> s.expects(ApplyEvent::State(Err(error))),
        s.phase == ApplyPhase::Phase1Check || s.phase == ApplyPhase::Verify ==> s.expects(
            ApplyEvent::State(Ok(snapshot)),
        ),
        s.phase == ApplyPhase::ReadState ==> (s.expects(ApplyEvent::State(Ok(snapshot)))
            <==> plan_for(snapshot, s.request).movable()),
        s.phase == ApplyPhase::Phase1Permit || s.phase == ApplyPhase::Permit <==> s.expects(
            ApplyEvent::Permit(permit),
        ),
        s.phase == ApplyPhase::Phase1Apply || s.phase == ApplyPhase::Apply <==> s.expects(
            ApplyEvent::Applied(applied),
        ),
        s.phase == ApplyPhase::Phase1Settle || s.phase == ApplyPhase::Settle <==> s.expects(
            ApplyEvent::Slept,
        ),
        s.well_formed() <==> 0 <= s.refused <= 2 && adjustable(s.intermediate) && adjustable(
            s.desired,
        ),
{
}

} // verus!
