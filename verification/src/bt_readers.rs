//! The readers of the Bluetooth keyboard's device nodes.
//!
//! The keyboard has several device nodes, and its special keys may arrive on any of those with the
//! vendor axis, so each of these gets a reader. All readers of one keyboard make up one session:
//! it begins with the first and ends with the last.
use vstd::prelude::*;

use crate::keyboard_bt::{BtKeyEvent, BT_KEYBOARD_NAME, ENODEV};
use crate::text::{same, starts_with};

verus! {

/// How long a new device node is left alone before it is opened for good.
pub const SETTLE_MS: u64 = 280;

pub const CLAIM_ATTEMPTS: u32 = 8;

pub const CLAIM_RETRY_MS: u64 = 100;

pub const READ_ERROR_DELAY_MS: u64 = 100;

// ── Claims ───────────────────────────────────────────────────────────────────

/// A reader: the keyboard's key and the path of the device node.
pub struct Claim {
    pub keyboard: String,
    pub path: String,
}

/// The active readers, each once.
pub struct BtReaders {
    claims: Vec<Claim>,
}

pub open spec fn claim_view(c: Claim) -> (Seq<char>, Seq<char>) {
    (c.keyboard@, c.path@)
}

pub open spec fn claims_view(claims: Seq<Claim>) -> Seq<(Seq<char>, Seq<char>)> {
    Seq::new(claims.len(), |i: int| claim_view(claims[i]))
}

impl View for BtReaders {
    type V = Set<(Seq<char>, Seq<char>)>;

    closed spec fn view(&self) -> Set<(Seq<char>, Seq<char>)> {
        claims_view(self.claims@).to_set()
    }
}

/// The keyboard has a reader.
pub open spec fn has_session(readers: Set<(Seq<char>, Seq<char>)>, keyboard: Seq<char>) -> bool {
    exists|path: Seq<char>| readers.contains((keyboard, path))
}

#[derive(Clone, Copy, Debug, PartialEq, Eq, Structural)]
pub enum ClaimResult {
    /// The node has no reader yet; `first` says that the keyboard had none either.
    Claimed { first: bool },
    /// The node has a reader.
    Taken,
}

impl BtReaders {
    /// No reader.
    pub fn new() -> (r: Self)
        ensures
            r@ == Set::<(Seq<char>, Seq<char>)>::empty(),
            r.no_repeats(),
    {
        let r = BtReaders { claims: Vec::new() };
        proof {
            assert(r@ =~= Set::<(Seq<char>, Seq<char>)>::empty());
        }
        r
    }

    pub closed spec fn no_repeats(&self) -> bool {
        claims_view(self.claims@).no_duplicates()
    }

    /// Claims a device node for a reader.
    pub fn claim(&mut self, keyboard: &String, path: &String) -> (r: ClaimResult)
        requires
            old(self).no_repeats(),
        ensures
            r == (if old(self)@.contains((keyboard@, path@)) {
                ClaimResult::Taken
            } else {
                ClaimResult::Claimed { first: !has_session(old(self)@, keyboard@) }
            }),
            final(self)@ == old(self)@.insert((keyboard@, path@)),
            final(self).no_repeats(),
    {
        let ghost seen = claims_view(self.claims@);
        let mut first = true;
        let mut i: usize = 0;
        while i < self.claims.len()
            invariant
                i <= self.claims@.len(),
                seen == claims_view(self.claims@),
                *self == *old(self),
                old(self).no_repeats(),
                first == (forall|k: int| 0 <= k < i ==> (#[trigger] seen[k]).0 != keyboard@),
                forall|k: int| 0 <= k < i ==> #[trigger] seen[k] != (keyboard@, path@),
            decreases self.claims@.len() - i,
        {
            let c = &self.claims[i];
            proof {
                assert(seen[i as int] == claim_view(*c));
            }
            if same(c.keyboard.as_str(), keyboard.as_str()) {
                first = false;
                if same(c.path.as_str(), path.as_str()) {
                    proof {
                        assert(seen.contains((keyboard@, path@)));
                        assert(self@.insert((keyboard@, path@)) =~= self@);
                    }
                    return ClaimResult::Taken;
                }
            }
            i = i + 1;
        }
        proof {
            assert(!seen.contains((keyboard@, path@)));
            if first {
                assert forall|p: Seq<char>| !seen.to_set().contains((keyboard@, p)) by {
                    if seen.contains((keyboard@, p)) {
                        let k = choose|k: int| 0 <= k < seen.len() && seen[k] == (keyboard@, p);
                        assert(seen[k].0 == keyboard@);
                    }
                }
            } else {
                let k = choose|k: int| 0 <= k < seen.len() && (#[trigger] seen[k]).0 == keyboard@;
                assert(seen.to_set().contains((keyboard@, seen[k].1)));
            }
        }
        self.claims.push(Claim { keyboard: keyboard.clone(), path: path.clone() });
        proof {
            let after = claims_view(self.claims@);
            assert(after =~= seen.push((keyboard@, path@)));
            assert(after.to_set() =~= seen.to_set().insert((keyboard@, path@))) by {
                assert forall|x: (Seq<char>, Seq<char>)| after.to_set().contains(x)
                    <==> seen.to_set().insert((keyboard@, path@)).contains(x) by {
                    if seen.contains(x) {
                        let k = choose|k: int| 0 <= k < seen.len() && seen[k] == x;
                        assert(after[k] == x);
                    }
                    if after.contains(x) {
                        let k = choose|k: int| 0 <= k < after.len() && after[k] == x;
                        if k < seen.len() {
                            assert(seen[k] == x);
                        }
                    }
                    assert(after[seen.len() as int] == (keyboard@, path@));
                }
            }
        }
        ClaimResult::Claimed { first }
    }

    /// Gives up the claim of a reader that has ended; says whether the keyboard has none left.
    pub fn release(&mut self, keyboard: &String, path: &String) -> (last: bool)
        requires
            old(self).no_repeats(),
        ensures
            final(self)@ == old(self)@.remove((keyboard@, path@)),
            last == !has_session(final(self)@, keyboard@),
            final(self).no_repeats(),
    {
        let ghost seen = claims_view(self.claims@);
        let ghost gone = (keyboard@, path@);
        let mut kept: Vec<Claim> = Vec::new();
        let mut last = true;
        let mut i: usize = 0;
        while i < self.claims.len()
            invariant
                i <= self.claims@.len(),
                seen == claims_view(self.claims@),
                seen.no_duplicates(),
                *self == *old(self),
                gone == (keyboard@, path@),
                claims_view(kept@).no_duplicates(),
                forall|x: (Seq<char>, Seq<char>)| #[trigger]
                    claims_view(kept@).contains(x) <==> x != gone && seen.take(i as int).contains(
                        x,
                    ),
                last == (forall|k: int|
                    0 <= k < i && (#[trigger] seen[k]).0 == keyboard@ ==> seen[k] == gone),
            decreases self.claims@.len() - i,
        {
            let c = &self.claims[i];
            let ghost x = seen[i as int];
            let ghost before = claims_view(kept@);
            proof {
                assert(x == claim_view(*c));
                assert(seen.take(i as int + 1) =~= seen.take(i as int).push(x));
                assert(!seen.take(i as int).contains(x)) by {
                    if seen.take(i as int).contains(x) {
                        let k = choose|k: int|
                            0 <= k < i && #[trigger] seen.take(i as int)[k] == x;
                        assert(seen[k] == seen[i as int]);
                    }
                }
                assert forall|y: (Seq<char>, Seq<char>)|
                    seen.take(i as int + 1).contains(y) <==> seen.take(i as int).contains(y) || y
                        == x by {
                    lemma_push_contains(seen.take(i as int), x, y);
                }
            }
            let same_keyboard = same(c.keyboard.as_str(), keyboard.as_str());
            let same_path = same(c.path.as_str(), path.as_str());
            if !(same_keyboard && same_path) {
                if same_keyboard {
                    last = false;
                }
                kept.push(Claim { keyboard: c.keyboard.clone(), path: c.path.clone() });
                proof {
                    assert(claims_view(kept@) =~= before.push(x));
                    assert forall|y: (Seq<char>, Seq<char>)|
                        claims_view(kept@).contains(y) <==> before.contains(y) || y == x by {
                        lemma_push_contains(before, x, y);
                    }
                    assert(!before.contains(x));
                }
            } else {
                proof {
                    assert(x == gone);
                }
            }
            proof {
                assert forall|y: (Seq<char>, Seq<char>)|
                    #[trigger] claims_view(kept@).contains(y) <==> y != gone && seen.take(
                        i as int + 1,
                    ).contains(y) by {
                    assert(before.contains(y) <==> y != gone && seen.take(i as int).contains(y));
                    lemma_push_contains(seen.take(i as int), x, y);
                    lemma_push_contains(before, x, y);
                }
            }
            i = i + 1;
        }
        proof {
            assert(seen.take(seen.len() as int) =~= seen);
            let after = claims_view(kept@);
            assert(after.to_set() =~= seen.to_set().remove(gone));
            if last {
                assert forall|p: Seq<char>| !after.to_set().contains((keyboard@, p)) by {
                    if after.contains((keyboard@, p)) {
                        let k = choose|k: int| 0 <= k < seen.len() && seen[k] == (keyboard@, p);
                        assert(seen[k].0 == keyboard@);
                    }
                }
            } else {
                let k = choose|k: int|
                    0 <= k < seen.len() && (#[trigger] seen[k]).0 == keyboard@ && seen[k] != gone;
                assert(seen.contains(seen[k]));
                assert(after.to_set().contains((keyboard@, seen[k].1)));
            }
        }
        self.claims = kept;
        last
    }
}

proof fn lemma_push_contains(
    s: Seq<(Seq<char>, Seq<char>)>,
    x: (Seq<char>, Seq<char>),
    y: (Seq<char>, Seq<char>),
)
    ensures
        s.push(x).contains(y) <==> s.contains(y) || y == x,
{
    let t = s.push(x);
    if s.contains(y) {
        let k = choose|k: int| 0 <= k < s.len() && s[k] == y;
        assert(t[k] == y);
    }
    if t.contains(y) {
        let k = choose|k: int| 0 <= k < t.len() && t[k] == y;
        if k < s.len() {
            assert(s[k] == y);
        }
    }
    assert(t[s.len() as int] == x);
}

/// A keyboard's session begins with the first claim and ends with the last release, so its begin
/// and end are told alternately.
pub proof fn law_session_spans_readers(
    readers: Set<(Seq<char>, Seq<char>)>,
    keyboard: Seq<char>,
    first: Seq<char>,
    second: Seq<char>,
)
    requires
        !has_session(readers, keyboard),
        first != second,
    ensures
        ({
            let one = readers.insert((keyboard, first));
            let two = one.insert((keyboard, second));
            &&& has_session(one, keyboard)
            &&& has_session(two.remove((keyboard, first)), keyboard)
            &&& !has_session(
                two.remove((keyboard, first)).remove((keyboard, second)),
                keyboard,
            )
        }),
{
    let one = readers.insert((keyboard, first));
    let two = one.insert((keyboard, second));
    assert(one.contains((keyboard, first)));
    assert(two.remove((keyboard, first)).contains((keyboard, second)));
    let none = two.remove((keyboard, first)).remove((keyboard, second));
    assert forall|p: Seq<char>| !none.contains((keyboard, p)) by {
        assert(!readers.contains((keyboard, p)));
    }
}

// ── Opening a device node ────────────────────────────────────────────────────

/// The steps from a new device node to a reader.
#[derive(Clone, Copy, Debug, PartialEq, Eq, Structural)]
pub enum ProbePhase {
    Stat,
    FirstOpen,
    Settle,
    SecondStat,
    SecondOpen,
    Claim { attempt: u32 },
    Over,
}

/// What was found out at a step.
pub enum ProbeEvent {
    /// The node is there and is no directory, or not.
    Stat { is_file: bool },
    /// The node was opened: the device's name and whether it has the vendor axis. `None` stands
    /// for a node that cannot be opened.
    Opened { device: Option<ProbedDevice> },
    Slept,
    /// The node was claimed for a reader.
    Claimed(ClaimResult),
}

pub struct ProbedDevice {
    pub name: Option<String>,
    pub has_abs_misc: bool,
}

#[derive(Clone, Copy, Debug, PartialEq, Eq, Structural)]
pub enum ProbeCommand {
    Stat,
    Open,
    SleepMs(u64),
    /// Find out the keyboard's key and claim the node.
    Claim,
    /// Start a reader; `first` says that it begins the keyboard's session.
    StartReader { first: bool },
    Drop,
}

/// A device node being looked at.
#[derive(Clone, Copy, Debug, PartialEq, Eq, Structural)]
pub struct BtProbe {
    pub phase: ProbePhase,
}

/// The node belongs to the keyboard and carries its special keys.
pub open spec fn is_vendor_node(device: Option<ProbedDevice>) -> bool {
    device matches Some(d) && d.has_abs_misc && (d.name matches Some(n) && n@ == BT_KEYBOARD_NAME@)
}

fn check_vendor_node(device: &Option<ProbedDevice>) -> (r: bool)
    ensures
        r == is_vendor_node(*device),
{
    match device {
        Some(d) => d.has_abs_misc && (match &d.name {
            Some(n) => same(n.as_str(), BT_KEYBOARD_NAME),
            None => false,
        }),
        None => false,
    }
}

impl BtProbe {
    pub open spec fn expects(self, event: ProbeEvent) -> bool {
        match self.phase {
            ProbePhase::Stat | ProbePhase::SecondStat => event is Stat,
            ProbePhase::FirstOpen | ProbePhase::SecondOpen => event is Opened,
            ProbePhase::Settle => event is Slept,
            ProbePhase::Claim { attempt } => attempt < CLAIM_ATTEMPTS && (event is Claimed
                || event is Slept),
            ProbePhase::Over => false,
        }
    }

    /// How the look at a node goes on. It must be a file, belong to the keyboard and still do so
    /// after a while; a claim that is taken is tried again a few times.
    pub open spec fn next(self, event: ProbeEvent) -> (BtProbe, ProbeCommand) {
        let over = BtProbe { phase: ProbePhase::Over };
        match (self.phase, event) {
            (ProbePhase::Stat, ProbeEvent::Stat { is_file: true }) => (
                BtProbe { phase: ProbePhase::FirstOpen },
                ProbeCommand::Open,
            ),
            (ProbePhase::FirstOpen, ProbeEvent::Opened { device }) => if is_vendor_node(device) {
                (BtProbe { phase: ProbePhase::Settle }, ProbeCommand::SleepMs(SETTLE_MS))
            } else {
                (over, ProbeCommand::Drop)
            },
            (ProbePhase::Settle, _) => (
                BtProbe { phase: ProbePhase::SecondStat },
                ProbeCommand::Stat,
            ),
            (ProbePhase::SecondStat, ProbeEvent::Stat { is_file: true }) => (
                BtProbe { phase: ProbePhase::SecondOpen },
                ProbeCommand::Open,
            ),
            (ProbePhase::SecondOpen, ProbeEvent::Opened { device }) => if is_vendor_node(device) {
                (BtProbe { phase: ProbePhase::Claim { attempt: 0 } }, ProbeCommand::Claim)
            } else {
                (over, ProbeCommand::Drop)
            },
            (
                ProbePhase::Claim { attempt },
                ProbeEvent::Claimed(ClaimResult::Claimed { first }),
            ) => (over, ProbeCommand::StartReader { first }),
            (ProbePhase::Claim { attempt }, ProbeEvent::Claimed(ClaimResult::Taken)) => if attempt
                + 1 < CLAIM_ATTEMPTS {
                (
                    BtProbe { phase: ProbePhase::Claim { attempt: (attempt + 1) as u32 } },
                    ProbeCommand::SleepMs(CLAIM_RETRY_MS),
                )
            } else {
                (over, ProbeCommand::Drop)
            },
            (ProbePhase::Claim { attempt }, ProbeEvent::Slept) => (self, ProbeCommand::Claim),
            _ => (over, ProbeCommand::Drop),
        }
    }

    /// Begins to look at a node. Only event nodes are looked at.
    pub fn start(file_name: &str) -> (r: (Self, ProbeCommand))
        ensures
            r == (if "event"@.is_prefix_of(file_name@) {
                (BtProbe { phase: ProbePhase::Stat }, ProbeCommand::Stat)
            } else {
                (BtProbe { phase: ProbePhase::Over }, ProbeCommand::Drop)
            }),
    {
        if starts_with(file_name, "event") {
            (BtProbe { phase: ProbePhase::Stat }, ProbeCommand::Stat)
        } else {
            (BtProbe { phase: ProbePhase::Over }, ProbeCommand::Drop)
        }
    }

    /// Takes what was found out and says what to do next.
    pub fn step(&mut self, event: ProbeEvent) -> (r: ProbeCommand)
        requires
            old(self).expects(event),
        ensures
            (*final(self), r) == old(self).next(event),
    {
        match event {
            ProbeEvent::Stat { is_file } => {
                let phase = self.phase;
                if !is_file {
                    self.phase = ProbePhase::Over;
                    return ProbeCommand::Drop;
                }
                if phase == ProbePhase::Stat {
                    self.phase = ProbePhase::FirstOpen;
                } else {
                    self.phase = ProbePhase::SecondOpen;
                }
                ProbeCommand::Open
            },
            ProbeEvent::Opened { device } => {
                if !check_vendor_node(&device) {
                    self.phase = ProbePhase::Over;
                    return ProbeCommand::Drop;
                }
                if self.phase == ProbePhase::FirstOpen {
                    self.phase = ProbePhase::Settle;
                    ProbeCommand::SleepMs(SETTLE_MS)
                } else {
                    self.phase = ProbePhase::Claim { attempt: 0 };
                    ProbeCommand::Claim
                }
            },
            ProbeEvent::Slept => {
                match self.phase {
                    ProbePhase::Settle => {
                        self.phase = ProbePhase::SecondStat;
                        ProbeCommand::Stat
                    },
                    _ => ProbeCommand::Claim,
                }
            },
            ProbeEvent::Claimed(result) => match result {
                ClaimResult::Claimed { first } => {
                    self.phase = ProbePhase::Over;
                    ProbeCommand::StartReader { first }
                },
                ClaimResult::Taken => match self.phase {
                    ProbePhase::Claim { attempt } => if attempt + 1 < CLAIM_ATTEMPTS {
                        self.phase = ProbePhase::Claim { attempt: attempt + 1 };
                        ProbeCommand::SleepMs(CLAIM_RETRY_MS)
                    } else {
                        self.phase = ProbePhase::Over;
                        ProbeCommand::Drop
                    },
                    _ => {
                        self.phase = ProbePhase::Over;
                        ProbeCommand::Drop
                    },
                },
            },
        }
    }
}

/// A reader is started only for a node that was claimed.
pub proof fn law_reader_needs_claim(p: BtProbe, event: ProbeEvent)
    requires
        p.expects(event),
        p.next(event).1 is StartReader,
    ensures
        event == ProbeEvent::Claimed(
            ClaimResult::Claimed { first: p.next(event).1->StartReader_first },
        ),
{
}

// ── Reading ──────────────────────────────────────────────────────────────────

/// What happens to a reader.
#[derive(Clone, Copy, Debug, PartialEq, Eq, Structural)]
pub enum ReaderEvent {
    /// The reader starts; `first` says that it begins the keyboard's session.
    Started { first: bool },
    /// A value of the vendor axis was read.
    Key(BtKeyEvent),
    /// Reading failed, with an error number of the system.
    Failed { errno: Option<i32> },
    /// The claim was given up; `last` says that the keyboard has no reader left.
    Released { last: bool },
}

#[derive(Clone, Copy, Debug, PartialEq, Eq, Structural)]
pub enum ReaderAction {
    SessionStarted,
    SessionEnded,
    NotifyActivity,
    /// Start the task that sets up the keyboard and forwards events to it.
    StartControlTask,
    PressKey(crate::config::SpecialKey),
    ReleaseAllKeys,
    SleepMs(u64),
    ReleaseClaim,
    Stop,
}

/// The device is gone.
pub open spec fn device_gone(errno: Option<i32>) -> bool {
    errno == Some(ENODEV)
}

pub open spec fn reader_actions(event: ReaderEvent) -> Seq<ReaderAction> {
    match event {
        ReaderEvent::Started { first } => if first {
            seq![
                ReaderAction::SessionStarted,
                ReaderAction::NotifyActivity,
                ReaderAction::StartControlTask,
            ]
        } else {
            seq![ReaderAction::NotifyActivity]
        },
        ReaderEvent::Key(BtKeyEvent::HeldBack) => Seq::empty(),
        ReaderEvent::Key(BtKeyEvent::Released) => seq![ReaderAction::ReleaseAllKeys],
        ReaderEvent::Key(BtKeyEvent::Key(key)) => seq![ReaderAction::PressKey(key)],
        ReaderEvent::Failed { errno } => if device_gone(errno) {
            seq![ReaderAction::ReleaseClaim]
        } else {
            seq![ReaderAction::SleepMs(READ_ERROR_DELAY_MS)]
        },
        ReaderEvent::Released { last } => if last {
            seq![ReaderAction::SessionEnded, ReaderAction::ReleaseAllKeys, ReaderAction::Stop]
        } else {
            seq![ReaderAction::ReleaseAllKeys, ReaderAction::Stop]
        },
    }
}

/// What a reader does on an event. The session of the keyboard is told once, however many device
/// nodes it has.
pub fn reader_step(event: ReaderEvent) -> (actions: Vec<ReaderAction>)
    ensures
        actions@ == reader_actions(event),
{
    let mut actions: Vec<ReaderAction> = Vec::new();
    match event {
        ReaderEvent::Started { first } => {
            if first {
                actions.push(ReaderAction::SessionStarted);
                actions.push(ReaderAction::NotifyActivity);
                actions.push(ReaderAction::StartControlTask);
            } else {
                actions.push(ReaderAction::NotifyActivity);
            }
        },
        ReaderEvent::Key(key_event) => match key_event {
            BtKeyEvent::HeldBack => {},
            BtKeyEvent::Released => {
                actions.push(ReaderAction::ReleaseAllKeys);
            },
            BtKeyEvent::Key(key) => {
                actions.push(ReaderAction::PressKey(key));
            },
        },
        ReaderEvent::Failed { errno } => {
            let gone = match errno {
                Some(n) => n == ENODEV,
                None => false,
            };
            if gone {
                actions.push(ReaderAction::ReleaseClaim);
            } else {
                actions.push(ReaderAction::SleepMs(READ_ERROR_DELAY_MS));
            }
        },
        ReaderEvent::Released { last } => {
            if last {
                actions.push(ReaderAction::SessionEnded);
            }
            actions.push(ReaderAction::ReleaseAllKeys);
            actions.push(ReaderAction::Stop);
        },
    }
    proof {
        assert(actions@ =~= reader_actions(event));
    }
    actions
}

// ── What a node and a reader go through ──────────────────────────────────────

/// A keyboard has a session exactly while one of its nodes has a reader.
pub proof fn law_sessions_are_readers(
    readers: Set<(Seq<char>, Seq<char>)>,
    keyboard: Seq<char>,
    path: Seq<char>,
)
    ensures
        readers.contains((keyboard, path)) ==> has_session(readers, keyboard),
        (forall|p: Seq<char>| !readers.contains((keyboard, p))) ==> !has_session(readers, keyboard),
{
}

/// A node is read exactly if it has the vendor axis and the name of the keyboard.
pub proof fn law_nodes_that_are_read(d: ProbedDevice)
    ensures
        is_vendor_node(Some(d)) <==> d.has_abs_misc && d.name is Some && d.name->0@
            == "ASUS Zenbook Duo Keyboard"@,
        !is_vendor_node(None),
{
}

/// A node that is a file is opened; one that is read is left alone for 280 milliseconds and looked
/// at and opened once more; then it is claimed. One that fails any of this is dropped.
pub proof fn law_node_is_looked_at_twice(device: Option<ProbedDevice>)
    ensures
        ({
            let p = BtProbe { phase: ProbePhase::Stat };
            p.next(ProbeEvent::Stat { is_file: true }) == (
                BtProbe { phase: ProbePhase::FirstOpen },
                ProbeCommand::Open,
            ) && p.next(ProbeEvent::Stat { is_file: false }) == (
                BtProbe { phase: ProbePhase::Over },
                ProbeCommand::Drop,
            )
        }),
        ({
            let p = BtProbe { phase: ProbePhase::FirstOpen };
            p.next(ProbeEvent::Opened { device }) == (if is_vendor_node(device) {
                (BtProbe { phase: ProbePhase::Settle }, ProbeCommand::SleepMs(280))
            } else {
                (BtProbe { phase: ProbePhase::Over }, ProbeCommand::Drop)
            })
        }),
        (BtProbe { phase: ProbePhase::Settle }).next(ProbeEvent::Slept) == (
            BtProbe { phase: ProbePhase::SecondStat },
            ProbeCommand::Stat,
        ),
        ({
            let p = BtProbe { phase: ProbePhase::SecondStat };
            p.next(ProbeEvent::Stat { is_file: true }) == (
                BtProbe { phase: ProbePhase::SecondOpen },
                ProbeCommand::Open,
            ) && p.next(ProbeEvent::Stat { is_file: false }) == (
                BtProbe { phase: ProbePhase::Over },
                ProbeCommand::Drop,
            )
        }),
        ({
            let p = BtProbe { phase: ProbePhase::SecondOpen };
            p.next(ProbeEvent::Opened { device }) == (if is_vendor_node(device) {
                (BtProbe { phase: ProbePhase::Claim { attempt: 0 } }, ProbeCommand::Claim)
            } else {
                (BtProbe { phase: ProbePhase::Over }, ProbeCommand::Drop)
            })
        }),
{
}

/// A claim that succeeds starts a reader, which knows whether it is the keyboard's first; one that is
/// taken is tried again a tenth of a second later, eight times in all.
pub proof fn law_claims_are_repeated(attempt: u32, first: bool)
    requires
        attempt < 8,
    ensures
        ({
            let p = BtProbe { phase: ProbePhase::Claim { attempt } };
            &&& p.next(ProbeEvent::Claimed(ClaimResult::Claimed { first })) == (
                BtProbe { phase: ProbePhase::Over },
                ProbeCommand::StartReader { first },
            )
            &&& attempt < 7 ==> p.next(ProbeEvent::Claimed(ClaimResult::Taken)) == (
                BtProbe { phase: ProbePhase::Claim { attempt: (attempt + 1) as u32 } },
                ProbeCommand::SleepMs(100),
            )
            &&& attempt == 7 ==> p.next(ProbeEvent::Claimed(ClaimResult::Taken)) == (
                BtProbe { phase: ProbePhase::Over },
                ProbeCommand::Drop,
            )
            &&& p.next(ProbeEvent::Slept) == (p, ProbeCommand::Claim)
        }),
{
}

/// Every reader counts as activity when it starts; only the first one begins the keyboard's session,
/// and has the keyboard set up.
pub proof fn law_first_reader_begins_the_session()
    ensures
        reader_actions(ReaderEvent::Started { first: true }) =~= seq![
            ReaderAction::SessionStarted,
            ReaderAction::NotifyActivity,
            ReaderAction::StartControlTask,
        ],
        reader_actions(ReaderEvent::Started { first: false }) =~= seq![
            ReaderAction::NotifyActivity,
        ],
{
}

/// Only the last reader ends the keyboard's session; every reader releases its keys and stops.
pub proof fn law_last_reader_ends_the_session()
    ensures
        reader_actions(ReaderEvent::Released { last: true }) =~= seq![
            ReaderAction::SessionEnded,
            ReaderAction::ReleaseAllKeys,
            ReaderAction::Stop,
        ],
        reader_actions(ReaderEvent::Released { last: false }) =~= seq![
            ReaderAction::ReleaseAllKeys,
            ReaderAction::Stop,
        ],
{
}

/// A key is pressed as it was read, a release releases all, and what is held back does nothing; a
/// device that is gone gives up its claim, and any other failure is followed by a pause.
pub proof fn law_readers_pass_keys_on(key: crate::config::SpecialKey, errno: Option<i32>)
    ensures
        reader_actions(ReaderEvent::Key(BtKeyEvent::Key(key))) =~= seq![
            ReaderAction::PressKey(key),
        ],
        reader_actions(ReaderEvent::Key(BtKeyEvent::Released)) =~= seq![
            ReaderAction::ReleaseAllKeys,
        ],
        reader_actions(ReaderEvent::Key(BtKeyEvent::HeldBack)).len() == 0,
        errno == Some(19i32) ==> reader_actions(ReaderEvent::Failed { errno }) =~= seq![
            ReaderAction::ReleaseClaim,
        ],
        errno != Some(19i32) ==> reader_actions(ReaderEvent::Failed { errno }) =~= seq![
            ReaderAction::SleepMs(100),
        ],
{
}

/// A claim is known by its keyboard and its path.
pub proof fn law_claims_are_seen_as_they_are(claims: Seq<Claim>, i: int)
    requires
        0 <= i < claims.len(),
    ensures
        claims_view(claims).len() == claims.len(),
        claims_view(claims)[i] == (claims[i].keyboard@, claims[i].path@),
{
}

/// What a look at a node waits for at each step.
pub proof fn law_node_steps_wait_for(
    is_file: bool,
    device: Option<ProbedDevice>,
    claim: ClaimResult,
    attempt: u32,
)
    ensures
        (BtProbe { phase: ProbePhase::Stat }).expects(ProbeEvent::Stat { is_file }),
        (BtProbe { phase: ProbePhase::SecondStat }).expects(ProbeEvent::Stat { is_file }),
        (BtProbe { phase: ProbePhase::FirstOpen }).expects(ProbeEvent::Opened { device }),
        (BtProbe { phase: ProbePhase::SecondOpen }).expects(ProbeEvent::Opened { device }),
        (BtProbe { phase: ProbePhase::Settle }).expects(ProbeEvent::Slept),
        (BtProbe { phase: ProbePhase::Claim { attempt } }).expects(ProbeEvent::Claimed(claim))
            <==> attempt < 8,
        (BtProbe { phase: ProbePhase::Claim { attempt } }).expects(ProbeEvent::Slept) <==> attempt
            < 8,
        !(BtProbe { phase: ProbePhase::Over }).expects(ProbeEvent::Slept),
{
}

} // verus!
