//! The keyboard on USB: reports of its vendor channel, and the sessions that follow its hotplug
//! events.
use vstd::prelude::*;

use crate::config::{special_key, SpecialKey};
use crate::events::Event;
use crate::keyboard_battery::{parse_usb_battery_report, plausible_usb_battery_sample};
use crate::state::KeyboardBacklightState;

verus! {

/// The USB interface of the vendor channel.
pub const VENDOR_INTERFACE: u8 = 4;

pub const USB_BATTERY_GET_POLL_SECS: u64 = 30;

/// How long a stale session is given to end before a new one starts.
pub const REPLACE_DELAY_MS: u64 = 120;

/// Pause after a failed read.
pub const READ_ERROR_DELAY_MS: u64 = 100;

// ── Reports to the keyboard ──────────────────────────────────────────────────

/// A report of sixteen bytes that begins with the given ones.
pub open spec fn padded(head: Seq<u8>) -> Seq<u8> {
    head + Seq::new((16 - head.len()) as nat, |i: int| 0u8)
}

fn pad(head: Vec<u8>) -> (r: Vec<u8>)
    requires
        head@.len() <= 16,
    ensures
        r@ == padded(head@),
{
    let mut out = head;
    let ghost start = out@;
    while out.len() < 16
        invariant
            start.len() <= out@.len() <= 16,
            out@ =~= start + Seq::new((out@.len() - start.len()) as nat, |i: int| 0u8),
        decreases 16 - out@.len(),
    {
        out.push(0);
    }
    out
}

/// The report that sets the backlight.
pub fn backlight_report(state: KeyboardBacklightState) -> (r: Vec<u8>)
    ensures
        r@ == padded(seq![0x5au8, 0xba, 0xc5, 0xc4, state.rank()]),
{
    pad(vec![0x5a, 0xba, 0xc5, 0xc4, state.level()])
}

/// The report that sets the microphone LED.
pub fn mic_mute_report(muted: bool) -> (r: Vec<u8>)
    ensures
        r@ == padded(
            seq![
                0x5au8,
                0xd0,
                0x7c,
                if muted {
                    1u8
                } else {
                    0u8
                },
            ],
        ),
{
    let value: u8 = if muted {
        1
    } else {
        0
    };
    pad(vec![0x5a, 0xd0, 0x7c, value])
}

/// The report that sets the Fn lock; with it the top row gives multimedia keys without Fn.
pub fn fn_lock_report(fn_lock: bool) -> (r: Vec<u8>)
    ensures
        r@ == padded(
            seq![
                0x5au8,
                0xd0,
                0x4e,
                if fn_lock {
                    0u8
                } else {
                    1u8
                },
            ],
        ),
{
    let value: u8 = if fn_lock {
        0
    } else {
        1
    };
    pad(vec![0x5a, 0xd0, 0x4e, value])
}

/// The report that asks for the battery.
pub fn battery_query_report() -> (r: Vec<u8>)
    ensures
        r@ == padded(seq![0x5au8, 0x3d]),
{
    pad(vec![0x5a, 0x3d])
}

/// The report that an event of the daemon asks for, if any.
pub fn control_report(event: Event) -> (r: Option<Vec<u8>>)
    ensures
        match event {
            Event::Backlight(state) => r matches Some(bytes) && bytes@ == padded(
                seq![0x5au8, 0xba, 0xc5, 0xc4, state.rank()],
            ),
            Event::MicMuteLed(on) => r matches Some(bytes) && bytes@ == padded(
                seq![
                    0x5au8,
                    0xd0,
                    0x7c,
                    if on {
                        1u8
                    } else {
                        0u8
                    },
                ],
            ),
            _ => r is None,
        },
{
    match event {
        Event::Backlight(state) => Some(backlight_report(state)),
        Event::MicMuteLed(on) => Some(mic_mute_report(on)),
        _ => None,
    }
}

// ── Reports from the keyboard ────────────────────────────────────────────────

/// What a report of the vendor channel says.
#[derive(Clone, Copy, Debug, PartialEq, Eq, Structural)]
pub enum VendorReport {
    Battery { pct: u8, status: u8 },
    /// No special key is pressed, or none that is known.
    Released,
    Key(SpecialKey),
}

/// A battery sample comes first. A key report is six bytes: the channel's, the key's code, and
/// zeros. Anything else counts as all keys released.
pub open spec fn report_meaning(data: Seq<u8>) -> VendorReport {
    if let Some((pct, status)) = polled_sample(data) {
        VendorReport::Battery { pct, status }
    } else if data.len() == 6 && data[0] == 90 && data[2] == 0 && data[3] == 0 && data[4] == 0
        && data[5] == 0 {
        match crate::config::key_of_code(data[1] as int) {
            Some(key) => VendorReport::Key(key),
            None => VendorReport::Released,
        }
    } else {
        VendorReport::Released
    }
}

/// Reads a report of the vendor channel.
pub fn parse_keyboard_data(data: &[u8]) -> (r: VendorReport)
    ensures
        r == report_meaning(data@),
{
    match parse_usb_battery_report(data) {
        Some((pct, status)) => {
            if plausible_usb_battery_sample(pct, status) {
                return VendorReport::Battery { pct, status };
            }
        },
        None => {},
    }
    if data.len() == 6 && data[0] == 90 && data[2] == 0 && data[3] == 0 && data[4] == 0 && data[5]
        == 0 {
        match special_key(data[1] as i32) {
            Some(key) => VendorReport::Key(key),
            None => VendorReport::Released,
        }
    } else {
        VendorReport::Released
    }
}

/// The battery sample in the answer to a query, if it is one.
pub open spec fn polled_sample(data: Seq<u8>) -> Option<(u8, u8)> {
    match crate::keyboard_battery::battery_report(data) {
        Some((pct, status)) => if crate::keyboard_battery::plausible(pct, status) {
            Some((pct, status))
        } else {
            None
        },
        None => None,
    }
}

/// Reads the answer to a battery query.
pub fn poll_usb_battery_via_get_report(data: &[u8]) -> (r: Option<(u8, u8)>)
    ensures
        r == polled_sample(data@),
{
    match parse_usb_battery_report(data) {
        Some((pct, status)) => if plausible_usb_battery_sample(pct, status) {
            Some((pct, status))
        } else {
            None
        },
        None => None,
    }
}

/// A battery report is never taken for a key, and a pressed key never for a battery report.
pub proof fn law_reports_are_unambiguous(data: Seq<u8>)
    ensures
        report_meaning(data) is Key ==> polled_sample(data) is None,
        polled_sample(data) is Some ==> report_meaning(data) is Battery,
{
}

// ── One session ──────────────────────────────────────────────────────────────

/// What a keyboard session is told.
pub enum UsbEvent {
    /// The device was opened; the dock was looked up.
    Opened { docked: bool },
    /// The vendor channel could be claimed, or not.
    Claimed(bool),
    /// The channel's endpoint could be opened, or not.
    EndpointReady(bool),
    /// A report of the vendor channel.
    Report(Vec<u8>),
    ReadError,
    Shutdown,
}

/// What a keyboard session does.
pub enum UsbAction {
    SetConnection { usb: bool, docked: bool },
    NotifyActivity,
    ClaimInterface,
    OpenEndpoint,
    /// Send a report to the keyboard, which has to take it.
    MustSend(Vec<u8>),
    /// Send a report to the keyboard; a failure does not matter.
    Send(Vec<u8>),
    /// Start the tasks that forward events, poll the battery and read reports.
    StartTasks,
    Handle(VendorReport),
    SleepMs(u64),
    ReleaseAllKeys,
    Stop,
}

pub enum UsbActionView {
    SetConnection { usb: bool, docked: bool },
    NotifyActivity,
    ClaimInterface,
    OpenEndpoint,
    MustSend(Seq<u8>),
    Send(Seq<u8>),
    StartTasks,
    Handle(VendorReport),
    SleepMs(u64),
    ReleaseAllKeys,
    Stop,
}

impl View for UsbAction {
    type V = UsbActionView;

    open spec fn view(&self) -> UsbActionView {
        match self {
            UsbAction::SetConnection { usb, docked } => UsbActionView::SetConnection {
                usb: *usb,
                docked: *docked,
            },
            UsbAction::NotifyActivity => UsbActionView::NotifyActivity,
            UsbAction::ClaimInterface => UsbActionView::ClaimInterface,
            UsbAction::OpenEndpoint => UsbActionView::OpenEndpoint,
            UsbAction::MustSend(bytes) => UsbActionView::MustSend(bytes@),
            UsbAction::Send(bytes) => UsbActionView::Send(bytes@),
            UsbAction::StartTasks => UsbActionView::StartTasks,
            UsbAction::Handle(r) => UsbActionView::Handle(*r),
            UsbAction::SleepMs(ms) => UsbActionView::SleepMs(*ms),
            UsbAction::ReleaseAllKeys => UsbActionView::ReleaseAllKeys,
            UsbAction::Stop => UsbActionView::Stop,
        }
    }
}

pub open spec fn actions_view(actions: Seq<UsbAction>) -> Seq<UsbActionView> {
    Seq::new(actions.len(), |i: int| actions[i]@)
}

/// What the keyboard is to be set to when a session starts.
#[derive(Clone, Copy, Debug, PartialEq, Eq, Structural)]
pub struct UsbSessionSettings {
    pub fn_lock: bool,
    pub backlight: KeyboardBacklightState,
    pub mic_mute_led: bool,
}

/// How a session goes: the connection is published as soon as the device is open; without the
/// vendor channel nothing more happens; with it the keyboard is set up and read until the end.
pub open spec fn session_step(settings: UsbSessionSettings, event: UsbEvent) -> Seq<UsbActionView> {
    match event {
        UsbEvent::Opened { docked } => seq![
            UsbActionView::SetConnection { usb: true, docked },
            UsbActionView::NotifyActivity,
            UsbActionView::ClaimInterface,
        ],
        UsbEvent::Claimed(ok) => if ok {
            seq![UsbActionView::OpenEndpoint]
        } else {
            Seq::empty()
        },
        UsbEvent::EndpointReady(ok) => if ok {
            seq![
                UsbActionView::MustSend(
                    padded(
                        seq![
                            0x5au8,
                            0xd0,
                            0x4e,
                            if settings.fn_lock {
                                0u8
                            } else {
                                1u8
                            },
                        ],
                    ),
                ),
                UsbActionView::Send(
                    padded(seq![0x5au8, 0xba, 0xc5, 0xc4, settings.backlight.rank()]),
                ),
                UsbActionView::Send(
                    padded(
                        seq![
                            0x5au8,
                            0xd0,
                            0x7c,
                            if settings.mic_mute_led {
                                1u8
                            } else {
                                0u8
                            },
                        ],
                    ),
                ),
                UsbActionView::StartTasks,
            ]
        } else {
            Seq::empty()
        },
        UsbEvent::Report(data) => seq![
            UsbActionView::NotifyActivity,
            UsbActionView::Handle(report_meaning(data@)),
        ],
        UsbEvent::ReadError => seq![UsbActionView::SleepMs(READ_ERROR_DELAY_MS)],
        UsbEvent::Shutdown => seq![
            UsbActionView::SetConnection { usb: false, docked: false },
            UsbActionView::ReleaseAllKeys,
            UsbActionView::Stop,
        ],
    }
}

/// What a keyboard session does on an event.
pub fn usb_session_step(settings: UsbSessionSettings, event: UsbEvent) -> (actions: Vec<UsbAction>)
    ensures
        actions_view(actions@) == session_step(settings, event),
{
    let mut actions: Vec<UsbAction> = Vec::new();
    match &event {
        UsbEvent::Opened { docked } => {
            actions.push(UsbAction::SetConnection { usb: true, docked: *docked });
            actions.push(UsbAction::NotifyActivity);
            actions.push(UsbAction::ClaimInterface);
        },
        UsbEvent::Claimed(ok) => {
            if *ok {
                actions.push(UsbAction::OpenEndpoint);
            }
        },
        UsbEvent::EndpointReady(ok) => {
            if *ok {
                actions.push(UsbAction::MustSend(fn_lock_report(settings.fn_lock)));
                actions.push(UsbAction::Send(backlight_report(settings.backlight)));
                actions.push(UsbAction::Send(mic_mute_report(settings.mic_mute_led)));
                actions.push(UsbAction::StartTasks);
            }
        },
        UsbEvent::Report(data) => {
            actions.push(UsbAction::NotifyActivity);
            actions.push(UsbAction::Handle(parse_keyboard_data(data.as_slice())));
        },
        UsbEvent::ReadError => {
            actions.push(UsbAction::SleepMs(READ_ERROR_DELAY_MS));
        },
        UsbEvent::Shutdown => {
            actions.push(UsbAction::SetConnection { usb: false, docked: false });
            actions.push(UsbAction::ReleaseAllKeys);
            actions.push(UsbAction::Stop);
        },
    }
    proof {
        assert(actions_view(actions@) =~= session_step(settings, event));
    }
    actions
}

// ── Hotplug ──────────────────────────────────────────────────────────────────

/// A hotplug event. Devices are known by numbers.
#[derive(Clone, Copy, Debug, PartialEq, Eq, Structural)]
pub enum HotplugEvent {
    Connected { device: u64, vendor_id: u16, product_id: u16 },
    Disconnected { device: u64 },
}

#[derive(Clone, Copy, Debug, PartialEq, Eq, Structural)]
pub enum HotplugAction {
    /// Ask the session of this device to end.
    Shutdown { device: u64 },
    SleepMs(u64),
    /// Start a session for this device.
    Start { device: u64 },
}

/// The keyboard whose session is on.
#[derive(Clone, Copy, Debug, PartialEq, Eq, Structural)]
pub struct UsbMonitor {
    pub current: Option<u64>,
    pub vendor_id: u16,
    pub product_id: u16,
}

impl UsbMonitor {
    /// A connected keyboard replaces the one whose session is on; a disconnected one ends its
    /// session. Other devices do not matter.
    pub open spec fn next(self, event: HotplugEvent) -> (UsbMonitor, Seq<HotplugAction>) {
        match event {
            HotplugEvent::Connected { device, vendor_id, product_id } => if vendor_id
                == self.vendor_id && product_id == self.product_id {
                (
                    UsbMonitor { current: Some(device), ..self },
                    (match self.current {
                        Some(previous) => seq![
                            HotplugAction::Shutdown { device: previous },
                            HotplugAction::SleepMs(REPLACE_DELAY_MS),
                        ],
                        None => Seq::empty(),
                    }) + seq![HotplugAction::Start { device }],
                )
            } else {
                (self, Seq::empty())
            },
            HotplugEvent::Disconnected { device } => if self.current == Some(device) {
                (
                    UsbMonitor { current: None, ..self },
                    seq![HotplugAction::Shutdown { device }],
                )
            } else {
                (self, Seq::empty())
            },
        }
    }

    /// Takes a hotplug event and says what to do.
    pub fn step(&mut self, event: HotplugEvent) -> (actions: Vec<HotplugAction>)
        ensures
            *final(self) == old(self).next(event).0,
            actions@ == old(self).next(event).1,
    {
        let mut actions: Vec<HotplugAction> = Vec::new();
        match event {
            HotplugEvent::Connected { device, vendor_id, product_id } => {
                if vendor_id == self.vendor_id && product_id == self.product_id {
                    match self.current {
                        Some(previous) => {
                            actions.push(HotplugAction::Shutdown { device: previous });
                            actions.push(HotplugAction::SleepMs(REPLACE_DELAY_MS));
                        },
                        None => {},
                    }
                    actions.push(HotplugAction::Start { device });
                    self.current = Some(device);
                }
            },
            HotplugEvent::Disconnected { device } => {
                let is_current = match self.current {
                    Some(current) => current == device,
                    None => false,
                };
                if is_current {
                    actions.push(HotplugAction::Shutdown { device });
                    self.current = None;
                }
            },
        }
        proof {
            assert(actions@ =~= old(self).next(event).1);
        }
        actions
    }
}

/// There is at most one session: whenever one starts, the one before has been asked to end.
pub proof fn law_one_usb_session(m: UsbMonitor, event: HotplugEvent)
    ensures
        m.current is Some && m.next(event).0.current != m.current ==> m.next(event).1.len() > 0
            && m.next(event).1[0] == (HotplugAction::Shutdown { device: m.current->0 }),
        m.next(event).1.len() > 0 && m.next(event).1.last() is Start ==> m.next(event).0.current
            == Some(m.next(event).1.last()->Start_device),
{
}

// ── What the vendor channel is for ───────────────────────────────────────────

/// A report is sixteen bytes long, begins with its head and is zero behind it.
pub proof fn law_reports_have_sixteen_bytes(head: Seq<u8>, i: int)
    requires
        head.len() <= 16,
        0 <= i < 16,
    ensures
        padded(head).len() == 16,
        i < head.len() ==> padded(head)[i] == head[i],
        i >= head.len() ==> padded(head)[i] == 0,
{
}

/// Exactly one report stands for each special key: the channel's byte, the key's code, and zeros.
pub proof fn law_key_reports(data: Seq<u8>)
    ensures
        report_meaning(data) == VendorReport::Key(SpecialKey::KeyboardBacklight) <==> data == seq![
            90u8, 199, 0, 0, 0, 0,
        ],
        report_meaning(data) == VendorReport::Key(SpecialKey::BrightnessDown) <==> data == seq![
            90u8, 16, 0, 0, 0, 0,
        ],
        report_meaning(data) == VendorReport::Key(SpecialKey::BrightnessUp) <==> data == seq![
            90u8, 32, 0, 0, 0, 0,
        ],
        report_meaning(data) == VendorReport::Key(SpecialKey::SwapUpDownDisplay) <==> data == seq![
            90u8, 156, 0, 0, 0, 0,
        ],
        report_meaning(data) == VendorReport::Key(SpecialKey::MicrophoneMute) <==> data == seq![
            90u8, 124, 0, 0, 0, 0,
        ],
        report_meaning(data) == VendorReport::Key(SpecialKey::EmojiPicker) <==> data == seq![
            90u8, 126, 0, 0, 0, 0,
        ],
        report_meaning(data) == VendorReport::Key(SpecialKey::MyAsus) <==> data == seq![
            90u8, 134, 0, 0, 0, 0,
        ],
        report_meaning(data) == VendorReport::Key(SpecialKey::ToggleSecondaryDisplay) <==> data
            == seq![90u8, 106, 0, 0, 0, 0],
{
    if data.len() == 6 && data[0] == 90 && data[2] == 0 && data[3] == 0 && data[4] == 0 && data[5]
        == 0 {
        assert(data =~= seq![90u8, data[1], 0, 0, 0, 0]);
        crate::config::law_special_key_codes(data[1] as int);
    }
    assert(seq![90u8, 199, 0, 0, 0, 0][1] == 199);
    assert(seq![90u8, 16, 0, 0, 0, 0][1] == 16);
    assert(seq![90u8, 32, 0, 0, 0, 0][1] == 32);
    assert(seq![90u8, 156, 0, 0, 0, 0][1] == 156);
    assert(seq![90u8, 124, 0, 0, 0, 0][1] == 124);
    assert(seq![90u8, 126, 0, 0, 0, 0][1] == 126);
    assert(seq![90u8, 134, 0, 0, 0, 0][1] == 134);
    assert(seq![90u8, 106, 0, 0, 0, 0][1] == 106);
}

/// A battery report is told with its percentage and status unless it is all zero; what is neither
/// that nor a key counts as released.
pub proof fn law_battery_and_other_reports(data: Seq<u8>, pct: u8, status: u8)
    ensures
        report_meaning(data) == (VendorReport::Battery { pct, status }) <==> data.len() >= 4
            && data[0] == 0x5a && data[1] == 0x3d && data[2] == pct && data[3] == status && pct
            <= 100 && (pct != 0 || status != 0),
        polled_sample(data) == Some((pct, status)) <==> report_meaning(data) == (
        VendorReport::Battery { pct, status }),
        data.len() != 6 && !(report_meaning(data) is Battery) ==> report_meaning(data)
            == VendorReport::Released,
{
}

/// A keyboard that was opened is published as connected, docked or not as it was found, and counts
/// as activity, before its vendor channel is claimed.
pub proof fn law_opened_keyboard_is_published(settings: UsbSessionSettings, docked: bool)
    ensures
        session_step(settings, UsbEvent::Opened { docked }) =~= seq![
            UsbActionView::SetConnection { usb: true, docked },
            UsbActionView::NotifyActivity,
            UsbActionView::ClaimInterface,
        ],
        session_step(settings, UsbEvent::Claimed(true)) =~= seq![UsbActionView::OpenEndpoint],
        session_step(settings, UsbEvent::Claimed(false)).len() == 0,
        session_step(settings, UsbEvent::EndpointReady(false)).len() == 0,
{
}

/// With its channel open, the keyboard is told the Fn lock, the backlight and the microphone LED, in
/// that order, and then the tasks start.
pub proof fn law_keyboard_is_set_up(settings: UsbSessionSettings)
    ensures
        ({
            let actions = session_step(settings, UsbEvent::EndpointReady(true));
            &&& actions.len() == 4
            &&& actions[0] matches UsbActionView::MustSend(report) && report.len() == 16
                && report[0] == 0x5a && report[1] == 0xd0 && report[2] == 0x4e && (report[3] == 0
                <==> settings.fn_lock) && (report[3] == 1 <==> !settings.fn_lock)
            &&& actions[1] matches UsbActionView::Send(report) && report.len() == 16 && report[0]
                == 0x5a && report[1] == 0xba && report[2] == 0xc5 && report[3] == 0xc4 && report[4]
                == settings.backlight.rank()
            &&& actions[2] matches UsbActionView::Send(report) && report.len() == 16 && report[0]
                == 0x5a && report[1] == 0xd0 && report[2] == 0x7c && (report[3] == 1
                <==> settings.mic_mute_led) && (report[3] == 0 <==> !settings.mic_mute_led)
            &&& actions[3] is StartTasks
        }),
{
}

/// Every report counts as activity and is handled for what it means; a failed read is followed by a
/// pause; the end of the session publishes the keyboard as gone and releases its keys.
pub proof fn law_session_reads_until_its_end(settings: UsbSessionSettings, data: Vec<u8>)
    ensures
        session_step(settings, UsbEvent::Report(data)) =~= seq![
            UsbActionView::NotifyActivity,
            UsbActionView::Handle(report_meaning(data@)),
        ],
        session_step(settings, UsbEvent::ReadError) =~= seq![UsbActionView::SleepMs(100)],
        session_step(settings, UsbEvent::Shutdown) =~= seq![
            UsbActionView::SetConnection { usb: false, docked: false },
            UsbActionView::ReleaseAllKeys,
            UsbActionView::Stop,
        ],
{
}

/// A device with the keyboard's ids starts a session, after the one before was asked to end and
/// given 120 milliseconds; a device with other ids has no effect.
pub proof fn law_connected_keyboard_starts_a_session(
    m: UsbMonitor,
    device: u64,
    vendor_id: u16,
    product_id: u16,
)
    ensures
        ({
            let (t, actions) = m.next(
                HotplugEvent::Connected { device, vendor_id, product_id },
            );
            &&& t.vendor_id == m.vendor_id && t.product_id == m.product_id
            &&& (vendor_id != m.vendor_id || product_id != m.product_id) ==> t == m
                && actions.len() == 0
            &&& vendor_id == m.vendor_id && product_id == m.product_id ==> t.current == Some(device)
                && actions.len() > 0 && actions.last() == (HotplugAction::Start { device })
            &&& vendor_id == m.vendor_id && product_id == m.product_id && m.current is None
                ==> actions.len() == 1
            &&& vendor_id == m.vendor_id && product_id == m.product_id && m.current is Some
                ==> actions.len() == 3 && actions[0] == (HotplugAction::Shutdown {
                device: m.current->0,
            }) && actions[1] == HotplugAction::SleepMs(120)
        }),
{
}

/// The keyboard whose session is on ends it when it is unplugged; other devices come and go without
/// effect.
pub proof fn law_unplugged_keyboard_ends_its_session(m: UsbMonitor, device: u64)
    ensures
        ({
            let (t, actions) = m.next(HotplugEvent::Disconnected { device });
            &&& m.current == Some(device) ==> t.current is None && actions =~= seq![
                HotplugAction::Shutdown { device },
            ]
            &&& m.current != Some(device) ==> t == m && actions.len() == 0
        }),
{
}

/// Actions are seen as they are, one each, in order.
pub proof fn law_usb_actions_are_seen_as_they_are(
    actions: Seq<UsbAction>,
    i: int,
    usb: bool,
    docked: bool,
    bytes: Vec<u8>,
    report: VendorReport,
    ms: u64,
)
    ensures
        actions_view(actions).len() == actions.len(),
        0 <= i < actions.len() ==> actions_view(actions)[i] == actions[i]@,
        (UsbAction::SetConnection { usb, docked })@ == (UsbActionView::SetConnection {
            usb,
            docked,
        }),
        UsbAction::NotifyActivity@ is NotifyActivity,
        UsbAction::ClaimInterface@ is ClaimInterface,
        UsbAction::OpenEndpoint@ is OpenEndpoint,
        UsbAction::MustSend(bytes)@ == UsbActionView::MustSend(bytes@),
        UsbAction::Send(bytes)@ == UsbActionView::Send(bytes@),
        UsbAction::StartTasks@ is StartTasks,
        UsbAction::Handle(report)@ == UsbActionView::Handle(report),
        UsbAction::SleepMs(ms)@ == UsbActionView::SleepMs(ms),
        UsbAction::ReleaseAllKeys@ is ReleaseAllKeys,
        UsbAction::Stop@ is Stop,
        VENDOR_INTERFACE == 4,
        USB_BATTERY_GET_POLL_SECS == 30,
{
}

} // verus!
