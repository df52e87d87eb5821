//! Which of the two battery monitors runs: the one that asks the root daemon while the keyboard is
//! on USB, or the one that asks the keyboard over Bluetooth otherwise.
use vstd::prelude::*;

use crate::session::battery_notices::{BatteryReport, KEYBOARD_SEARCH_SECS};

verus! {

/// What the root daemon says of the battery; a property that could not be read is absent.
#[derive(Clone, Copy, Debug, PartialEq, Eq, Structural)]
pub struct UsbReading {
    pub present: Option<bool>,
    pub pct: Option<u8>,
    pub charging: Option<bool>,
    pub firmware_full: Option<bool>,
}

impl UsbReading {
    /// The report that a reading amounts to: none without a battery, `last` where the level is
    /// unknown, and neither charging nor full where that is unknown.
    pub open spec fn as_report(self, last: u8) -> Option<BatteryReport> {
        if self.present == Some(true) {
            Some(
                BatteryReport {
                    pct: match self.pct {
                        Some(p) => p,
                        None => last,
                    },
                    charging: self.charging == Some(true),
                    firmware_full: self.firmware_full == Some(true),
                },
            )
        } else {
            None
        }
    }

    /// The report that a reading amounts to.
    pub fn report(self, last: u8) -> (r: Option<BatteryReport>)
        ensures
            r == self.as_report(last),
    {
        match self.present {
            Some(true) => Some(
                BatteryReport {
                    pct: match self.pct {
                        Some(p) => p,
                        None => last,
                    },
                    charging: match self.charging {
                        Some(b) => b,
                        None => false,
                    },
                    firmware_full: match self.firmware_full {
                        Some(b) => b,
                        None => false,
                    },
                },
            ),
            _ => None,
        }
    }
}

/// What has happened to the monitors.
#[derive(Clone, Copy, Debug, PartialEq, Eq, Structural)]
pub enum MonitorEvent {
    /// Neither monitor runs.
    Idle,
    /// On USB: the first reading.
    UsbStarted(UsbReading),
    /// On USB: a change was told, or it is time to ask.
    UsbStirred {
        /// The change was one of the cable.
        cable: bool,
    },
    /// On USB: what was read then, and the last level.
    UsbRead { reading: UsbReading, last: u8 },
    /// On Bluetooth: the keyboard was looked for.
    Searched { found: bool },
    /// On Bluetooth: the first level, if it could be read.
    BluetoothStarted(Option<u8>),
    /// On Bluetooth: a new level was told; absent if it could not be read.
    LevelTold(Option<u8>),
    /// On Bluetooth: it was time to ask; the level, if it could be read, and the last one.
    LevelAsked { level: Option<u8>, last: u8 },
    /// On Bluetooth: a change of the link was told; absent if it could not be read.
    LinkTold(Option<bool>),
}

/// What is to be done next.
#[derive(Clone, Copy, Debug, PartialEq, Eq, Structural)]
pub enum MonitorAction {
    /// Start the monitor on USB with a reading.
    StartUsb,
    /// Forget the charging rate.
    ResetRate,
    /// Look for the keyboard on Bluetooth.
    Search,
    SearchAfter { secs: u64 },
    /// Start the monitor on Bluetooth with a level.
    StartBluetooth,
    /// Begin to watch the battery on USB.
    BeginUsb(Option<BatteryReport>),
    ReadUsb,
    TakeReport(BatteryReport),
    /// Begin to watch the battery on Bluetooth.
    BeginBluetooth(Option<u8>),
    TakeLevel(u8),
    /// The link has changed: the monitor ends, in the way that the change calls for.
    TakeLink { connected: bool, usb_attached: bool },
    /// Wait for a change.
    Await,
    /// The monitor ends.
    End,
}

/// The monitor on USB goes on as long as the keyboard is there.
pub open spec fn usb_rest(usb_connected: bool) -> MonitorAction {
    if usb_connected {
        MonitorAction::Await
    } else {
        MonitorAction::End
    }
}

/// The monitor on Bluetooth goes on until the keyboard is on USB.
pub open spec fn bluetooth_rest(usb_connected: bool) -> MonitorAction {
    if usb_connected {
        MonitorAction::End
    } else {
        MonitorAction::Await
    }
}

pub open spec fn report_taken(report: Option<BatteryReport>) -> Seq<MonitorAction> {
    match report {
        Some(r) => seq![MonitorAction::TakeReport(r)],
        None => Seq::empty(),
    }
}

/// How the monitors go on after an event, given whether the keyboard is on USB now.
pub open spec fn monitor_actions(event: MonitorEvent, usb_connected: bool) -> Seq<MonitorAction> {
    match event {
        MonitorEvent::Idle => if usb_connected {
            seq![MonitorAction::StartUsb]
        } else {
            seq![MonitorAction::ResetRate, MonitorAction::Search]
        },
        MonitorEvent::UsbStarted(reading) => seq![MonitorAction::BeginUsb(reading.as_report(0))]
            + report_taken(reading.as_report(0)) + seq![usb_rest(usb_connected)],
        MonitorEvent::UsbStirred { cable } => if cable && !usb_connected {
            seq![MonitorAction::End]
        } else {
            seq![MonitorAction::ReadUsb]
        },
        MonitorEvent::UsbRead { reading, last } => report_taken(reading.as_report(last))
            + seq![usb_rest(usb_connected)],
        MonitorEvent::Searched { found } => if found {
            seq![MonitorAction::StartBluetooth]
        } else {
            seq![MonitorAction::SearchAfter { secs: KEYBOARD_SEARCH_SECS }]
        },
        MonitorEvent::BluetoothStarted(level) => seq![
            MonitorAction::BeginBluetooth(level),
            bluetooth_rest(usb_connected),
        ],
        MonitorEvent::LevelTold(Some(pct)) => seq![
            MonitorAction::TakeLevel(pct),
            bluetooth_rest(usb_connected),
        ],
        MonitorEvent::LevelAsked { level, last } => seq![
            MonitorAction::TakeLevel(
                match level {
                    Some(pct) => pct,
                    None => last,
                },
            ),
            bluetooth_rest(usb_connected),
        ],
        MonitorEvent::LinkTold(Some(connected)) => seq![
            MonitorAction::TakeLink { connected, usb_attached: usb_connected },
        ],
        MonitorEvent::LevelTold(None) | MonitorEvent::LinkTold(None) => seq![
            bluetooth_rest(usb_connected),
        ],
    }
}

/// One step of the battery monitors.
pub fn battery_monitor_step(event: MonitorEvent, usb_connected: bool) -> (r: Vec<MonitorAction>)
    ensures
        r@ == monitor_actions(event, usb_connected),
{
    let usb_rest = if usb_connected {
        MonitorAction::Await
    } else {
        MonitorAction::End
    };
    let bluetooth_rest = if usb_connected {
        MonitorAction::End
    } else {
        MonitorAction::Await
    };
    let mut r: Vec<MonitorAction> = Vec::new();
    match event {
        MonitorEvent::Idle => {
            if usb_connected {
                r.push(MonitorAction::StartUsb);
            } else {
                r.push(MonitorAction::ResetRate);
                r.push(MonitorAction::Search);
            }
        },
        MonitorEvent::UsbStarted(reading) => {
            let report = reading.report(0);
            r.push(MonitorAction::BeginUsb(report));
            if let Some(report) = report {
                r.push(MonitorAction::TakeReport(report));
            }
            r.push(usb_rest);
        },
        MonitorEvent::UsbStirred { cable } => {
            if cable && !usb_connected {
                r.push(MonitorAction::End);
            } else {
                r.push(MonitorAction::ReadUsb);
            }
        },
        MonitorEvent::UsbRead { reading, last } => {
            if let Some(report) = reading.report(last) {
                r.push(MonitorAction::TakeReport(report));
            }
            r.push(usb_rest);
        },
        MonitorEvent::Searched { found } => {
            if found {
                r.push(MonitorAction::StartBluetooth);
            } else {
                r.push(MonitorAction::SearchAfter { secs: KEYBOARD_SEARCH_SECS });
            }
        },
        MonitorEvent::BluetoothStarted(level) => {
            r.push(MonitorAction::BeginBluetooth(level));
            r.push(bluetooth_rest);
        },
        MonitorEvent::LevelTold(level) => {
            if let Some(pct) = level {
                r.push(MonitorAction::TakeLevel(pct));
            }
            r.push(bluetooth_rest);
        },
        MonitorEvent::LevelAsked { level, last } => {
            let pct: u8 = match level {
                Some(pct) => pct,
                None => last,
            };
            r.push(MonitorAction::TakeLevel(pct));
            r.push(bluetooth_rest);
        },
        MonitorEvent::LinkTold(link) => {
            match link {
                Some(connected) => {
                    r.push(MonitorAction::TakeLink { connected, usb_attached: usb_connected });
                },
                None => {
                    r.push(bluetooth_rest);
                },
            }
        },
    }
    proof {
        assert(r@ =~= monitor_actions(event, usb_connected));
    }
    r
}

/// The event belongs to the monitor on Bluetooth while it watches a battery.
pub open spec fn watches_bluetooth(event: MonitorEvent) -> bool {
    event is BluetoothStarted || event is LevelTold || event is LevelAsked || event is LinkTold
}

/// The monitor on USB waits only while the keyboard is on USB, the one on Bluetooth only while it
/// is not.
pub proof fn law_monitor_follows_the_cable(event: MonitorEvent, usb_connected: bool)
    ensures
        monitor_actions(event, usb_connected).contains(MonitorAction::Await) ==> if usb_connected {
            event is UsbStarted || event is UsbRead
        } else {
            watches_bluetooth(event)
        },
        (event is UsbStarted || event is UsbRead) ==> monitor_actions(event, usb_connected).last()
            == usb_rest(usb_connected),
{
    let actions = monitor_actions(event, usb_connected);
    if actions.contains(MonitorAction::Await) {
        let i = choose|i: int| 0 <= i < actions.len() && actions[i] is Await;
        assert(actions[i] is Await);
    }
}

/// A level that cannot be read counts as the last one.
pub proof fn law_unread_level_is_the_last(reading: UsbReading, last: u8, usb_connected: bool)
    requires
        reading.present == Some(true),
        reading.pct is None,
    ensures
        monitor_actions(MonitorEvent::UsbRead { reading, last }, usb_connected)[0] matches
            MonitorAction::TakeReport(report) && report.pct == last,
        monitor_actions(MonitorEvent::LevelAsked { level: None, last }, usb_connected)[0]
            == MonitorAction::TakeLevel(last),
{
}

// ── What the monitors do ─────────────────────────────────────────────────────

/// A reading of a battery that is there is a report with its level, or the last one, and with charging
/// and full where these are known to be so; without a battery there is none.
pub proof fn law_readings_are_reports(reading: UsbReading, last: u8)
    ensures
        reading.present != Some(true) ==> reading.as_report(last) is None,
        reading.present == Some(true) ==> reading.as_report(last) is Some && ({
            let r = reading.as_report(last)->0;
            &&& reading.pct matches Some(p) ==> r.pct == p
            &&& reading.pct is None ==> r.pct == last
            &&& r.charging <==> reading.charging == Some(true)
            &&& r.firmware_full <==> reading.firmware_full == Some(true)
        }),
{
}

/// On USB the monitor there is started; otherwise the rate is forgotten and the keyboard looked for
/// on Bluetooth, every ten seconds until it is found.
pub proof fn law_monitors_are_chosen(found: bool, usb: bool)
    ensures
        monitor_actions(MonitorEvent::Idle, true) =~= seq![MonitorAction::StartUsb],
        monitor_actions(MonitorEvent::Idle, false) =~= seq![
            MonitorAction::ResetRate,
            MonitorAction::Search,
        ],
        monitor_actions(MonitorEvent::Searched { found: true }, usb) =~= seq![
            MonitorAction::StartBluetooth,
        ],
        monitor_actions(MonitorEvent::Searched { found: false }, usb) =~= seq![
            MonitorAction::SearchAfter { secs: 10 },
        ],
{
}

/// On USB the first reading begins the watch and is taken as a report; a change is followed by
/// another reading, unless the cable is gone; what is read is taken as a report.
pub proof fn law_monitor_on_usb(reading: UsbReading, last: u8, cable: bool)
    ensures
        ({
            let actions = monitor_actions(MonitorEvent::UsbStarted(reading), true);
            &&& actions[0] == MonitorAction::BeginUsb(reading.as_report(0))
            &&& reading.present == Some(true) ==> actions.len() == 3 && actions[1]
                == MonitorAction::TakeReport(reading.as_report(0)->0)
            &&& reading.present != Some(true) ==> actions.len() == 2
            &&& actions.last() == MonitorAction::Await
        }),
        monitor_actions(MonitorEvent::UsbStarted(reading), false).last() == MonitorAction::End,
        monitor_actions(MonitorEvent::UsbStirred { cable: true }, false) =~= seq![
            MonitorAction::End,
        ],
        monitor_actions(MonitorEvent::UsbStirred { cable }, true) =~= seq![MonitorAction::ReadUsb],
        monitor_actions(MonitorEvent::UsbStirred { cable: false }, false) =~= seq![
            MonitorAction::ReadUsb,
        ],
        ({
            let actions = monitor_actions(MonitorEvent::UsbRead { reading, last }, true);
            &&& reading.present == Some(true) ==> actions =~= seq![
                MonitorAction::TakeReport(reading.as_report(last)->0),
                MonitorAction::Await,
            ]
            &&& reading.present != Some(true) ==> actions =~= seq![MonitorAction::Await]
        }),
        monitor_actions(MonitorEvent::UsbRead { reading, last }, false).last()
            == MonitorAction::End,
{
}

/// On Bluetooth a level is taken as it was told, or the last one where it could not be asked for; a
/// change of the link ends the monitor; it goes on until the keyboard is on USB.
pub proof fn law_monitor_on_bluetooth(level: Option<u8>, pct: u8, last: u8, connected: bool, usb: bool)
    ensures
        ({
            let rest = if usb {
                MonitorAction::End
            } else {
                MonitorAction::Await
            };
            &&& monitor_actions(MonitorEvent::BluetoothStarted(level), usb) =~= seq![
                MonitorAction::BeginBluetooth(level),
                rest,
            ]
            &&& monitor_actions(MonitorEvent::LevelTold(Some(pct)), usb) =~= seq![
                MonitorAction::TakeLevel(pct),
                rest,
            ]
            &&& monitor_actions(MonitorEvent::LevelAsked { level: Some(pct), last }, usb) =~= seq![
                MonitorAction::TakeLevel(pct),
                rest,
            ]
            &&& monitor_actions(MonitorEvent::LevelTold(None), usb) =~= seq![rest]
            &&& monitor_actions(MonitorEvent::LinkTold(None), usb) =~= seq![rest]
            &&& monitor_actions(MonitorEvent::LinkTold(Some(connected)), usb) =~= seq![
                MonitorAction::TakeLink { connected, usb_attached: usb },
            ]
        }),
{
}

} // verus!
