//! The keyboard's battery as the Bluetooth daemon tells it, while the keyboard is not on USB.
use vstd::prelude::*;

use crate::text::contains;

verus! {

pub const BT_USB_STATE_POLL_SECS: u64 = 5;

pub const BT_SEARCH_PAUSE_SECS: u64 = 10;

pub const BT_MONITOR_PAUSE_SECS: u64 = 2;

/// A device of the Bluetooth daemon.
pub struct BluezDevice {
    pub path: String,
    pub has_battery: bool,
    pub name: Option<String>,
}

/// An upper-case name is that of the keyboard.
pub open spec fn names_keyboard(upper: Seq<char>) -> bool {
    crate::text::contains_text(upper, "ASUS"@) || crate::text::contains_text(upper, "KEYBOARD"@)
}

/// Whether an upper-case name is that of the keyboard.
pub fn is_keyboard_name(upper: &str) -> (r: bool)
    ensures
        r == names_keyboard(upper@),
{
    contains(upper, "ASUS") || contains(upper, "KEYBOARD")
}

/// The device is the keyboard and tells its battery.
pub open spec fn tells_battery(d: BluezDevice) -> bool {
    d.has_battery && (d.name matches Some(n) && names_keyboard(crate::text::uppercase(n@)))
}

/// Index of the first device that is the keyboard and tells its battery.
pub fn find_keyboard_bluez_path(devices: &Vec<BluezDevice>) -> (r: Option<usize>)
    ensures
        match r {
            Some(i) => i < devices@.len() && tells_battery(devices@[i as int]) && forall|j: int|
                0 <= j < i ==> !tells_battery(#[trigger] devices@[j]),
            None => forall|j: int|
                0 <= j < devices@.len() ==> !tells_battery(#[trigger] devices@[j]),
        },
{
    let mut i: usize = 0;
    while i < devices.len()
        invariant
            i <= devices@.len(),
            forall|j: int| 0 <= j < i ==> !tells_battery(#[trigger] devices@[j]),
        decreases devices@.len() - i,
    {
        let d = &devices[i];
        let is_keyboard = match &d.name {
            Some(n) => {
                let upper = crate::text::to_uppercase(n.as_str());
                is_keyboard_name(upper.as_str())
            },
            None => false,
        };
        if d.has_battery && is_keyboard {
            return Some(i);
        }
        i = i + 1;
    }
    None
}

/// What the battery monitor learns. Each comes with whether the keyboard is on USB now.
#[derive(Clone, Copy, Debug, PartialEq, Eq, Structural)]
pub enum BtBatteryEvent {
    /// The monitor starts, or the pause after a search is over.
    Started,
    /// The keyboard was looked for.
    Searched { found: bool },
    /// The link was asked for, at first or after a change; `None` stands for no answer.
    Link { connected: Option<bool>, first: bool },
    /// The battery was asked for; `None` stands for no answer.
    Level(Option<u8>),
    /// The link may have changed.
    LinkChanged,
    /// The battery may have changed.
    LevelChanged,
    /// The regular look at the USB connection.
    Tick,
    LinkStreamEnded,
    LevelStreamEnded,
}

#[derive(Clone, Copy, Debug, PartialEq, Eq, Structural)]
pub enum BtBatteryAction {
    Search,
    SearchAfter { secs: u64 },
    /// Ask for the link, then for the battery.
    ReadLink,
    ReadLevel,
    SetLevel(u8),
    ClearLevel,
    /// Wait for a change.
    Await,
    /// The monitor ends; it is started again after a pause.
    End,
}

/// How the monitor goes on: it ends as soon as the keyboard is on USB, when the link is lost, and
/// when changes can no longer be told.
pub open spec fn battery_step(event: BtBatteryEvent, usb: bool) -> Seq<BtBatteryAction> {
    match event {
        BtBatteryEvent::Started => if usb {
            seq![BtBatteryAction::End]
        } else {
            seq![BtBatteryAction::Search]
        },
        BtBatteryEvent::Searched { found } => if found {
            seq![BtBatteryAction::ReadLink]
        } else {
            seq![BtBatteryAction::SearchAfter { secs: BT_SEARCH_PAUSE_SECS }]
        },
        BtBatteryEvent::Link { connected, first } => if connected == Some(false) {
            seq![BtBatteryAction::ClearLevel, BtBatteryAction::End]
        } else if first {
            seq![BtBatteryAction::ReadLevel]
        } else if usb {
            seq![BtBatteryAction::End]
        } else {
            seq![BtBatteryAction::Await]
        },
        BtBatteryEvent::Level(level) => (match level {
            Some(pct) => seq![BtBatteryAction::SetLevel(pct)],
            None => Seq::empty(),
        }) + (if usb {
            seq![BtBatteryAction::End]
        } else {
            seq![BtBatteryAction::Await]
        }),
        BtBatteryEvent::LinkChanged => seq![BtBatteryAction::ReadLink],
        BtBatteryEvent::LevelChanged => seq![BtBatteryAction::ReadLevel],
        BtBatteryEvent::Tick => if usb {
            seq![BtBatteryAction::End]
        } else {
            seq![BtBatteryAction::Await]
        },
        BtBatteryEvent::LinkStreamEnded => seq![BtBatteryAction::End],
        BtBatteryEvent::LevelStreamEnded => seq![BtBatteryAction::End],
    }
}

/// One step of the battery monitor.
pub fn monitor_bt_battery_once(event: BtBatteryEvent, usb_connected: bool) -> (actions: Vec<
    BtBatteryAction,
>)
    ensures
        actions@ == battery_step(event, usb_connected),
{
    let mut actions: Vec<BtBatteryAction> = Vec::new();
    let rest = if usb_connected {
        BtBatteryAction::End
    } else {
        BtBatteryAction::Await
    };
    match event {
        BtBatteryEvent::Started => {
            if usb_connected {
                actions.push(BtBatteryAction::End);
            } else {
                actions.push(BtBatteryAction::Search);
            }
        },
        BtBatteryEvent::Searched { found } => {
            if found {
                actions.push(BtBatteryAction::ReadLink);
            } else {
                actions.push(BtBatteryAction::SearchAfter { secs: BT_SEARCH_PAUSE_SECS });
            }
        },
        BtBatteryEvent::Link { connected, first } => {
            let lost = match connected {
                Some(b) => !b,
                None => false,
            };
            if lost {
                actions.push(BtBatteryAction::ClearLevel);
                actions.push(BtBatteryAction::End);
            } else if first {
                actions.push(BtBatteryAction::ReadLevel);
            } else {
                actions.push(rest);
            }
        },
        BtBatteryEvent::Level(level) => {
            match level {
                Some(pct) => {
                    actions.push(BtBatteryAction::SetLevel(pct));
                },
                None => {},
            }
            actions.push(rest);
        },
        BtBatteryEvent::LinkChanged => {
            actions.push(BtBatteryAction::ReadLink);
        },
        BtBatteryEvent::LevelChanged => {
            actions.push(BtBatteryAction::ReadLevel);
        },
        BtBatteryEvent::Tick => {
            actions.push(rest);
        },
        BtBatteryEvent::LinkStreamEnded => {
            actions.push(BtBatteryAction::End);
        },
        BtBatteryEvent::LevelStreamEnded => {
            actions.push(BtBatteryAction::End);
        },
    }
    proof {
        assert(actions@ =~= battery_step(event, usb_connected));
    }
    actions
}

/// The keyboard is known by either of two words in its name, and is of use if it tells its battery.
pub proof fn law_keyboards_by_name(upper: Seq<char>, d: BluezDevice)
    ensures
        names_keyboard(upper) <==> crate::text::contains_text(upper, "ASUS"@)
            || crate::text::contains_text(upper, "KEYBOARD"@),
        tells_battery(d) <==> d.has_battery && d.name is Some && names_keyboard(
            crate::text::uppercase(d.name->0@),
        ),
        BT_USB_STATE_POLL_SECS == 5,
        BT_MONITOR_PAUSE_SECS == 2,
{
}

/// The monitor begins with a search, unless the keyboard is on USB; a keyboard that is not found is
/// looked for again after ten seconds, and one that is found is asked for its link.
pub proof fn law_battery_search(usb: bool)
    ensures
        battery_step(BtBatteryEvent::Started, true) =~= seq![BtBatteryAction::End],
        battery_step(BtBatteryEvent::Started, false) =~= seq![BtBatteryAction::Search],
        battery_step(BtBatteryEvent::Searched { found: true }, usb) =~= seq![
            BtBatteryAction::ReadLink,
        ],
        battery_step(BtBatteryEvent::Searched { found: false }, usb) =~= seq![
            BtBatteryAction::SearchAfter { secs: 10 },
        ],
{
}

/// A lost link forgets the level and ends the monitor; otherwise the level is asked for at first, and
/// later the monitor waits until the keyboard is on USB.
pub proof fn law_battery_link(connected: Option<bool>, first: bool, usb: bool)
    ensures
        battery_step(BtBatteryEvent::Link { connected: Some(false), first }, usb) =~= seq![
            BtBatteryAction::ClearLevel,
            BtBatteryAction::End,
        ],
        connected != Some(false) ==> battery_step(
            BtBatteryEvent::Link { connected, first: true },
            usb,
        ) =~= seq![BtBatteryAction::ReadLevel],
        connected != Some(false) ==> battery_step(
            BtBatteryEvent::Link { connected, first: false },
            true,
        ) =~= seq![BtBatteryAction::End],
        connected != Some(false) ==> battery_step(
            BtBatteryEvent::Link { connected, first: false },
            false,
        ) =~= seq![BtBatteryAction::Await],
        battery_step(BtBatteryEvent::LinkChanged, usb) =~= seq![BtBatteryAction::ReadLink],
        battery_step(BtBatteryEvent::LinkStreamEnded, usb) =~= seq![BtBatteryAction::End],
{
}

/// A level is taken as it was told; the monitor waits for the next until the keyboard is on USB.
pub proof fn law_battery_level(pct: u8, usb: bool)
    ensures
        battery_step(BtBatteryEvent::Level(Some(pct)), false) =~= seq![
            BtBatteryAction::SetLevel(pct),
            BtBatteryAction::Await,
        ],
        battery_step(BtBatteryEvent::Level(Some(pct)), true) =~= seq![
            BtBatteryAction::SetLevel(pct),
            BtBatteryAction::End,
        ],
        battery_step(BtBatteryEvent::Level(None), false) =~= seq![BtBatteryAction::Await],
        battery_step(BtBatteryEvent::Level(None), true) =~= seq![BtBatteryAction::End],
        battery_step(BtBatteryEvent::LevelChanged, usb) =~= seq![BtBatteryAction::ReadLevel],
        battery_step(BtBatteryEvent::Tick, false) =~= seq![BtBatteryAction::Await],
        battery_step(BtBatteryEvent::Tick, true) =~= seq![BtBatteryAction::End],
        battery_step(BtBatteryEvent::LevelStreamEnded, usb) =~= seq![BtBatteryAction::End],
{
}

} // verus!
