//! Notifications about the keyboard: their texts, their order, and when they are shown.
use vstd::prelude::*;

use crate::text::{decimal_text, join2, join3, same};

verus! {

pub const APP_NAME: &'static str = "zenbook-duo-daemon";

/// How long the hub port of a newly connected keyboard may take to be known.
pub const DOCK_SETTLE_MS: u64 = 400;

/// How long Bluetooth may take to connect after the keyboard was taken off.
pub const BLUETOOTH_SETTLE_MS: u64 = 2_500;

pub const KEYBOARD_TOAST_MS: i32 = 10_000;

pub const URGENCY_NORMAL: u8 = 1;

pub const URGENCY_CRITICAL: u8 = 2;

// ── Notifications ────────────────────────────────────────────────────────────

/// How a notification relates to the one before.
#[derive(Clone, Copy, Debug, PartialEq, Eq, Structural)]
pub enum ToastStyle {
    /// Shown briefly, after the one before was closed: one that stays does not become brief by
    /// being replaced.
    Fresh,
    /// Stays until it is dismissed, in place of the one before.
    Chained,
}

/// A notification.
pub struct Toast {
    pub style: ToastStyle,
    pub icon: String,
    pub summary: String,
    pub body: String,
    pub urgency: u8,
    pub image: Option<String>,
    pub expire_ms: i32,
}

pub struct ToastView {
    pub style: ToastStyle,
    pub icon: Seq<char>,
    pub summary: Seq<char>,
    pub body: Seq<char>,
    pub urgency: u8,
    pub image: Option<Seq<char>>,
    pub expire_ms: i32,
}

impl View for Toast {
    type V = ToastView;

    open spec fn view(&self) -> ToastView {
        ToastView {
            style: self.style,
            icon: self.icon@,
            summary: self.summary@,
            body: self.body@,
            urgency: self.urgency,
            image: crate::state::text_view(self.image),
            expire_ms: self.expire_ms,
        }
    }
}

/// A list of notifications.
pub open spec fn toasts(v: Seq<Toast>) -> Seq<ToastView> {
    v.map_values(|t: Toast| t@)
}

/// The notifications about the keyboard that are on the screen, and what they depend on.
#[derive(Clone, Copy, Debug, PartialEq, Eq, Structural)]
pub struct KeyboardDisplayNotifState {
    /// The last notification, 0 if there was none.
    pub replaces_id: u32,
    pub last_battery_pct: Option<u8>,
    /// A battery warning was shown while the keyboard was off USB.
    pub had_battery_tier_while_usb_detached: bool,
}

impl KeyboardDisplayNotifState {
    /// Nothing was shown yet.
    pub fn new() -> (r: Self)
        ensures
            r == (KeyboardDisplayNotifState {
                replaces_id: 0,
                last_battery_pct: None,
                had_battery_tier_while_usb_detached: false,
            }),
    {
        KeyboardDisplayNotifState {
            replaces_id: 0,
            last_battery_pct: None,
            had_battery_tier_while_usb_detached: false,
        }
    }

    /// What is to be closed before a notification is shown, and which one it replaces.
    pub open spec fn placement(self, style: ToastStyle) -> (Option<u32>, u32) {
        match style {
            ToastStyle::Fresh => (
                if self.replaces_id != 0 {
                    Some(self.replaces_id)
                } else {
                    None
                },
                0,
            ),
            ToastStyle::Chained => (None, self.replaces_id),
        }
    }

    /// The notification to close first, if any, and the one to replace.
    pub fn place(&self, style: ToastStyle) -> (r: (Option<u32>, u32))
        ensures
            r == self.placement(style),
    {
        match style {
            ToastStyle::Fresh => if self.replaces_id != 0 {
                (Some(self.replaces_id), 0)
            } else {
                (None, 0)
            },
            ToastStyle::Chained => (None, self.replaces_id),
        }
    }

    /// A notification was shown under this number.
    pub fn shown(&mut self, id: u32)
        ensures
            *final(self) == (KeyboardDisplayNotifState { replaces_id: id, ..*old(self) }),
    {
        self.replaces_id = id;
    }
}

/// At most one notification about the keyboard is on the screen: the last one is closed or
/// replaced before the next is shown.
pub proof fn law_one_keyboard_notification(s: KeyboardDisplayNotifState, style: ToastStyle)
    requires
        s.replaces_id != 0,
    ensures
        s.placement(style).0 == Some(s.replaces_id) || s.placement(style).1 == s.replaces_id,
{
}

/// The notifications about the recovery of the displays: each replaces the one before.
#[derive(Clone, Copy, Debug, PartialEq, Eq, Structural)]
pub struct DisplayRecoveryNotifState {
    /// The last notification, 0 if there was none.
    pub replaces_id: u32,
}

impl DisplayRecoveryNotifState {
    /// Nothing was shown yet.
    pub fn new() -> (r: Self)
        ensures
            r.replaces_id == 0,
    {
        DisplayRecoveryNotifState { replaces_id: 0 }
    }

    /// A notification was shown under this number.
    pub fn shown(&mut self, id: u32)
        ensures
            final(self).replaces_id == id,
    {
        self.replaces_id = id;
    }

    /// The recovery has succeeded: the next notification is a new one.
    pub fn reset_display_recovery_notif_chain(&mut self)
        ensures
            final(self).replaces_id == 0,
    {
        self.replaces_id = 0;
    }
}

// ── Texts ────────────────────────────────────────────────────────────────────

/// A line of a list.
pub open spec fn bullet(line: Seq<char>) -> Seq<char> {
    "• "@ + line
}

/// The lines as a list.
pub open spec fn bulleted(lines: Seq<Seq<char>>) -> Seq<char>
    decreases lines.len(),
{
    if lines.len() == 0 {
        Seq::empty()
    } else if lines.len() == 1 {
        bullet(lines[0])
    } else {
        bulleted(lines.drop_last()) + "\u{2028}"@ + bullet(lines.last())
    }
}

/// The views of the lines.
pub open spec fn line_views(lines: Seq<&str>) -> Seq<Seq<char>> {
    lines.map_values(|l: &str| l@)
}

/// Writes the lines as a list.
pub fn bullet_lines(lines: &Vec<&str>) -> (r: String)
    ensures
        r@ == bulleted(line_views(lines@)),
{
    let mut text = String::new();
    let mut i: usize = 0;
    while i < lines.len()
        invariant
            i <= lines.len(),
            text@ == bulleted(line_views(lines@.take(i as int))),
        decreases lines.len() - i,
    {
        if i > 0 {
            text.append("\u{2028}");
        }
        text.append("• ");
        text.append(lines[i]);
        proof {
            let more = line_views(lines@.take(i + 1));
            assert(more.drop_last() =~= line_views(lines@.take(i as int)));
            assert(more.last() == lines@[i as int]@);
            if i == 0 {
                assert(more[0] == lines@[0]@);
                assert(text@ =~= bulleted(more));
            } else {
                assert(text@ =~= bulleted(more));
            }
        }
        i = i + 1;
    }
    proof {
        assert(lines@.take(lines.len() as int) =~= lines@);
    }
    text
}

/// A text with another line.
pub fn append_line_sep(base: &str, extra: &str) -> (r: String)
    ensures
        r@ == base@ + "\u{2028}"@ + extra@,
{
    join3(base, "\u{2028}", extra)
}

/// What the root daemon says when a notification is written.
pub struct RootInfo {
    pub bluetooth_connected: bool,
    pub desired_primary: String,
    pub desired_secondary_enabled: bool,
}

/// Title, list and icon of a notification.
pub struct DockText {
    pub summary: &'static str,
    pub body: String,
    pub icon: &'static str,
}

pub struct DockTextView {
    pub summary: Seq<char>,
    pub lines: Seq<Seq<char>>,
    pub icon: Seq<char>,
}

/// The text says what is given.
pub open spec fn says(t: DockText, v: DockTextView) -> bool {
    t.summary@ == v.summary && t.body@ == bulleted(v.lines) && t.icon@ == v.icon
}

/// The keyboard was put on the dock or taken off it.
pub open spec fn dock_text(
    docked: bool,
    bluetooth: bool,
    primary: Seq<char>,
    secondary: bool,
) -> DockTextView {
    if docked {
        DockTextView {
            summary: "Keyboard docked"@,
            lines: seq![
                "Keyboard docked on the bottom panel."@,
                if primary == "eDP-2"@ {
                    "Top bar will move temporarily to the top display."@
                } else {
                    "Top display stays primary."@
                },
                if secondary {
                    "Secondary display will turn off."@
                } else {
                    "Secondary display remains off."@
                },
            ],
            icon: "input-keyboard"@,
        }
    } else if bluetooth {
        DockTextView {
            summary: "Keyboard undocked (Bluetooth)"@,
            lines: if secondary {
                seq![
                    "Keyboard detached — Bluetooth connected."@,
                    "Secondary display is turning on."@,
                    if primary == "eDP-2"@ {
                        "Top bar moving back to the secondary display."@
                    } else {
                        "Top display stays primary."@
                    },
                ]
            } else {
                seq![
                    "Keyboard detached — Bluetooth connected."@,
                    "Secondary display is still configured to stay off."@,
                ]
            },
            icon: "input-keyboard-virtual"@,
        }
    } else {
        DockTextView {
            summary: "Keyboard undocked (no Bluetooth)"@,
            lines: if secondary {
                seq![
                    "Keyboard undocked — Bluetooth not connected."@,
                    "Secondary display is turning on."@,
                    "Keyboard unavailable until Bluetooth reconnects."@,
                ]
            } else {
                seq![
                    "Keyboard undocked — Bluetooth not connected."@,
                    "Keyboard unavailable until Bluetooth reconnects."@,
                ]
            },
            icon: "dialog-warning"@,
        }
    }
}

fn two_lines(a: &str, b: &str) -> (r: String)
    ensures
        r@ == bulleted(seq![a@, b@]),
{
    let mut lines: Vec<&str> = Vec::new();
    lines.push(a);
    lines.push(b);
    proof {
        assert(line_views(lines@) =~= seq![a@, b@]);
    }
    bullet_lines(&lines)
}

fn three_lines(a: &str, b: &str, c: &str) -> (r: String)
    ensures
        r@ == bulleted(seq![a@, b@, c@]),
{
    let mut lines: Vec<&str> = Vec::new();
    lines.push(a);
    lines.push(b);
    lines.push(c);
    proof {
        assert(line_views(lines@) =~= seq![a@, b@, c@]);
    }
    bullet_lines(&lines)
}

/// The text for a keyboard that was put on the dock or taken off it.
pub fn pogo_dock_notification_text(
    docked: bool,
    bluetooth_connected: bool,
    desired_primary: &str,
    desired_secondary_enabled: bool,
) -> (r: DockText)
    ensures
        says(
            r,
            dock_text(docked, bluetooth_connected, desired_primary@, desired_secondary_enabled),
        ),
{
    let lower_is_primary = same(desired_primary, "eDP-2");
    if docked {
        let bar = if lower_is_primary {
            "Top bar will move temporarily to the top display."
        } else {
            "Top display stays primary."
        };
        let panel = if desired_secondary_enabled {
            "Secondary display will turn off."
        } else {
            "Secondary display remains off."
        };
        DockText {
            summary: "Keyboard docked",
            body: three_lines("Keyboard docked on the bottom panel.", bar, panel),
            icon: "input-keyboard",
        }
    } else if bluetooth_connected {
        let body = if desired_secondary_enabled {
            let bar = if lower_is_primary {
                "Top bar moving back to the secondary display."
            } else {
                "Top display stays primary."
            };
            three_lines(
                "Keyboard detached — Bluetooth connected.",
                "Secondary display is turning on.",
                bar,
            )
        } else {
            two_lines(
                "Keyboard detached — Bluetooth connected.",
                "Secondary display is still configured to stay off.",
            )
        };
        DockText { summary: "Keyboard undocked (Bluetooth)", body, icon: "input-keyboard-virtual" }
    } else {
        let body = if desired_secondary_enabled {
            three_lines(
                "Keyboard undocked — Bluetooth not connected.",
                "Secondary display is turning on.",
                "Keyboard unavailable until Bluetooth reconnects.",
            )
        } else {
            two_lines(
                "Keyboard undocked — Bluetooth not connected.",
                "Keyboard unavailable until Bluetooth reconnects.",
            )
        };
        DockText { summary: "Keyboard undocked (no Bluetooth)", body, icon: "dialog-warning" }
    }
}

pub open spec fn usb_text() -> DockTextView {
    DockTextView {
        summary: "Keyboard on USB"@,
        lines: seq![
            "Side USB connected (charge / wired input)."@,
            "Secondary display stays as configured."@,
        ],
        icon: "input-keyboard"@,
    }
}

/// The text for a keyboard whose cable was plugged in beside the dock.
pub fn usb_charge_notification_text() -> (r: DockText)
    ensures
        says(r, usb_text()),
{
    DockText {
        summary: "Keyboard on USB",
        body: two_lines(
            "Side USB connected (charge / wired input).",
            "Secondary display stays as configured.",
        ),
        icon: "input-keyboard",
    }
}

/// The text for a keyboard whose cable was unplugged beside the dock.
pub fn side_usb_unplug_notification_text(
    bluetooth_connected: bool,
    desired_primary: &str,
    desired_secondary_enabled: bool,
) -> (r: DockText)
    ensures
        says(
            r,
            dock_text(false, bluetooth_connected, desired_primary@, desired_secondary_enabled),
        ),
{
    pogo_dock_notification_text(
        false,
        bluetooth_connected,
        desired_primary,
        desired_secondary_enabled,
    )
}

/// The text without word from the root daemon.
pub open spec fn dock_text_unconfirmed(docked: bool) -> DockTextView {
    if docked {
        DockTextView {
            summary: "Keyboard docked"@,
            lines: seq![
                "Keyboard docked on the bottom panel."@,
                "Secondary display will turn off."@,
            ],
            icon: "input-keyboard"@,
        }
    } else {
        DockTextView {
            summary: "Keyboard undocked"@,
            lines: seq![
                "Keyboard undocked."@,
                "Bluetooth state could not be confirmed."@,
            ],
            icon: "dialog-warning"@,
        }
    }
}

fn unconfirmed_dock_text(docked: bool) -> (r: DockText)
    ensures
        says(r, dock_text_unconfirmed(docked)),
{
    if docked {
        DockText {
            summary: "Keyboard docked",
            body: two_lines(
                "Keyboard docked on the bottom panel.",
                "Secondary display will turn off.",
            ),
            icon: "input-keyboard",
        }
    } else {
        DockText {
            summary: "Keyboard undocked",
            body: two_lines("Keyboard undocked.", "Bluetooth state could not be confirmed."),
            icon: "dialog-warning",
        }
    }
}

/// A battery level as written.
pub open spec fn level_text(pct: Option<u8>) -> Seq<char> {
    match pct {
        Some(p) => crate::text::decimal(p as nat) + "%"@,
        None => "unknown"@,
    }
}

/// Writes a battery level.
pub fn battery_level_text(pct: Option<u8>) -> (r: String)
    ensures
        r@ == level_text(pct),
{
    match pct {
        Some(p) => join2(decimal_text(p as u64).as_str(), "%"),
        None => "unknown".to_owned(),
    }
}

/// The line on the battery of a keyboard that charges or discharges.
pub open spec fn battery_line(charging: bool, pct: Option<u8>) -> Seq<char> {
    bullet(
        if charging {
            "charging (last battery level: "@ + level_text(pct) + ")."@
        } else {
            "discharging (current battery level: "@ + level_text(pct) + ")."@
        },
    )
}

fn with_battery_line(body: &str, charging: bool, pct: Option<u8>) -> (r: String)
    ensures
        r@ == body@ + "\u{2028}"@ + battery_line(charging, pct),
{
    let level = battery_level_text(pct);
    let start = if charging {
        "charging (last battery level: "
    } else {
        "discharging (current battery level: "
    };
    let line = join3(start, level.as_str(), ").");
    let item = join2("• ", line.as_str());
    append_line_sep(body, item.as_str())
}

// ── When they are shown ──────────────────────────────────────────────────────

/// A brief notification about the keyboard.
pub open spec fn keyboard_toast(t: DockTextView, battery: Option<Seq<char>>) -> ToastView {
    ToastView {
        style: ToastStyle::Fresh,
        icon: t.icon,
        summary: t.summary,
        body: match battery {
            Some(line) => bulleted(t.lines) + "\u{2028}"@ + line,
            None => bulleted(t.lines),
        },
        urgency: URGENCY_NORMAL,
        image: None,
        expire_ms: KEYBOARD_TOAST_MS,
    }
}

fn brief_toast(t: DockText, body: String) -> (r: Toast)
    ensures
        r@ == (ToastView {
            style: ToastStyle::Fresh,
            icon: t.icon@,
            summary: t.summary@,
            body: body@,
            urgency: URGENCY_NORMAL,
            image: None,
            expire_ms: KEYBOARD_TOAST_MS,
        }),
{
    Toast {
        style: ToastStyle::Fresh,
        icon: t.icon.to_owned(),
        summary: t.summary.to_owned(),
        body,
        urgency: URGENCY_NORMAL,
        image: None,
        expire_ms: KEYBOARD_TOAST_MS,
    }
}

/// What the keyboard's connection was when it was last told.
#[derive(Clone, Copy, Debug, PartialEq, Eq, Structural)]
pub struct KeyboardNotices {
    /// `None` before the first word, which is not shown.
    pub last_usb: Option<bool>,
    pub last_pogo: Option<bool>,
    /// The keyboard is on a cable beside the dock.
    pub side_usb_session: bool,
}

/// What a change of the USB connection leads to.
#[derive(Clone, Copy, Debug, PartialEq, Eq, Structural)]
pub enum UsbNotice {
    Nothing,
    /// The cable was plugged in: show it at once.
    PluggedIn,
    /// The cable was unplugged: show it when Bluetooth has had time to connect.
    Unplugged { wait_ms: u64 },
}

impl KeyboardNotices {
    /// Nothing was told yet.
    pub fn new() -> (r: Self)
        ensures
            r == (KeyboardNotices { last_usb: None, last_pogo: None, side_usb_session: false }),
    {
        KeyboardNotices { last_usb: None, last_pogo: None, side_usb_session: false }
    }

    /// The keyboard is on USB or not. If that is news, the dock is to be looked at after the time
    /// given, in milliseconds.
    pub fn on_usb(&mut self, connected: bool) -> (wait_ms: Option<u64>)
        ensures
            *final(self) == (KeyboardNotices { last_usb: Some(connected), ..*old(self) }),
            wait_ms == (if old(self).last_usb == Some(!connected) {
                Some(DOCK_SETTLE_MS)
            } else {
                None
            }),
    {
        let news = match self.last_usb {
            Some(last) => last != connected,
            None => false,
        };
        self.last_usb = Some(connected);
        if news {
            Some(DOCK_SETTLE_MS)
        } else {
            None
        }
    }

    /// The state after the dock was looked at, and what is to be shown.
    pub open spec fn usb_resolved(self, connected: bool, docked: bool) -> (
        KeyboardNotices,
        UsbNotice,
    ) {
        if !connected {
            (
                KeyboardNotices { side_usb_session: false, ..self },
                if self.side_usb_session {
                    UsbNotice::Unplugged { wait_ms: BLUETOOTH_SETTLE_MS }
                } else {
                    UsbNotice::Nothing
                },
            )
        } else if docked {
            (KeyboardNotices { side_usb_session: false, ..self }, UsbNotice::Nothing)
        } else {
            (KeyboardNotices { side_usb_session: true, ..self }, UsbNotice::PluggedIn)
        }
    }

    /// The dock was looked at after a change of the USB connection.
    pub fn on_usb_resolved(&mut self, connected: bool, docked: bool) -> (r: UsbNotice)
        ensures
            (*final(self), r) == old(self).usb_resolved(connected, docked),
    {
        if !connected {
            let beside = self.side_usb_session;
            self.side_usb_session = false;
            if beside {
                UsbNotice::Unplugged { wait_ms: BLUETOOTH_SETTLE_MS }
            } else {
                UsbNotice::Nothing
            }
        } else if docked {
            self.side_usb_session = false;
            UsbNotice::Nothing
        } else {
            self.side_usb_session = true;
            UsbNotice::PluggedIn
        }
    }

    /// The keyboard is on the dock or not. If that is news, it is to be shown after the time
    /// given, in milliseconds.
    pub fn on_dock(&mut self, docked: bool) -> (wait_ms: Option<u64>)
        ensures
            old(self).last_pogo == Some(!docked) ==> *final(self) == (KeyboardNotices {
                last_pogo: Some(docked),
                side_usb_session: old(self).side_usb_session && !docked,
                ..*old(self)
            }) && wait_ms == Some(
                if docked {
                    0u64
                } else {
                    BLUETOOTH_SETTLE_MS
                },
            ),
            old(self).last_pogo != Some(!docked) ==> *final(self) == (KeyboardNotices {
                last_pogo: Some(docked),
                ..*old(self)
            }) && wait_ms is None,
    {
        let news = match self.last_pogo {
            Some(last) => last != docked,
            None => false,
        };
        self.last_pogo = Some(docked);
        if !news {
            return None;
        }
        if docked {
            self.side_usb_session = false;
            Some(0)
        } else {
            Some(BLUETOOTH_SETTLE_MS)
        }
    }
}

/// The notification about a cable that was plugged in beside the dock.
pub fn usb_charge_toast(last_battery_pct: Option<u8>) -> (r: Toast)
    ensures
        r@ == keyboard_toast(usb_text(), Some(battery_line(true, last_battery_pct))),
{
    let t = usb_charge_notification_text();
    let body = with_battery_line(t.body.as_str(), true, last_battery_pct);
    brief_toast(t, body)
}

/// What the root daemon says, or what is taken for granted without it.
pub open spec fn info_or_default(root: Option<RootInfo>) -> (bool, Seq<char>, bool) {
    match root {
        Some(info) => (
            info.bluetooth_connected,
            info.desired_primary@,
            info.desired_secondary_enabled,
        ),
        None => (false, "eDP-1"@, true),
    }
}

/// The line on the battery of a keyboard that is on Bluetooth.
pub open spec fn bluetooth_line(bluetooth: bool, pct: Option<u8>) -> Option<Seq<char>> {
    if bluetooth {
        Some(battery_line(false, pct))
    } else {
        None
    }
}

/// The notification about a cable that was unplugged beside the dock; `bluetooth_pct` is the
/// battery level that Bluetooth reports.
pub fn side_usb_unplug_toast(root: Option<RootInfo>, bluetooth_pct: Option<u8>) -> (r: Toast)
    ensures
        r@ == ({
            let (bluetooth, primary, secondary) = info_or_default(root);
            keyboard_toast(
                dock_text(false, bluetooth, primary, secondary),
                bluetooth_line(bluetooth, bluetooth_pct),
            )
        }),
{
    let info = match root {
        Some(info) => info,
        None => RootInfo {
            bluetooth_connected: false,
            desired_primary: "eDP-1".to_owned(),
            desired_secondary_enabled: true,
        },
    };
    let t = side_usb_unplug_notification_text(
        info.bluetooth_connected,
        info.desired_primary.as_str(),
        info.desired_secondary_enabled,
    );
    let body = if info.bluetooth_connected {
        with_battery_line(t.body.as_str(), false, bluetooth_pct)
    } else {
        t.body.clone()
    };
    brief_toast(t, body)
}

/// The notification about the dock.
pub open spec fn dock_notice(
    docked: bool,
    root: Option<RootInfo>,
    last_battery_pct: Option<u8>,
    bluetooth_pct: Option<u8>,
) -> ToastView {
    let (bluetooth, primary, secondary) = info_or_default(root);
    keyboard_toast(
        if root is Some {
            dock_text(docked, bluetooth, primary, secondary)
        } else {
            dock_text_unconfirmed(docked)
        },
        if docked {
            Some(battery_line(true, last_battery_pct))
        } else {
            bluetooth_line(bluetooth, bluetooth_pct)
        },
    )
}

/// The notification about a keyboard that was put on the dock or taken off it; `root` is `None` if
/// the root daemon cannot be asked.
pub fn dock_toast(
    docked: bool,
    root: Option<RootInfo>,
    last_battery_pct: Option<u8>,
    bluetooth_pct: Option<u8>,
) -> (r: Toast)
    ensures
        r@ == dock_notice(docked, root, last_battery_pct, bluetooth_pct),
{
    let bluetooth = match &root {
        Some(info) => info.bluetooth_connected,
        None => false,
    };
    let t = match &root {
        Some(info) => pogo_dock_notification_text(
            docked,
            info.bluetooth_connected,
            info.desired_primary.as_str(),
            info.desired_secondary_enabled,
        ),
        None => unconfirmed_dock_text(docked),
    };
    let body = if docked {
        with_battery_line(t.body.as_str(), true, last_battery_pct)
    } else if bluetooth {
        with_battery_line(t.body.as_str(), false, bluetooth_pct)
    } else {
        t.body.clone()
    };
    brief_toast(t, body)
}

/// A keyboard that goes to the dock ends the time on the cable: taking it off USB then says
/// nothing about a cable.
pub proof fn law_dock_ends_cable(n: KeyboardNotices, connected: bool)
    ensures
        ({
            let (after, notice) = n.usb_resolved(true, true);
            &&& notice == UsbNotice::Nothing
            &&& after.usb_resolved(false, connected).1 == UsbNotice::Nothing
        }),
{
}

/// A cable that was plugged in beside the dock is told once when it goes.
pub proof fn law_unplugging_is_told_once(n: KeyboardNotices, docked: bool)
    ensures
        ({
            let (plugged, _) = n.usb_resolved(true, false);
            let (unplugged, notice) = plugged.usb_resolved(false, docked);
            &&& notice is Unplugged
            &&& unplugged.usb_resolved(false, docked).1 == UsbNotice::Nothing
        }),
{
}

// ── What the notifications say ───────────────────────────────────────────────

/// The times and degrees of notifications.
pub proof fn law_notification_constants()
    ensures
        APP_NAME@ == "zenbook-duo-daemon"@,
        DOCK_SETTLE_MS == 400,
        BLUETOOTH_SETTLE_MS == 2_500,
        KEYBOARD_TOAST_MS == 10_000,
        URGENCY_NORMAL == 1,
        URGENCY_CRITICAL == 2,
{
}

/// A brief notification closes the last one and is a new one; one that stays takes its place.
pub proof fn law_notifications_follow_each_other(s: KeyboardDisplayNotifState)
    ensures
        s.replaces_id != 0 ==> s.placement(ToastStyle::Fresh) == (Some(s.replaces_id), 0u32),
        s.replaces_id == 0 ==> s.placement(ToastStyle::Fresh) == (None::<u32>, 0u32),
        s.placement(ToastStyle::Chained) == (None::<u32>, s.replaces_id),
{
}

/// The notifications of a list, one each, in order.
pub proof fn law_lists_of_notifications(v: Seq<Toast>, i: int)
    requires
        0 <= i < v.len(),
    ensures
        toasts(v).len() == v.len(),
        toasts(v)[i].style == v[i].style,
        toasts(v)[i].icon == v[i].icon@,
        toasts(v)[i].summary == v[i].summary@,
        toasts(v)[i].body == v[i].body@,
        toasts(v)[i].urgency == v[i].urgency,
        toasts(v)[i].expire_ms == v[i].expire_ms,
        toasts(v)[i].image == crate::state::text_view(v[i].image),
{
}

/// A list has one line each, every one behind a dot, with a line end between two.
pub proof fn law_lists_have_dots(lines: Seq<Seq<char>>, line: Seq<char>)
    ensures
        bullet(line) == "• "@ + line,
        bulleted(Seq::empty()).len() == 0,
        bulleted(seq![line]) == "• "@ + line,
        lines.len() > 0 ==> bulleted(lines.push(line)) == bulleted(lines) + "\u{2028}"@ + ("• "@
            + line),
{
    assert(lines.push(line).drop_last() =~= lines);
}

/// A keyboard on the dock: the top bar moves if it was on the lower panel, and that panel goes off if
/// it was on.
pub proof fn law_docked_keyboard_in_words(bluetooth: bool, primary: Seq<char>, secondary: bool)
    ensures
        ({
            let t = dock_text(true, bluetooth, primary, secondary);
            &&& t.summary == "Keyboard docked"@
            &&& t.icon == "input-keyboard"@
            &&& t.lines.len() == 3
            &&& t.lines[0] == "Keyboard docked on the bottom panel."@
            &&& primary == "eDP-2"@ ==> t.lines[1]
                == "Top bar will move temporarily to the top display."@
            &&& primary != "eDP-2"@ ==> t.lines[1] == "Top display stays primary."@
            &&& secondary ==> t.lines[2] == "Secondary display will turn off."@
            &&& !secondary ==> t.lines[2] == "Secondary display remains off."@
        }),
{
}

/// A keyboard off the dock and on Bluetooth: the lower panel goes on if it is wanted, and takes the
/// top bar if it is to be primary.
pub proof fn law_undocked_keyboard_in_words(primary: Seq<char>, secondary: bool)
    ensures
        ({
            let t = dock_text(false, true, primary, secondary);
            &&& t.summary == "Keyboard undocked (Bluetooth)"@
            &&& t.icon == "input-keyboard-virtual"@
            &&& t.lines.len() == (if secondary {
                3int
            } else {
                2int
            })
            &&& t.lines[0] == "Keyboard detached — Bluetooth connected."@
            &&& secondary ==> t.lines[1] == "Secondary display is turning on."@
            &&& secondary && primary == "eDP-2"@ ==> t.lines[2]
                == "Top bar moving back to the secondary display."@
            &&& secondary && primary != "eDP-2"@ ==> t.lines[2] == "Top display stays primary."@
            &&& !secondary ==> t.lines[1] == "Secondary display is still configured to stay off."@
        }),
        ({
            let t = dock_text(false, false, primary, secondary);
            &&& t.summary == "Keyboard undocked (no Bluetooth)"@
            &&& t.icon == "dialog-warning"@
            &&& t.lines.len() == (if secondary {
                3int
            } else {
                2int
            })
            &&& t.lines[0] == "Keyboard undocked — Bluetooth not connected."@
            &&& secondary ==> t.lines[1] == "Secondary display is turning on."@
            &&& t.lines.last() == "Keyboard unavailable until Bluetooth reconnects."@
        }),
{
}

/// The texts without word from the root daemon, and that for a cable beside the dock.
pub proof fn law_other_texts()
    ensures
        usb_text().summary == "Keyboard on USB"@,
        usb_text().icon == "input-keyboard"@,
        usb_text().lines =~= seq![
            "Side USB connected (charge / wired input)."@,
            "Secondary display stays as configured."@,
        ],
        dock_text_unconfirmed(true).summary == "Keyboard docked"@,
        dock_text_unconfirmed(true).icon == "input-keyboard"@,
        dock_text_unconfirmed(true).lines =~= seq![
            "Keyboard docked on the bottom panel."@,
            "Secondary display will turn off."@,
        ],
        dock_text_unconfirmed(false).summary == "Keyboard undocked"@,
        dock_text_unconfirmed(false).icon == "dialog-warning"@,
        dock_text_unconfirmed(false).lines =~= seq![
            "Keyboard undocked."@,
            "Bluetooth state could not be confirmed."@,
        ],
{
}

/// A battery level is written with a percent sign, and an unknown one as such; the line on the
/// battery says whether it charges.
pub proof fn law_battery_in_words(p: u8, pct: Option<u8>)
    ensures
        level_text(Some(p)) == crate::text::decimal(p as nat) + "%"@,
        level_text(None) == "unknown"@,
        battery_line(true, pct) == "• "@ + ("charging (last battery level: "@ + level_text(pct)
            + ")."@),
        battery_line(false, pct) == "• "@ + ("discharging (current battery level: "@ + level_text(
            pct,
        ) + ")."@),
        bluetooth_line(true, pct) == Some(battery_line(false, pct)),
        bluetooth_line(false, pct) is None,
{
}

/// A notification about the keyboard is brief, shows its text as a list, and the line on the battery
/// behind it where there is one.
pub proof fn law_keyboard_notifications(t: DockTextView, line: Seq<char>)
    ensures
        ({
            let shown = keyboard_toast(t, None);
            &&& shown.style == ToastStyle::Fresh
            &&& shown.icon == t.icon && shown.summary == t.summary
            &&& shown.body == bulleted(t.lines)
            &&& shown.urgency == 1 && shown.image is None && shown.expire_ms == 10_000
        }),
        keyboard_toast(t, Some(line)).body == bulleted(t.lines) + "\u{2028}"@ + line,
        keyboard_toast(t, Some(line)).summary == t.summary,
        keyboard_toast(t, Some(line)).icon == t.icon,
        keyboard_toast(t, Some(line)).style == ToastStyle::Fresh,
        keyboard_toast(t, Some(line)).expire_ms == 10_000,
        keyboard_toast(t, Some(line)).urgency == 1,
{
}

/// The notification about the dock is written from what the root daemon says, and charges on the dock;
/// off it the battery is told only on Bluetooth.
pub proof fn law_dock_notifications(
    info: RootInfo,
    last_battery_pct: Option<u8>,
    bluetooth_pct: Option<u8>,
)
    ensures
        dock_notice(true, Some(info), last_battery_pct, bluetooth_pct) == keyboard_toast(
            dock_text(
                true,
                info.bluetooth_connected,
                info.desired_primary@,
                info.desired_secondary_enabled,
            ),
            Some(battery_line(true, last_battery_pct)),
        ),
        dock_notice(false, Some(info), last_battery_pct, bluetooth_pct) == keyboard_toast(
            dock_text(
                false,
                info.bluetooth_connected,
                info.desired_primary@,
                info.desired_secondary_enabled,
            ),
            if info.bluetooth_connected {
                Some(battery_line(false, bluetooth_pct))
            } else {
                None
            },
        ),
        dock_notice(true, None, last_battery_pct, bluetooth_pct) == keyboard_toast(
            dock_text_unconfirmed(true),
            Some(battery_line(true, last_battery_pct)),
        ),
        dock_notice(false, None, last_battery_pct, bluetooth_pct) == keyboard_toast(
            dock_text_unconfirmed(false),
            None,
        ),
        info_or_default(None) == (false, "eDP-1"@, true),
        info_or_default(Some(info)) == (
            info.bluetooth_connected,
            info.desired_primary@,
            info.desired_secondary_enabled,
        ),
{
}

/// A cable beside the dock is told when it is plugged in, and when it is unplugged after two and a
/// half seconds; the dock's own cable is not told.
pub proof fn law_cables_beside_the_dock(n: KeyboardNotices, docked: bool)
    ensures
        n.usb_resolved(true, false).1 == UsbNotice::PluggedIn,
        n.usb_resolved(true, false).0.side_usb_session,
        n.usb_resolved(true, true).1 == UsbNotice::Nothing,
        !n.usb_resolved(true, true).0.side_usb_session,
        n.side_usb_session ==> n.usb_resolved(false, docked).1 == (UsbNotice::Unplugged {
            wait_ms: 2_500,
        }),
        !n.side_usb_session ==> n.usb_resolved(false, docked).1 == UsbNotice::Nothing,
        !n.usb_resolved(false, docked).0.side_usb_session,
        n.usb_resolved(true, docked).0.last_usb == n.last_usb,
        n.usb_resolved(true, docked).0.last_pogo == n.last_pogo,
        n.usb_resolved(false, docked).0.last_usb == n.last_usb,
        n.usb_resolved(false, docked).0.last_pogo == n.last_pogo,
{
}

/// A text says what is given exactly if its title, its list and its icon do.
pub proof fn law_texts_say_what_is_given(t: DockText, v: DockTextView, lines: Seq<&str>, i: int)
    ensures
        says(t, v) <==> t.summary@ == v.summary && t.icon@ == v.icon && t.body@ == bulleted(v.lines),
        line_views(lines).len() == lines.len(),
        0 <= i < lines.len() ==> line_views(lines)[i] == lines[i]@,
{
}

} // verus!
