//! Notifications about the keyboard's battery: warnings on Bluetooth, progress on USB.
use vstd::prelude::*;

use std::collections::VecDeque;

use crate::keyboard_battery::BATTERY_FULL_PCT_THRESHOLD;
use crate::session::notifications::{
    battery_level_text, bullet_lines, KeyboardDisplayNotifState, Toast, ToastStyle, ToastView,
    URGENCY_CRITICAL, URGENCY_NORMAL,
};
use crate::text::{decimal_text, join3};

verus! {

pub const BATTERY_WARN_PCT_LOW: u8 = 20;

pub const BATTERY_WARN_PCT_VERY_LOW: u8 = 10;

pub const BATTERY_WARN_PCT_CRITICAL: u8 = 5;

pub const CHARGE_MILESTONE_PCT_HALF: u8 = 50;

pub const CHARGE_MILESTONE_PCT_HIGH: u8 = 75;

pub const BATTERY_EXPIRE_MS_CRITICAL: i32 = 120_000;

pub const BATTERY_EXPIRE_MS_BELOW_10: i32 = 120_000;

pub const BATTERY_EXPIRE_MS_BELOW_20: i32 = 30_000;

pub const CHARGE_MILESTONE_EXPIRE_MS: i32 = 45_000;

pub const CHARGE_FULL_EXPIRE_MS: i32 = 60_000;

pub const DISCONNECTED_EXPIRE_MS: i32 = 6_000;

/// The level is also asked for, in case a change is not told.
pub const BATTERY_POLL_SECS: u64 = 60;

/// How long a failed monitor rests.
pub const MONITOR_RETRY_SECS: u64 = 15;

/// How often a keyboard on Bluetooth is looked for.
pub const KEYBOARD_SEARCH_SECS: u64 = 10;

// ── Warnings on Bluetooth ────────────────────────────────────────────────────

/// Which warnings have been shown.
#[derive(Clone, Copy, Debug, PartialEq, Eq, Structural)]
pub struct KeyboardBatteryWarn {
    pub shown_below_20: bool,
    pub shown_below_10: bool,
    pub shown_below_5: bool,
}

/// How low the battery is.
#[derive(Clone, Copy, Debug, PartialEq, Eq, Structural)]
pub enum BatteryTier {
    Critical,
    VeryLow,
    Low,
}

impl BatteryTier {
    pub open spec fn icon(self) -> Seq<char> {
        match self {
            BatteryTier::Critical => "dialog-error"@,
            BatteryTier::VeryLow => "dialog-warning"@,
            BatteryTier::Low => "dialog-warning"@,
        }
    }

    pub open spec fn image(self) -> Seq<char> {
        match self {
            BatteryTier::Critical => "battery-level-0-symbolic"@,
            BatteryTier::VeryLow => "battery-caution-symbolic"@,
            BatteryTier::Low => "battery-full-charging-symbolic"@,
        }
    }

    pub open spec fn summary(self) -> Seq<char> {
        match self {
            BatteryTier::Critical => "Keyboard battery critical!"@,
            BatteryTier::VeryLow => "Keyboard battery below 10%"@,
            BatteryTier::Low => "Keyboard battery below 20%"@,
        }
    }

    pub open spec fn advice(self) -> Seq<char> {
        match self {
            BatteryTier::Critical => "%</b>.\u{2028}Reattach the keyboard to USB immediately — it could become unavailable at any moment."@,
            BatteryTier::VeryLow => "%</b>.\u{2028}Attach the keyboard to USB to charge before it becomes critical."@,
            BatteryTier::Low => "%</b>.\u{2028}Running on Bluetooth power — level is informational only."@,
        }
    }

    pub open spec fn expire_ms(self) -> i32 {
        match self {
            BatteryTier::Critical => BATTERY_EXPIRE_MS_CRITICAL,
            BatteryTier::VeryLow => BATTERY_EXPIRE_MS_BELOW_10,
            BatteryTier::Low => BATTERY_EXPIRE_MS_BELOW_20,
        }
    }

    /// A warning stays until it is dismissed.
    pub open spec fn warning(self, pct: u8) -> ToastView {
        ToastView {
            style: ToastStyle::Chained,
            icon: self.icon(),
            summary: self.summary(),
            body: "Keyboard battery at <b>"@ + crate::text::decimal(pct as nat) + self.advice(),
            urgency: URGENCY_CRITICAL,
            image: Some(self.image()),
            expire_ms: self.expire_ms(),
        }
    }

    /// Writes the warning.
    pub fn toast(self, pct: u8) -> (r: Toast)
        ensures
            r@ == self.warning(pct),
    {
        let level = decimal_text(pct as u64);
        let (icon, image, summary, advice, expire_ms) = match self {
            BatteryTier::Critical => (
                "dialog-error",
                "battery-level-0-symbolic",
                "Keyboard battery critical!",
                "%</b>.\u{2028}Reattach the keyboard to USB immediately — it could become unavailable at any moment.",
                BATTERY_EXPIRE_MS_CRITICAL,
            ),
            BatteryTier::VeryLow => (
                "dialog-warning",
                "battery-caution-symbolic",
                "Keyboard battery below 10%",
                "%</b>.\u{2028}Attach the keyboard to USB to charge before it becomes critical.",
                BATTERY_EXPIRE_MS_BELOW_10,
            ),
            BatteryTier::Low => (
                "dialog-warning",
                "battery-full-charging-symbolic",
                "Keyboard battery below 20%",
                "%</b>.\u{2028}Running on Bluetooth power — level is informational only.",
                BATTERY_EXPIRE_MS_BELOW_20,
            ),
        };
        Toast {
            style: ToastStyle::Chained,
            icon: icon.to_owned(),
            summary: summary.to_owned(),
            body: join3("Keyboard battery at <b>", level.as_str(), advice),
            urgency: URGENCY_CRITICAL,
            image: Some(image.to_owned()),
            expire_ms,
        }
    }
}

impl KeyboardBatteryWarn {
    /// No warning was shown.
    pub fn new() -> (r: Self)
        ensures
            r == (KeyboardBatteryWarn {
                shown_below_20: false,
                shown_below_10: false,
                shown_below_5: false,
            }),
    {
        KeyboardBatteryWarn { shown_below_20: false, shown_below_10: false, shown_below_5: false }
    }

    /// A warning whose level is exceeded again may be repeated.
    pub open spec fn recovered(self, pct: u8) -> KeyboardBatteryWarn {
        KeyboardBatteryWarn {
            shown_below_20: self.shown_below_20 && pct <= BATTERY_WARN_PCT_LOW,
            shown_below_10: self.shown_below_10 && pct <= BATTERY_WARN_PCT_VERY_LOW,
            shown_below_5: self.shown_below_5 && pct <= BATTERY_WARN_PCT_CRITICAL,
        }
    }

    /// The warning that is due, if any.
    pub open spec fn due(self, pct: u8) -> Option<BatteryTier> {
        if pct <= BATTERY_WARN_PCT_CRITICAL && !self.shown_below_5 {
            Some(BatteryTier::Critical)
        } else if pct <= BATTERY_WARN_PCT_VERY_LOW && !self.shown_below_10 {
            Some(BatteryTier::VeryLow)
        } else if pct <= BATTERY_WARN_PCT_LOW && !self.shown_below_20 {
            Some(BatteryTier::Low)
        } else {
            None
        }
    }

    /// A warning stands for the milder ones too.
    pub open spec fn warned(self, tier: Option<BatteryTier>) -> KeyboardBatteryWarn {
        match tier {
            Some(BatteryTier::Critical) => KeyboardBatteryWarn {
                shown_below_20: true,
                shown_below_10: true,
                shown_below_5: true,
            },
            Some(BatteryTier::VeryLow) => KeyboardBatteryWarn {
                shown_below_20: true,
                shown_below_10: true,
                ..self
            },
            Some(BatteryTier::Low) => KeyboardBatteryWarn { shown_below_20: true, ..self },
            None => self,
        }
    }

    /// Forgets the warnings whose level is exceeded.
    pub fn clear_recovered(&mut self, pct: u8)
        ensures
            *final(self) == old(self).recovered(pct),
    {
        if pct > BATTERY_WARN_PCT_CRITICAL {
            self.shown_below_5 = false;
        }
        if pct > BATTERY_WARN_PCT_VERY_LOW {
            self.shown_below_10 = false;
        }
        if pct > BATTERY_WARN_PCT_LOW {
            self.shown_below_20 = false;
        }
    }

    /// The warning that is due at this level, if any; it counts as shown.
    pub fn take_due(&mut self, pct: u8) -> (r: Option<BatteryTier>)
        ensures
            r == old(self).due(pct),
            *final(self) == old(self).warned(r),
    {
        if pct <= BATTERY_WARN_PCT_CRITICAL && !self.shown_below_5 {
            self.shown_below_5 = true;
            self.shown_below_10 = true;
            self.shown_below_20 = true;
            Some(BatteryTier::Critical)
        } else if pct <= BATTERY_WARN_PCT_VERY_LOW && !self.shown_below_10 {
            self.shown_below_10 = true;
            self.shown_below_20 = true;
            Some(BatteryTier::VeryLow)
        } else if pct <= BATTERY_WARN_PCT_LOW && !self.shown_below_20 {
            self.shown_below_20 = true;
            Some(BatteryTier::Low)
        } else {
            None
        }
    }
}

pub open spec fn tier_warnings(tier: Option<BatteryTier>, pct: u8) -> Seq<ToastView> {
    match tier {
        Some(t) => seq![t.warning(pct)],
        None => Seq::empty(),
    }
}

/// The chain after a warning.
pub open spec fn tier_remembered(
    chain: KeyboardDisplayNotifState,
    tier: Option<BatteryTier>,
) -> KeyboardDisplayNotifState {
    KeyboardDisplayNotifState {
        had_battery_tier_while_usb_detached: chain.had_battery_tier_while_usb_detached
            || tier is Some,
        ..chain
    }
}

/// The warning for a keyboard on Bluetooth, if one is due.
pub fn maybe_emit_battery_warning_detached_bt(
    pct: u8,
    w: &mut KeyboardBatteryWarn,
    chain: &mut KeyboardDisplayNotifState,
) -> (r: Option<Toast>)
    ensures
        *final(w) == old(w).warned(old(w).due(pct)),
        *final(chain) == tier_remembered(*old(chain), old(w).due(pct)),
        match r {
            Some(toast) => old(w).due(pct) is Some && toast@ == old(w).due(pct)->0.warning(pct),
            None => old(w).due(pct) is None,
        },
{
    match w.take_due(pct) {
        Some(tier) => {
            chain.had_battery_tier_while_usb_detached = true;
            Some(tier.toast(pct))
        },
        None => None,
    }
}

/// While the level does not rise above the threshold again, a warning that was shown is not
/// repeated, nor is a milder one.
pub proof fn law_warning_is_shown_once(w: KeyboardBatteryWarn, pct: u8, later: u8)
    requires
        w.due(pct) is Some,
        later <= pct,
    ensures
        ({
            let after = w.warned(w.due(pct));
            match w.due(pct)->0 {
                BatteryTier::Critical => after.due(later) is None,
                BatteryTier::VeryLow => after.due(later) is None || after.due(later) == Some(
                    BatteryTier::Critical,
                ),
                BatteryTier::Low => after.due(later) != Some(BatteryTier::Low),
            }
        }),
{
}

/// A level at or below a threshold is warned of, unless that warning stands.
pub proof fn law_low_battery_is_warned_of(w: KeyboardBatteryWarn, pct: u8)
    requires
        pct <= BATTERY_WARN_PCT_LOW,
        !w.shown_below_20,
    ensures
        w.recovered(pct).due(pct) is Some,
{
}

// ── Progress on USB ──────────────────────────────────────────────────────────

/// Which notifications about the charge have been shown.
#[derive(Clone, Copy, Debug, PartialEq, Eq, Structural)]
pub struct KeyboardBatteryChargeWarn {
    pub shown_half: bool,
    pub shown_high: bool,
    pub shown_full: bool,
}

impl KeyboardBatteryChargeWarn {
    pub open spec fn none_shown() -> KeyboardBatteryChargeWarn {
        KeyboardBatteryChargeWarn { shown_half: false, shown_high: false, shown_full: false }
    }

    /// Nothing was shown.
    pub fn new() -> (r: Self)
        ensures
            r == Self::none_shown(),
    {
        KeyboardBatteryChargeWarn { shown_half: false, shown_high: false, shown_full: false }
    }

    /// A new charge begins.
    pub fn reset_for_new_charge(&mut self)
        ensures
            *final(self) == Self::none_shown(),
    {
        self.shown_half = false;
        self.shown_high = false;
        self.shown_full = false;
    }

    /// The milestones that have been passed count as shown.
    pub open spec fn passed(self, pct: u8) -> KeyboardBatteryChargeWarn {
        KeyboardBatteryChargeWarn {
            shown_half: self.shown_half || pct >= CHARGE_MILESTONE_PCT_HALF,
            shown_high: self.shown_high || pct >= CHARGE_MILESTONE_PCT_HIGH,
            ..self
        }
    }
}

pub open spec fn eta_text(eta_mins: Option<u32>) -> Seq<char> {
    match eta_mins {
        None => Seq::empty(),
        Some(m) => if m == 0 {
            "Estimated time to full: less than a minute."@
        } else if m == 1 {
            "Estimated time to full: about 1 minute."@
        } else {
            "Estimated time to full: about "@ + crate::text::decimal(m as nat) + " minutes."@
        },
    }
}

/// How long the charge will take, in words.
pub fn format_charge_eta_minutes(eta_mins: Option<u32>) -> (r: String)
    ensures
        r@ == eta_text(eta_mins),
{
    match eta_mins {
        None => String::new(),
        Some(m) => if m == 0 {
            "Estimated time to full: less than a minute.".to_owned()
        } else if m == 1 {
            "Estimated time to full: about 1 minute.".to_owned()
        } else {
            join3("Estimated time to full: about ", decimal_text(m as u64).as_str(), " minutes.")
        },
    }
}

pub open spec fn counts_as_full(pct: u8, firmware_full: bool) -> bool {
    firmware_full || pct >= BATTERY_FULL_PCT_THRESHOLD
}

/// Whether the battery counts as full.
pub fn is_keyboard_battery_full(pct: u8, firmware_full: bool) -> (r: bool)
    ensures
        r == counts_as_full(pct, firmware_full),
{
    firmware_full || pct >= BATTERY_FULL_PCT_THRESHOLD
}

/// The notification about a milestone.
pub open spec fn milestone(
    high: bool,
    pct: u8,
    eta: Option<u32>,
) -> ToastView {
    let level = "Keyboard battery at <b>"@ + crate::text::decimal(pct as nat)
        + "%</b> while charging on USB."@;
    let image = if high {
        "battery-good-charging-symbolic"@
    } else {
        "battery-medium-charging-symbolic"@
    };
    ToastView {
        style: ToastStyle::Fresh,
        icon: image,
        summary: if high {
            "Keyboard charging — 75%"@
        } else {
            "Keyboard charging — 50%"@
        },
        body: crate::session::notifications::bulleted(
            if eta is Some {
                seq![level, eta_text(eta)]
            } else {
                seq![level]
            },
        ),
        urgency: URGENCY_NORMAL,
        image: Some(image),
        expire_ms: CHARGE_MILESTONE_EXPIRE_MS,
    }
}

fn milestone_toast(high: bool, pct: u8, eta: Option<u32>) -> (r: Toast)
    ensures
        r@ == milestone(high, pct, eta),
{
    let level = join3(
        "Keyboard battery at <b>",
        decimal_text(pct as u64).as_str(),
        "%</b> while charging on USB.",
    );
    let eta_line = format_charge_eta_minutes(eta);
    let mut lines: Vec<&str> = Vec::new();
    lines.push(level.as_str());
    if eta.is_some() {
        lines.push(eta_line.as_str());
    }
    proof {
        let views = crate::session::notifications::line_views(lines@);
        if eta is Some {
            assert(views =~= seq![level@, eta_text(eta)]);
        } else {
            assert(views =~= seq![level@]);
        }
    }
    let (image, summary) = if high {
        ("battery-good-charging-symbolic", "Keyboard charging — 75%")
    } else {
        ("battery-medium-charging-symbolic", "Keyboard charging — 50%")
    };
    Toast {
        style: ToastStyle::Fresh,
        icon: image.to_owned(),
        summary: summary.to_owned(),
        body: bullet_lines(&lines),
        urgency: URGENCY_NORMAL,
        image: Some(image.to_owned()),
        expire_ms: CHARGE_MILESTONE_EXPIRE_MS,
    }
}

/// The milestones that are passed at this level for the first time.
pub open spec fn milestones(
    w: KeyboardBatteryChargeWarn,
    pct: u8,
    eta: Option<u32>,
) -> Seq<ToastView> {
    (if pct >= CHARGE_MILESTONE_PCT_HALF && !w.shown_half {
        seq![milestone(false, pct, eta)]
    } else {
        Seq::empty()
    }) + (if pct >= CHARGE_MILESTONE_PCT_HIGH && !w.shown_high {
        seq![milestone(true, pct, eta)]
    } else {
        Seq::empty()
    })
}

proof fn lemma_toasts_push(v: Seq<Toast>, t: Toast)
    ensures
        crate::session::notifications::toasts(v.push(t)) == crate::session::notifications::toasts(
            v,
        ).push(t@),
{
    assert(crate::session::notifications::toasts(v.push(t))
        =~= crate::session::notifications::toasts(v).push(t@));
}

/// Shows the milestones that are passed for the first time; `eta` is the time to a full battery in
/// minutes.
pub fn maybe_emit_battery_charging_milestones(
    pct: u8,
    w: &mut KeyboardBatteryChargeWarn,
    eta: Option<u32>,
    out: &mut Vec<Toast>,
)
    ensures
        *final(w) == old(w).passed(pct),
        crate::session::notifications::toasts(final(out)@) == crate::session::notifications::toasts(
            old(out)@,
        ) + milestones(*old(w), pct, eta),
{
    if pct >= CHARGE_MILESTONE_PCT_HALF && !w.shown_half {
        w.shown_half = true;
        let toast = milestone_toast(false, pct, eta);
        proof {
            lemma_toasts_push(out@, toast);
        }
        out.push(toast);
    }
    if pct >= CHARGE_MILESTONE_PCT_HIGH && !w.shown_high {
        w.shown_high = true;
        let toast = milestone_toast(true, pct, eta);
        proof {
            lemma_toasts_push(out@, toast);
        }
        out.push(toast);
    }
    proof {
        assert(crate::session::notifications::toasts(out@)
            =~= crate::session::notifications::toasts(old(out)@) + milestones(*old(w), pct, eta));
    }
}

/// The notification about a full battery.
pub open spec fn full_notice(pct: u8, image: Option<Seq<char>>) -> ToastView {
    ToastView {
        style: ToastStyle::Fresh,
        icon: "battery-full-charged"@,
        summary: "Keyboard battery full"@,
        body: crate::session::notifications::bulleted(
            seq![
                if pct >= 100 {
                    "Keyboard battery is fully charged."@
                } else {
                    "Keyboard battery is at <b>"@ + crate::text::decimal(pct as nat)
                        + "%</b> — the highest level this pack reports when full."@
                },
                "You can unplug the side USB cable and use Bluetooth again."@,
            ],
        ),
        urgency: URGENCY_NORMAL,
        image,
        expire_ms: CHARGE_FULL_EXPIRE_MS,
    }
}

fn full_toast(pct: u8, image: Option<String>) -> (r: Toast)
    ensures
        r@ == full_notice(pct, crate::state::text_view(image)),
{
    let first = if pct >= 100 {
        "Keyboard battery is fully charged.".to_owned()
    } else {
        join3(
            "Keyboard battery is at <b>",
            decimal_text(pct as u64).as_str(),
            "%</b> — the highest level this pack reports when full.",
        )
    };
    let mut lines: Vec<&str> = Vec::new();
    lines.push(first.as_str());
    lines.push("You can unplug the side USB cable and use Bluetooth again.");
    proof {
        assert(crate::session::notifications::line_views(lines@) =~= seq![
            first@,
            "You can unplug the side USB cable and use Bluetooth again."@,
        ]);
    }
    Toast {
        style: ToastStyle::Fresh,
        icon: "battery-full-charged".to_owned(),
        summary: "Keyboard battery full".to_owned(),
        body: bullet_lines(&lines),
        urgency: URGENCY_NORMAL,
        image,
        expire_ms: CHARGE_FULL_EXPIRE_MS,
    }
}

/// Shows that the battery is full, once in a charge; the milestones count as shown then.
pub fn maybe_emit_battery_full_charged(pct: u8, w: &mut KeyboardBatteryChargeWarn) -> (r: Option<
    Toast,
>)
    ensures
        old(w).shown_full ==> *final(w) == *old(w) && r is None,
        !old(w).shown_full ==> *final(w) == (KeyboardBatteryChargeWarn {
            shown_half: true,
            shown_high: true,
            shown_full: true,
        }) && (r matches Some(toast) && toast@ == full_notice(
            pct,
            Some("battery-full-charged-symbolic"@),
        )),
{
    if w.shown_full {
        return None;
    }
    w.shown_full = true;
    w.shown_half = true;
    w.shown_high = true;
    Some(full_toast(pct, Some("battery-full-charged-symbolic".to_owned())))
}

// ── The rate of charge ───────────────────────────────────────────────────────

/// How many levels are remembered.
pub const RATE_SAMPLES: usize = 24;

/// How long a level is remembered.
pub const RATE_WINDOW_MS: u64 = 2_700_000;

/// The shortest time from which a rate is estimated.
pub const RATE_MIN_SPAN_MS: u64 = 60_000;

/// The levels of late, each with the time in milliseconds at which it was first seen.
pub struct ChargingRateTracker {
    samples: VecDeque<(u64, u8)>,
}

impl View for ChargingRateTracker {
    type V = Seq<(u64, u8)>;

    closed spec fn view(&self) -> Seq<(u64, u8)> {
        self.samples@
    }
}

/// Without the levels that are too old.
pub open spec fn recent(s: Seq<(u64, u8)>, now: u64) -> Seq<(u64, u8)>
    decreases s.len(),
{
    if s.len() > 0 && now - s[0].0 > RATE_WINDOW_MS {
        recent(s.drop_first(), now)
    } else {
        s
    }
}

/// The last levels, as many as are remembered.
pub open spec fn latest(s: Seq<(u64, u8)>) -> Seq<(u64, u8)> {
    if s.len() > RATE_SAMPLES {
        s.skip(s.len() - RATE_SAMPLES)
    } else {
        s
    }
}

/// The levels after another one was seen: a level that is the same as the last is not added.
pub open spec fn recorded(s: Seq<(u64, u8)>, now: u64, pct: u8) -> Seq<(u64, u8)> {
    if s.len() > 0 && s.last().1 == pct {
        s
    } else {
        recent(latest(s.push((now, pct))), now)
    }
}

/// What the time to a level is estimated from.
#[derive(Clone, Copy, Debug, PartialEq, Eq, Structural)]
pub enum ChargeOutlook {
    /// The level is reached.
    Reached,
    /// Too little is known.
    Unknown,
    /// So many percent were gained in the time given, and so many are missing.
    Rate { elapsed_ms: u64, gained: u8, missing: u8 },
}

pub open spec fn outlook(s: Seq<(u64, u8)>, current: u8, target: u8) -> ChargeOutlook {
    if current >= target {
        ChargeOutlook::Reached
    } else if s.len() < 2 || s.last().0 - s[0].0 < RATE_MIN_SPAN_MS || s.last().1 <= s[0].1 {
        ChargeOutlook::Unknown
    } else {
        ChargeOutlook::Rate {
            elapsed_ms: (s.last().0 - s[0].0) as u64,
            gained: (s.last().1 - s[0].1) as u8,
            missing: (target - current) as u8,
        }
    }
}

impl ChargingRateTracker {
    /// No level was seen.
    pub fn new() -> (r: Self)
        ensures
            r@ == Seq::<(u64, u8)>::empty(),
    {
        ChargingRateTracker { samples: VecDeque::new() }
    }

    /// Forgets all levels.
    pub fn reset(&mut self)
        ensures
            final(self)@ == Seq::<(u64, u8)>::empty(),
    {
        self.samples = VecDeque::new();
    }

    /// A level was seen.
    pub fn record(&mut self, now: u64, pct: u8)
        ensures
            final(self)@ == recorded(old(self)@, now, pct),
    {
        let n: usize = self.samples.len();
        if n > 0 && self.samples[n - 1].1 == pct {
            return;
        }
        let ghost all = self.samples@.push((now, pct));
        self.samples.push_back((now, pct));
        while self.samples.len() > RATE_SAMPLES
            invariant
                latest(self.samples@) == latest(all),
            decreases self.samples@.len(),
        {
            let ghost before = self.samples@;
            let _ = self.samples.pop_front();
            proof {
                assert(latest(self.samples@) =~= latest(before));
            }
        }
        while self.samples.len() > 0 && now > self.samples[0].0 && now - self.samples[0].0
            > RATE_WINDOW_MS
            invariant
                recent(self.samples@, now) == recent(latest(all), now),
            decreases self.samples@.len(),
        {
            let ghost before = self.samples@;
            let _ = self.samples.pop_front();
            proof {
                assert(self.samples@ =~= before.drop_first());
            }
        }
    }

    /// What the time from one level to another is estimated from.
    pub fn eta_minutes_to(&self, current_pct: u8, target_pct: u8) -> (r: ChargeOutlook)
        ensures
            r == outlook(self@, current_pct, target_pct),
    {
        if current_pct >= target_pct {
            return ChargeOutlook::Reached;
        }
        let n: usize = self.samples.len();
        if n < 2 {
            return ChargeOutlook::Unknown;
        }
        let (t0, p0) = self.samples[0];
        let (t1, p1) = self.samples[n - 1];
        if t1 < t0 || t1 - t0 < RATE_MIN_SPAN_MS || p1 <= p0 {
            return ChargeOutlook::Unknown;
        }
        ChargeOutlook::Rate {
            elapsed_ms: t1 - t0,
            gained: p1 - p0,
            missing: target_pct - current_pct,
        }
    }
}

proof fn lemma_recent_is_suffix(s: Seq<(u64, u8)>, now: u64)
    ensures
        recent(s, now).len() <= s.len(),
        recent(s, now) == s.skip(s.len() - recent(s, now).len()),
        s.len() > 0 && s.last().0 == now ==> recent(s, now).len() > 0,
    decreases s.len(),
{
    if s.len() > 0 && now - s[0].0 > RATE_WINDOW_MS {
        lemma_recent_is_suffix(s.drop_first(), now);
        let r = recent(s, now);
        assert(r =~= s.skip(s.len() - r.len()));
    } else {
        assert(s =~= s.skip(0));
    }
}

/// The remembered levels are few, and the one that was seen last is among them, at the end.
pub proof fn law_rate_keeps_last_level(s: Seq<(u64, u8)>, now: u64, pct: u8)
    requires
        s.len() <= RATE_SAMPLES,
    ensures
        0 < recorded(s, now, pct).len() <= RATE_SAMPLES,
        recorded(s, now, pct).last().1 == pct,
{
    if !(s.len() > 0 && s.last().1 == pct) {
        let kept = latest(s.push((now, pct)));
        lemma_recent_is_suffix(kept, now);
        assert(kept.last() == (now, pct));
    }
}

// ── The monitor on USB ───────────────────────────────────────────────────────

/// The battery of a keyboard on USB.
#[derive(Clone, Copy, Debug, PartialEq, Eq, Structural)]
pub struct BatteryWatch {
    pub last_pct: u8,
    pub was_below_full: bool,
}

/// A level that the root daemon reports.
#[derive(Clone, Copy, Debug, PartialEq, Eq, Structural)]
pub struct BatteryReport {
    pub pct: u8,
    pub charging: bool,
    pub firmware_full: bool,
}

impl BatteryWatch {
    /// The report says nothing new.
    pub open spec fn stale(self, report: BatteryReport) -> bool {
        report.pct == self.last_pct && !report.firmware_full
    }

    /// A level at which the battery counts as full is not one below.
    pub open spec fn consistent(self) -> bool {
        self.was_below_full ==> self.last_pct < BATTERY_FULL_PCT_THRESHOLD
    }

    /// The watch after a report; one that says nothing new changes nothing.
    pub open spec fn after(self, report: BatteryReport) -> BatteryWatch {
        if self.stale(report) {
            self
        } else {
            BatteryWatch {
                last_pct: report.pct,
                was_below_full: !counts_as_full(report.pct, report.firmware_full),
            }
        }
    }

    /// The notifications that a report leads to: none if it says nothing new.
    pub open spec fn notices(
        self,
        report: BatteryReport,
        w: KeyboardBatteryChargeWarn,
        eta: Option<u32>,
    ) -> Seq<ToastView> {
        if self.stale(report) {
            Seq::empty()
        } else {
            self.news(report, w, eta)
        }
    }

    /// The notifications that a report that says something new leads to.
    pub open spec fn news(
        self,
        report: BatteryReport,
        w: KeyboardBatteryChargeWarn,
        eta: Option<u32>,
    ) -> Seq<ToastView> {
        let passed = if report.charging {
            w.passed(report.pct)
        } else {
            w
        };
        (if report.charging {
            milestones(w, report.pct, eta)
        } else {
            Seq::empty()
        }) + (if counts_as_full(report.pct, report.firmware_full) && self.was_below_full
            && !passed.shown_full {
            seq![full_notice(report.pct, Some("battery-full-charged-symbolic"@))]
        } else {
            Seq::empty()
        })
    }

    /// What counts as shown then.
    pub open spec fn shown_after(
        self,
        report: BatteryReport,
        w: KeyboardBatteryChargeWarn,
    ) -> KeyboardBatteryChargeWarn {
        let passed = if report.charging {
            w.passed(report.pct)
        } else {
            w
        };
        if self.stale(report) {
            w
        } else if counts_as_full(report.pct, report.firmware_full) && self.was_below_full
            && !passed.shown_full {
            KeyboardBatteryChargeWarn { shown_half: true, shown_high: true, shown_full: true }
        } else {
            passed
        }
    }

    /// Takes note of a report before anything is shown; `false` if it says nothing new.
    pub fn accept_usb_report(
        &self,
        report: BatteryReport,
        now: u64,
        chain: &mut KeyboardDisplayNotifState,
        rate: &mut ChargingRateTracker,
    ) -> (news: bool)
        ensures
            news == !self.stale(report),
            !news ==> *final(chain) == *old(chain) && final(rate)@ == old(rate)@,
            news ==> *final(chain) == (KeyboardDisplayNotifState {
                last_battery_pct: Some(report.pct),
                ..*old(chain)
            }) && final(rate)@ == (if report.charging {
                recorded(old(rate)@, now, report.pct)
            } else {
                old(rate)@
            }),
    {
        if report.pct == self.last_pct && !report.firmware_full {
            return false;
        }
        chain.last_battery_pct = Some(report.pct);
        if report.charging {
            rate.record(now, report.pct);
        }
        true
    }

    /// What a report leads to; `eta` is the time to a full battery in minutes. A report that says
    /// nothing new leads to nothing.
    pub fn on_usb_battery_update(
        &mut self,
        report: BatteryReport,
        w: &mut KeyboardBatteryChargeWarn,
        eta: Option<u32>,
    ) -> (r: Vec<Toast>)
        ensures
            *final(self) == old(self).after(report),
            old(self).consistent() ==> final(self).consistent(),
            *final(w) == old(self).shown_after(report, *old(w)),
            crate::session::notifications::toasts(r@) == old(self).notices(report, *old(w), eta),
    {
        let mut out: Vec<Toast> = Vec::new();
        proof {
            assert(crate::session::notifications::toasts(out@) =~= Seq::<ToastView>::empty());
        }
        if report.pct == self.last_pct && !report.firmware_full {
            return out;
        }
        self.last_pct = report.pct;
        if report.charging {
            maybe_emit_battery_charging_milestones(report.pct, w, eta, &mut out);
        }
        if is_keyboard_battery_full(report.pct, report.firmware_full) {
            if self.was_below_full {
                self.was_below_full = false;
                match maybe_emit_battery_full_charged(report.pct, w) {
                    Some(toast) => {
                        proof {
                            lemma_toasts_push(out@, toast);
                        }
                        out.push(toast);
                    },
                    None => {},
                }
            }
        } else {
            self.was_below_full = true;
        }
        proof {
            assert(crate::session::notifications::toasts(out@) =~= old(self).notices(
                report,
                *old(w),
                eta,
            ));
        }
        out
    }
}

/// Begins to watch the battery on USB: from a level below the first milestone a new charge begins,
/// and so it does without a level. The report that it begins with is then taken as any other.
pub fn monitor_usb_keyboard_battery(
    report: Option<BatteryReport>,
    now: u64,
    w: &mut KeyboardBatteryChargeWarn,
    rate: &mut ChargingRateTracker,
) -> (r: BatteryWatch)
    ensures
        r.consistent(),
        match report {
            Some(b) => {
                &&& r == (BatteryWatch {
                    last_pct: b.pct,
                    was_below_full: !counts_as_full(b.pct, b.firmware_full),
                })
                &&& *final(w) == (if b.pct < CHARGE_MILESTONE_PCT_HALF {
                    KeyboardBatteryChargeWarn::none_shown()
                } else {
                    *old(w)
                })
                &&& final(rate)@ == (if b.charging {
                    seq![(now, b.pct)]
                } else {
                    Seq::empty()
                })
            },
            None => {
                &&& r == (BatteryWatch { last_pct: 0, was_below_full: true })
                &&& *final(w) == KeyboardBatteryChargeWarn::none_shown()
                &&& final(rate)@ == Seq::<(u64, u8)>::empty()
            },
        },
{
    rate.reset();
    match report {
        Some(b) => {
            if b.pct < CHARGE_MILESTONE_PCT_HALF {
                w.reset_for_new_charge();
            }
            if b.charging {
                rate.record(now, b.pct);
                proof {
                    let first = Seq::<(u64, u8)>::empty().push((now, b.pct));
                    assert(recent(latest(first), now) == first);
                    assert(rate@ =~= seq![(now, b.pct)]);
                }
            }
            BatteryWatch {
                last_pct: b.pct,
                was_below_full: !is_keyboard_battery_full(b.pct, b.firmware_full),
            }
        },
        None => {
            w.reset_for_new_charge();
            BatteryWatch { last_pct: 0, was_below_full: true }
        },
    }
}

/// A report at the level that is known leads to no notification and changes nothing, unless it
/// says that the battery is full.
pub proof fn law_known_level_is_not_told_again(
    watch: BatteryWatch,
    report: BatteryReport,
    w: KeyboardBatteryChargeWarn,
    eta: Option<u32>,
)
    requires
        report.pct == watch.last_pct,
        !report.firmware_full,
    ensures
        watch.after(report) == watch,
        watch.shown_after(report, w) == w,
        watch.notices(report, w, eta) == Seq::<ToastView>::empty(),
{
}

/// A full battery is told at most once in a charge: not again before the level has been below
/// the threshold.
pub proof fn law_full_is_told_once(
    watch: BatteryWatch,
    report: BatteryReport,
    again: BatteryReport,
    w: KeyboardBatteryChargeWarn,
    eta: Option<u32>,
)
    requires
        watch.consistent(),
        counts_as_full(report.pct, report.firmware_full),
    ensures
        watch.after(report).consistent(),
        watch.after(report).notices(again, watch.shown_after(report, w), eta) == (
        if again.charging && !watch.after(report).stale(again) {
            milestones(watch.shown_after(report, w), again.pct, eta)
        } else {
            Seq::empty()
        }),
{
    let shown = watch.shown_after(report, w);
    assert(watch.after(report).notices(again, shown, eta) =~= (if again.charging
        && !watch.after(report).stale(again) {
        milestones(shown, again.pct, eta)
    } else {
        Seq::empty()
    }));
}

// ── The monitor on Bluetooth ─────────────────────────────────────────────────

impl BatteryWatch {
    /// Begins to watch the battery on Bluetooth with a level, if it could be read.
    pub fn start_bluetooth(
        pct: Option<u8>,
        w: &mut KeyboardBatteryWarn,
        chain: &mut KeyboardDisplayNotifState,
    ) -> (r: (BatteryWatch, Option<Toast>))
        ensures
            r.0.consistent(),
            match pct {
                Some(p) => {
                    let tier = old(w).recovered(p).due(p);
                    &&& r.0 == (BatteryWatch {
                        last_pct: p,
                        was_below_full: p < BATTERY_FULL_PCT_THRESHOLD,
                    })
                    &&& *final(w) == old(w).recovered(p).warned(tier)
                    &&& *final(chain) == (KeyboardDisplayNotifState {
                        last_battery_pct: Some(p),
                        ..tier_remembered(*old(chain), tier)
                    })
                    &&& match r.1 {
                        Some(toast) => tier is Some && toast@ == tier->0.warning(p),
                        None => tier is None,
                    }
                },
                None => {
                    &&& r.0 == (BatteryWatch { last_pct: 0, was_below_full: false })
                    &&& r.1 is None
                    &&& *final(w) == *old(w)
                    &&& *final(chain) == *old(chain)
                },
            },
    {
        match pct {
            Some(p) => {
                w.clear_recovered(p);
                let toast = maybe_emit_battery_warning_detached_bt(p, w, chain);
                chain.last_battery_pct = Some(p);
                (
                    BatteryWatch {
                        last_pct: p,
                        was_below_full: p < BATTERY_FULL_PCT_THRESHOLD,
                    },
                    toast,
                )
            },
            None => (BatteryWatch { last_pct: 0, was_below_full: false }, None),
        }
    }

    /// The warning that is due when the level changes.
    pub open spec fn tier_on_change(
        pct: u8,
        w: KeyboardBatteryWarn,
        usb_attached: bool,
    ) -> Option<BatteryTier> {
        if usb_attached {
            None
        } else {
            w.recovered(pct).due(pct)
        }
    }

    /// The notifications that a new level leads to.
    pub open spec fn level_notices(
        self,
        pct: u8,
        w: KeyboardBatteryWarn,
        usb_attached: bool,
    ) -> Seq<ToastView> {
        tier_warnings(Self::tier_on_change(pct, w, usb_attached), pct) + (if pct
            >= BATTERY_FULL_PCT_THRESHOLD && self.was_below_full {
            seq![full_notice(pct, None)]
        } else {
            Seq::empty()
        })
    }

    /// The level has changed or was asked for; a level that is the same as the last says nothing.
    pub fn on_battery_pct_update(
        &mut self,
        pct: u8,
        w: &mut KeyboardBatteryWarn,
        chain: &mut KeyboardDisplayNotifState,
        usb_attached: bool,
    ) -> (r: Vec<Toast>)
        ensures
            old(self).consistent() ==> final(self).consistent(),
            pct == old(self).last_pct ==> *final(self) == *old(self) && *final(w) == *old(w)
                && *final(chain) == *old(chain) && r@.len() == 0,
            pct != old(self).last_pct ==> ({
                let tier = BatteryWatch::tier_on_change(pct, *old(w), usb_attached);
                &&& *final(self) == (BatteryWatch {
                    last_pct: pct,
                    was_below_full: pct < BATTERY_FULL_PCT_THRESHOLD,
                })
                &&& *final(w) == old(w).recovered(pct).warned(tier)
                &&& *final(chain) == (KeyboardDisplayNotifState {
                    last_battery_pct: Some(pct),
                    ..tier_remembered(*old(chain), tier)
                })
                &&& crate::session::notifications::toasts(r@) == old(self).level_notices(
                    pct,
                    *old(w),
                    usb_attached,
                )
            }),
    {
        let mut out: Vec<Toast> = Vec::new();
        if pct == self.last_pct {
            return out;
        }
        proof {
            assert(crate::session::notifications::toasts(out@) =~= Seq::<ToastView>::empty());
        }
        self.last_pct = pct;
        chain.last_battery_pct = Some(pct);
        w.clear_recovered(pct);
        if !usb_attached {
            match maybe_emit_battery_warning_detached_bt(pct, w, chain) {
                Some(toast) => {
                    proof {
                        lemma_toasts_push(out@, toast);
                    }
                    out.push(toast);
                },
                None => {},
            }
        }
        if pct < BATTERY_FULL_PCT_THRESHOLD {
            self.was_below_full = true;
        } else if self.was_below_full {
            self.was_below_full = false;
            let toast = full_toast(pct, None);
            proof {
                lemma_toasts_push(out@, toast);
            }
            out.push(toast);
        }
        proof {
            assert(crate::session::notifications::toasts(out@) =~= old(self).level_notices(
                pct,
                *old(w),
                usb_attached,
            ));
        }
        out
    }
}

/// The notification about a keyboard that has left Bluetooth: one that stays if its battery was
/// low, a brief one otherwise.
pub open spec fn disconnect_notice(chain: KeyboardDisplayNotifState) -> ToastView {
    if chain.had_battery_tier_while_usb_detached {
        ToastView {
            style: ToastStyle::Chained,
            icon: "dialog-warning"@,
            summary: "Bluetooth keyboard disconnected"@,
            body: crate::session::notifications::bulleted(
                seq![
                    "Did you disable the keyboard or did it run out of battery?"@,
                    "Last known battery percentage: "@ + crate::session::notifications::level_text(
                        chain.last_battery_pct,
                    ) + "."@,
                ],
            ),
            urgency: URGENCY_CRITICAL,
            image: None,
            expire_ms: BATTERY_EXPIRE_MS_CRITICAL,
        }
    } else {
        ToastView {
            style: ToastStyle::Fresh,
            icon: "dialog-warning"@,
            summary: "Keyboard disconnected"@,
            body: crate::session::notifications::bulleted(
                seq![
                    "Keyboard Bluetooth has disconnected."@,
                    "The keyboard may have run out of battery or been switched off."@,
                    "Attach it via USB to check or recharge."@,
                ],
            ),
            urgency: URGENCY_NORMAL,
            image: None,
            expire_ms: DISCONNECTED_EXPIRE_MS,
        }
    }
}

/// What happens to the watch on Bluetooth.
pub enum BluetoothEnd {
    /// Connected again: begin anew.
    Restart,
    /// Gone: show the notification, if there is one, and begin anew after a rest.
    Failed(Option<Toast>),
}

/// The keyboard has connected to Bluetooth or left it; on USB nothing is shown.
pub fn on_bluetooth_connection(
    connected: bool,
    usb_attached: bool,
    chain: &KeyboardDisplayNotifState,
) -> (r: BluetoothEnd)
    ensures
        match r {
            BluetoothEnd::Restart => connected,
            BluetoothEnd::Failed(Some(toast)) => !connected && !usb_attached && toast@
                == disconnect_notice(*chain),
            BluetoothEnd::Failed(None) => !connected && usb_attached,
        },
{
    if connected {
        return BluetoothEnd::Restart;
    }
    if usb_attached {
        return BluetoothEnd::Failed(None);
    }
    let mut lines: Vec<&str> = Vec::new();
    if chain.had_battery_tier_while_usb_detached {
        let level = join3(
            "Last known battery percentage: ",
            battery_level_text(chain.last_battery_pct).as_str(),
            ".",
        );
        lines.push("Did you disable the keyboard or did it run out of battery?");
        lines.push(level.as_str());
        proof {
            assert(crate::session::notifications::line_views(lines@) =~= seq![
                "Did you disable the keyboard or did it run out of battery?"@,
                level@,
            ]);
        }
        BluetoothEnd::Failed(
            Some(
                Toast {
                    style: ToastStyle::Chained,
                    icon: "dialog-warning".to_owned(),
                    summary: "Bluetooth keyboard disconnected".to_owned(),
                    body: bullet_lines(&lines),
                    urgency: URGENCY_CRITICAL,
                    image: None,
                    expire_ms: BATTERY_EXPIRE_MS_CRITICAL,
                },
            ),
        )
    } else {
        lines.push("Keyboard Bluetooth has disconnected.");
        lines.push("The keyboard may have run out of battery or been switched off.");
        lines.push("Attach it via USB to check or recharge.");
        proof {
            assert(crate::session::notifications::line_views(lines@) =~= seq![
                "Keyboard Bluetooth has disconnected."@,
                "The keyboard may have run out of battery or been switched off."@,
                "Attach it via USB to check or recharge."@,
            ]);
        }
        BluetoothEnd::Failed(
            Some(
                Toast {
                    style: ToastStyle::Fresh,
                    icon: "dialog-warning".to_owned(),
                    summary: "Keyboard disconnected".to_owned(),
                    body: bullet_lines(&lines),
                    urgency: URGENCY_NORMAL,
                    image: None,
                    expire_ms: DISCONNECTED_EXPIRE_MS,
                },
            ),
        )
    }
}

// ── What is warned of and told ───────────────────────────────────────────────

/// How often levels are asked for and keyboards looked for.
pub proof fn law_battery_times()
    ensures
        BATTERY_POLL_SECS == 60,
        MONITOR_RETRY_SECS == 15,
        KEYBOARD_SEARCH_SECS == 10,
{
}

/// A level of at most 5 is critical, one of at most 10 very low and one of at most 20 low; each is
/// warned of unless its warning stands, the gravest first.
pub proof fn law_warnings_by_level(w: KeyboardBatteryWarn, pct: u8)
    ensures
        w.due(pct) == Some(BatteryTier::Critical) <==> pct <= 5 && !w.shown_below_5,
        w.due(pct) == Some(BatteryTier::VeryLow) <==> pct <= 10 && !w.shown_below_10 && !(pct <= 5
            && !w.shown_below_5),
        w.due(pct) == Some(BatteryTier::Low) <==> pct <= 20 && !w.shown_below_20 && !(pct <= 5
            && !w.shown_below_5) && !(pct <= 10 && !w.shown_below_10),
{
}

/// A warning is forgotten exactly when the level is above its threshold, and stands for itself and
/// the milder ones when it is shown.
pub proof fn law_warnings_that_stand(w: KeyboardBatteryWarn, pct: u8)
    ensures
        w.recovered(pct).shown_below_20 <==> w.shown_below_20 && pct <= 20,
        w.recovered(pct).shown_below_10 <==> w.shown_below_10 && pct <= 10,
        w.recovered(pct).shown_below_5 <==> w.shown_below_5 && pct <= 5,
        ({
            let t = w.warned(Some(BatteryTier::Critical));
            t.shown_below_20 && t.shown_below_10 && t.shown_below_5
        }),
        ({
            let t = w.warned(Some(BatteryTier::VeryLow));
            t.shown_below_20 && t.shown_below_10 && t.shown_below_5 == w.shown_below_5
        }),
        ({
            let t = w.warned(Some(BatteryTier::Low));
            t.shown_below_20 && t.shown_below_10 == w.shown_below_10 && t.shown_below_5
                == w.shown_below_5
        }),
        w.warned(None) == w,
{
}

/// A warning stays, is critical, and gives the level and what to do about it.
pub proof fn law_warnings_in_words(tier: BatteryTier, pct: u8)
    ensures
        ({
            let shown = tier.warning(pct);
            &&& shown.style == ToastStyle::Chained
            &&& shown.urgency == 2
            &&& tier == BatteryTier::Critical ==> shown.icon == "dialog-error"@ && shown.summary
                == "Keyboard battery critical!"@ && shown.image == Some(
                "battery-level-0-symbolic"@,
            ) && shown.expire_ms == 120_000
            &&& tier == BatteryTier::VeryLow ==> shown.icon == "dialog-warning"@ && shown.summary
                == "Keyboard battery below 10%"@ && shown.image == Some(
                "battery-caution-symbolic"@,
            ) && shown.expire_ms == 120_000
            &&& tier == BatteryTier::Low ==> shown.icon == "dialog-warning"@ && shown.summary
                == "Keyboard battery below 20%"@ && shown.image == Some(
                "battery-full-charging-symbolic"@,
            ) && shown.expire_ms == 30_000
            &&& ("Keyboard battery at <b>"@ + crate::text::decimal(pct as nat)).is_prefix_of(
                shown.body,
            )
        }),
{
    let head = "Keyboard battery at <b>"@ + crate::text::decimal(pct as nat);
    let body = tier.warning(pct).body;
    assert(body =~= head + tier.advice());
    assert(body.subrange(0, head.len() as int) =~= head);
}

/// A warning that is due is shown and remembered, and only then.
pub proof fn law_due_warnings_are_shown(
    chain: KeyboardDisplayNotifState,
    tier: BatteryTier,
    pct: u8,
)
    ensures
        tier_warnings(Some(tier), pct) =~= seq![tier.warning(pct)],
        tier_warnings(None, pct).len() == 0,
        tier_remembered(chain, Some(tier)).had_battery_tier_while_usb_detached,
        tier_remembered(chain, None) == chain,
        tier_remembered(chain, Some(tier)).replaces_id == chain.replaces_id,
        tier_remembered(chain, Some(tier)).last_battery_pct == chain.last_battery_pct,
{
}

/// Half and three quarters are told when they are reached for the first time in a charge, and count
/// as told from then on.
pub proof fn law_milestones_by_level(w: KeyboardBatteryChargeWarn, pct: u8, eta: Option<u32>)
    ensures
        ({
            let told = milestones(w, pct, eta);
            &&& pct >= 50 && !w.shown_half ==> told.len() > 0 && told[0] == milestone(
                false,
                pct,
                eta,
            )
            &&& pct >= 75 && !w.shown_high ==> told.len() > 0 && told.last() == milestone(
                true,
                pct,
                eta,
            )
            &&& told.len() == (if pct >= 50 && !w.shown_half {
                1int
            } else {
                0int
            }) + (if pct >= 75 && !w.shown_high {
                1int
            } else {
                0int
            })
        }),
        w.passed(pct).shown_half <==> w.shown_half || pct >= 50,
        w.passed(pct).shown_high <==> w.shown_high || pct >= 75,
        w.passed(pct).shown_full == w.shown_full,
        ({
            let fresh = KeyboardBatteryChargeWarn::none_shown();
            !fresh.shown_half && !fresh.shown_high && !fresh.shown_full
        }),
{
}

/// A milestone is told briefly, with the level and, where it is known, the time to a full battery.
pub proof fn law_milestones_in_words(pct: u8, eta: Option<u32>)
    ensures
        ({
            let half = milestone(false, pct, eta);
            let high = milestone(true, pct, eta);
            let level = "Keyboard battery at <b>"@ + crate::text::decimal(pct as nat)
                + "%</b> while charging on USB."@;
            &&& half.summary == "Keyboard charging — 50%"@
            &&& high.summary == "Keyboard charging — 75%"@
            &&& half.icon == "battery-medium-charging-symbolic"@
            &&& high.icon == "battery-good-charging-symbolic"@
            &&& half.image == Some(half.icon) && high.image == Some(high.icon)
            &&& half.style == ToastStyle::Fresh && high.style == ToastStyle::Fresh
            &&& half.urgency == 1 && high.urgency == 1
            &&& half.expire_ms == 45_000 && high.expire_ms == 45_000
            &&& eta is None ==> half.body == crate::session::notifications::bulleted(seq![level])
            &&& eta is Some ==> half.body == crate::session::notifications::bulleted(
                seq![level, eta_text(eta)],
            )
            &&& high.body == half.body
        }),
{
}

/// The time to a full battery, in words.
pub proof fn law_charging_time_in_words(m: u32)
    ensures
        eta_text(None).len() == 0,
        eta_text(Some(0)) == "Estimated time to full: less than a minute."@,
        eta_text(Some(1)) == "Estimated time to full: about 1 minute."@,
        m > 1 ==> eta_text(Some(m)) == "Estimated time to full: about "@ + crate::text::decimal(
            m as nat,
        ) + " minutes."@,
{
}

/// A battery counts as full where the keyboard says so, and from 95 percent on; that is told briefly.
pub proof fn law_full_battery(pct: u8, firmware_full: bool, image: Option<Seq<char>>)
    ensures
        counts_as_full(pct, firmware_full) <==> firmware_full || pct >= 95,
        ({
            let told = full_notice(pct, image);
            &&& told.style == ToastStyle::Fresh
            &&& told.icon == "battery-full-charged"@
            &&& told.summary == "Keyboard battery full"@
            &&& told.urgency == 1
            &&& told.image == image
            &&& told.expire_ms == 60_000
            &&& pct >= 100 ==> told.body == crate::session::notifications::bulleted(
                seq![
                    "Keyboard battery is fully charged."@,
                    "You can unplug the side USB cable and use Bluetooth again."@,
                ],
            )
            &&& pct < 100 ==> told.body == crate::session::notifications::bulleted(
                seq![
                    "Keyboard battery is at <b>"@ + crate::text::decimal(pct as nat)
                        + "%</b> — the highest level this pack reports when full."@,
                    "You can unplug the side USB cable and use Bluetooth again."@,
                ],
            )
        }),
{
}

/// Levels older than 45 minutes are forgotten and no others; of more than 24 the last 24 are kept.
pub proof fn law_levels_of_late(s: Seq<(u64, u8)>, now: u64)
    ensures
        s.len() > 0 && now - s[0].0 <= 2_700_000 ==> recent(s, now) == s,
        s.len() > 0 && now - s[0].0 > 2_700_000 ==> recent(s, now) == recent(s.drop_first(), now),
        recent(Seq::empty(), now).len() == 0,
        recent(s, now).len() > 0 ==> now - recent(s, now)[0].0 <= 2_700_000,
        s.len() <= 24 ==> latest(s) == s,
        s.len() > 24 ==> latest(s).len() == 24 && latest(s) == s.skip(s.len() - 24),
    decreases s.len(),
{
    if s.len() > 0 {
        law_levels_of_late(s.drop_first(), now);
    }
}

/// A level that is the same as the last is not recorded; a new one is the last one afterwards.
pub proof fn law_new_levels_are_recorded(s: Seq<(u64, u8)>, now: u64, pct: u8)
    ensures
        s.len() > 0 && s.last().1 == pct ==> recorded(s, now, pct) == s,
        s.len() == 0 || s.last().1 != pct ==> recorded(s, now, pct).len() > 0 && recorded(
            s,
            now,
            pct,
        ).last() == (now, pct),
{
    if s.len() == 0 || s.last().1 != pct {
        let pushed = s.push((now, pct));
        lemma_recent_is_suffix(latest(pushed), now);
        let kept = recent(latest(pushed), now);
        assert(latest(pushed).last() == (now, pct));
        assert(kept.last() == latest(pushed).last());
    }
}

/// A rate is estimated from the first and the last level where these are a minute apart and the level
/// has risen; a level that is reached needs none.
pub proof fn law_rate_of_charge(s: Seq<(u64, u8)>, current: u8, target: u8)
    ensures
        current >= target ==> outlook(s, current, target) == ChargeOutlook::Reached,
        current < target && s.len() < 2 ==> outlook(s, current, target) == ChargeOutlook::Unknown,
        current < target && s.len() >= 2 && s.last().0 < s[0].0 + 60_000 ==> outlook(
            s,
            current,
            target,
        ) == ChargeOutlook::Unknown,
        current < target && s.len() >= 2 && s.last().1 <= s[0].1 ==> outlook(s, current, target)
            == ChargeOutlook::Unknown,
        current < target && s.len() >= 2 && s.last().0 >= s[0].0 + 60_000 && s.last().1 > s[0].1
            ==> (outlook(s, current, target) matches ChargeOutlook::Rate {
            elapsed_ms,
            gained,
            missing,
        } && elapsed_ms == s.last().0 - s[0].0 && gained == s.last().1 - s[0].1 && missing == target
            - current),
{
}

/// A report says something new where the level has changed or the keyboard says that it is full; the
/// level is then the last one, and whether it is below full is remembered.
pub proof fn law_reports_that_are_news(watch: BatteryWatch, report: BatteryReport)
    ensures
        watch.stale(report) <==> report.pct == watch.last_pct && !report.firmware_full,
        !watch.stale(report) ==> watch.after(report).last_pct == report.pct,
        !watch.stale(report) ==> (watch.after(report).was_below_full <==> !report.firmware_full
            && report.pct < 95),
        watch.stale(report) ==> watch.after(report) == watch,
        watch.consistent() <==> (watch.was_below_full ==> watch.last_pct < 95),
{
}

/// Milestones are told only while the battery charges; a full battery is told when it was not full
/// before and that has not been told in this charge.
pub proof fn law_news_of_the_charge(
    watch: BatteryWatch,
    report: BatteryReport,
    w: KeyboardBatteryChargeWarn,
    eta: Option<u32>,
)
    requires
        !watch.stale(report),
    ensures
        ({
            let told = watch.notices(report, w, eta);
            let full = (report.firmware_full || report.pct >= 95) && watch.was_below_full
                && !w.shown_full;
            &&& full ==> told.len() > 0 && told.last() == full_notice(
                report.pct,
                Some("battery-full-charged-symbolic"@),
            )
            &&& !report.charging && !full ==> told.len() == 0
            &&& !report.charging && full ==> told.len() == 1
            &&& report.charging && !full ==> told == milestones(w, report.pct, eta)
            &&& full ==> watch.shown_after(report, w).shown_full && watch.shown_after(
                report,
                w,
            ).shown_half && watch.shown_after(report, w).shown_high
            &&& !full ==> watch.shown_after(report, w).shown_full == w.shown_full
            &&& !full && report.charging ==> (watch.shown_after(report, w).shown_half
                <==> w.shown_half || report.pct >= 50) && (watch.shown_after(report, w).shown_high
                <==> w.shown_high || report.pct >= 75)
            &&& !full && !report.charging ==> watch.shown_after(report, w) == w
        }),
{
    let told = watch.notices(report, w, eta);
    if !((report.firmware_full || report.pct >= 95) && watch.was_below_full && !w.shown_full) {
        assert(told =~= if report.charging {
            milestones(w, report.pct, eta)
        } else {
            Seq::empty()
        });
    }
}

/// A level on Bluetooth is warned of unless the keyboard is on USB, and a full battery is told when it
/// was not full before.
pub proof fn law_levels_on_bluetooth(
    watch: BatteryWatch,
    pct: u8,
    w: KeyboardBatteryWarn,
    usb_attached: bool,
)
    ensures
        usb_attached ==> BatteryWatch::tier_on_change(pct, w, usb_attached) is None,
        !usb_attached ==> BatteryWatch::tier_on_change(pct, w, usb_attached) == w.recovered(
            pct,
        ).due(pct),
        ({
            let told = watch.level_notices(pct, w, usb_attached);
            let tier = BatteryWatch::tier_on_change(pct, w, usb_attached);
            &&& tier matches Some(t) ==> told.len() > 0 && told[0] == t.warning(pct)
            &&& pct >= 95 && watch.was_below_full ==> told.len() > 0 && told.last() == full_notice(
                pct,
                None,
            )
            &&& tier is None && !(pct >= 95 && watch.was_below_full) ==> told.len() == 0
        }),
{
}

/// A keyboard that has left Bluetooth after a warning is told of until it is dismissed, with its last
/// level; otherwise it is told of briefly.
pub proof fn law_lost_keyboard_in_words(chain: KeyboardDisplayNotifState)
    ensures
        ({
            let told = disconnect_notice(chain);
            &&& told.icon == "dialog-warning"@
            &&& told.image is None
            &&& chain.had_battery_tier_while_usb_detached ==> told.style == ToastStyle::Chained
                && told.urgency == 2 && told.expire_ms == 120_000 && told.summary
                == "Bluetooth keyboard disconnected"@ && told.body
                == crate::session::notifications::bulleted(
                seq![
                    "Did you disable the keyboard or did it run out of battery?"@,
                    "Last known battery percentage: "@ + crate::session::notifications::level_text(
                        chain.last_battery_pct,
                    ) + "."@,
                ],
            )
            &&& !chain.had_battery_tier_while_usb_detached ==> told.style == ToastStyle::Fresh
                && told.urgency == 1 && told.expire_ms == 6_000 && told.summary
                == "Keyboard disconnected"@ && told.body
                == crate::session::notifications::bulleted(
                seq![
                    "Keyboard Bluetooth has disconnected."@,
                    "The keyboard may have run out of battery or been switched off."@,
                    "Attach it via USB to check or recharge."@,
                ],
            )
        }),
{
}

/// What each warning advises.
pub proof fn law_advice_in_words()
    ensures
        BatteryTier::Critical.advice()
            == "%</b>.\u{2028}Reattach the keyboard to USB immediately — it could become unavailable at any moment."@,
        BatteryTier::VeryLow.advice()
            == "%</b>.\u{2028}Attach the keyboard to USB to charge before it becomes critical."@,
        BatteryTier::Low.advice()
            == "%</b>.\u{2028}Running on Bluetooth power — level is informational only."@,
{
}

} // verus!
