//! The platform's switch of the lower panel, and the synchronisation of its brightness.
//!
//! The switch is written at once only where no session is registered or a fallback was armed;
//! otherwise the session says when its layout is stable without the panel.
use vstd::prelude::*;

use crate::text::{decimal_text, parse_number, same, trim};

verus! {

/// How long after a write the switch is left alone, in seconds.
pub const ENFORCER_COOLDOWN_SECS: u64 = 8;

pub const ENFORCER_INTERVAL_MS: u64 = 500;

/// How long the switch is waited for after it was turned on, in seconds.
pub const ENABLE_WAIT_SECS: u64 = 8;

/// A value to write to the switch.
#[derive(Clone, Copy, Debug, PartialEq, Eq, Structural)]
pub enum SysfsWrite {
    On,
    Off,
}

impl SysfsWrite {
    pub open spec fn text(self) -> Seq<char> {
        match self {
            SysfsWrite::On => "on"@,
            SysfsWrite::Off => "off"@,
        }
    }

    /// What is written.
    pub fn as_str(&self) -> (r: &'static str)
        ensures
            r@ == self.text(),
    {
        match self {
            SysfsWrite::On => "on",
            SysfsWrite::Off => "off",
        }
    }
}

/// The content of the switch's status file says that the panel is on.
pub open spec fn status_on(content: Seq<char>) -> bool {
    crate::text::trimmed(content) == "on"@ || crate::text::trimmed(content) == "connected"@
}

/// Whether the panel is on; a status file that cannot be read says no.
pub fn is_secondary_display_enabled_actual(content: Option<&str>) -> (r: bool)
    ensures
        r == (match content {
            Some(text) => status_on(text@),
            None => false,
        }),
{
    match content {
        Some(text) => {
            let status = trim(text);
            same(status.as_str(), "on") || same(status.as_str(), "connected")
        },
        None => false,
    }
}

/// State of the switch's handling. Times are seconds since the epoch.
#[derive(Clone, Copy, Debug, PartialEq, Eq, Structural)]
pub struct SecondarySwitch {
    /// The next event is to be written at once, whatever the session does.
    pub fallback_armed: bool,
    /// When the switch was last written.
    pub last_change: u64,
    /// Until when brightness is not synchronised.
    pub brightness_paused_until: u64,
}

impl SecondarySwitch {
    /// Nothing has been done yet.
    pub fn new() -> (r: Self)
        ensures
            r == (SecondarySwitch {
                fallback_armed: false,
                last_change: 0,
                brightness_paused_until: 0,
            }),
    {
        SecondarySwitch { fallback_armed: false, last_change: 0, brightness_paused_until: 0 }
    }

    pub open spec fn paused(self, now: u64) -> bool {
        now < self.brightness_paused_until
    }

    /// The switch is written only if the panel is not as wanted.
    pub open spec fn controlled(self, actual: bool, enable: bool, now: u64) -> (
        SecondarySwitch,
        Option<SysfsWrite>,
    ) {
        if actual == enable {
            (self, None)
        } else {
            (
                SecondarySwitch { last_change: now, ..self },
                Some(
                    if enable {
                        SysfsWrite::On
                    } else {
                        SysfsWrite::Off
                    },
                ),
            )
        }
    }

    /// The panel was found to be wanted on or off. Off is left to a registered session unless a
    /// fallback was armed; the fallback is used up either way.
    pub open spec fn told(
        self,
        enable: bool,
        session_registered: bool,
        actual: bool,
        now: u64,
    ) -> (SecondarySwitch, Option<SysfsWrite>) {
        let disarmed = SecondarySwitch { fallback_armed: false, ..self };
        if !enable && session_registered && !self.fallback_armed {
            (disarmed, None)
        } else {
            disarmed.controlled(actual, enable, now)
        }
    }

    /// The regular look at the switch: only without a session, and not soon after a write.
    pub open spec fn enforced(
        self,
        session_registered: bool,
        actual: bool,
        enable: bool,
        now: u64,
    ) -> (SecondarySwitch, Option<SysfsWrite>) {
        if session_registered || now - self.last_change < ENFORCER_COOLDOWN_SECS {
            (self, None)
        } else {
            self.controlled(actual, enable, now)
        }
    }

    /// The session reports a stable layout without the panel: the switch is turned off unless the
    /// panel is still wanted and the keyboard does not cover it.
    pub open spec fn powered_off(
        self,
        desired: bool,
        docked: bool,
        actual: bool,
        now: u64,
    ) -> (SecondarySwitch, Option<SysfsWrite>) {
        if desired && !docked {
            (self, None)
        } else {
            self.controlled(actual, false, now)
        }
    }

    fn control_secondary_display(&mut self, actual: bool, enable: bool, now: u64) -> (r: Option<
        SysfsWrite,
    >)
        ensures
            (*final(self), r) == old(self).controlled(actual, enable, now),
    {
        if actual == enable {
            return None;
        }
        self.last_change = now;
        if enable {
            Some(SysfsWrite::On)
        } else {
            Some(SysfsWrite::Off)
        }
    }

    /// First look at the switch, when the daemon starts.
    pub fn on_startup(&mut self, actual: bool, enable: bool, now: u64) -> (r: Option<SysfsWrite>)
        ensures
            (*final(self), r) == old(self).controlled(actual, enable, now),
    {
        self.control_secondary_display(actual, enable, now)
    }

    /// The panel is to be on or off; `true` besides the write asks to restore its brightness.
    pub fn on_secondary_event(
        &mut self,
        enable: bool,
        session_registered: bool,
        actual: bool,
        now: u64,
    ) -> (r: (Option<SysfsWrite>, bool))
        ensures
            (*final(self), r.0) == old(self).told(enable, session_registered, actual, now),
            r.1 == enable,
    {
        let forced = self.fallback_armed;
        self.fallback_armed = false;
        if !enable && session_registered && !forced {
            return (None, false);
        }
        let write = self.control_secondary_display(actual, enable, now);
        (write, enable)
    }

    /// The regular look at the switch.
    pub fn on_enforcer_tick(
        &mut self,
        session_registered: bool,
        actual: bool,
        enable: bool,
        now: u64,
    ) -> (r: Option<SysfsWrite>)
        ensures
            (*final(self), r) == old(self).enforced(session_registered, actual, enable, now),
    {
        if session_registered {
            return None;
        }
        if now < self.last_change || now - self.last_change < ENFORCER_COOLDOWN_SECS {
            return None;
        }
        self.control_secondary_display(actual, enable, now)
    }

    /// The session reports a stable layout without the panel.
    pub fn apply_secondary_sysfs_poweroff_when_desired_off(
        &mut self,
        desired: bool,
        docked: bool,
        actual: bool,
        now: u64,
    ) -> (r: Option<SysfsWrite>)
        ensures
            (*final(self), r) == old(self).powered_off(desired, docked, actual, now),
    {
        if desired && !docked {
            return None;
        }
        self.control_secondary_display(actual, false, now)
    }
}

/// Stops the synchronisation of brightness for a while, of at least a second.
pub fn pause_brightness_sync_for(switch: &mut SecondarySwitch, secs: u64, now: u64)
    ensures
        *final(switch) == (SecondarySwitch {
            brightness_paused_until: ({
                let pause = if secs >= 1 {
                    secs as int
                } else {
                    1
                };
                if now + pause <= u64::MAX {
                    (now + pause) as u64
                } else {
                    u64::MAX
                }
            }),
            ..*old(switch)
        }),
{
    let pause: u64 = if secs >= 1 {
        secs
    } else {
        1
    };
    switch.brightness_paused_until = now.saturating_add(pause);
}

/// Whether brightness is not synchronised at the moment.
pub fn brightness_sync_paused(switch: &SecondarySwitch, now: u64) -> (r: bool)
    ensures
        r == switch.paused(now),
{
    now < switch.brightness_paused_until
}

/// Makes the next event be written at once.
pub fn arm_sysfs_fallback_once(switch: &mut SecondarySwitch)
    ensures
        *final(switch) == (SecondarySwitch { fallback_armed: true, ..*old(switch) }),
{
    switch.fallback_armed = true;
}

/// What to write so that the session finds the panel when it is told: nothing if it is on.
pub fn ensure_secondary_display_on(actual: bool) -> (r: Option<SysfsWrite>)
    ensures
        r == (if actual {
            None
        } else {
            Some(SysfsWrite::On)
        }),
{
    if actual {
        None
    } else {
        Some(SysfsWrite::On)
    }
}

/// An armed fallback serves one event: the next one is left to the session again.
pub proof fn law_fallback_serves_once(s: SecondarySwitch, actual: bool, now: u64, later: u64)
    requires
        s.fallback_armed,
    ensures
        ({
            let (t, first) = s.told(false, true, true, now);
            &&& first == Some(SysfsWrite::Off)
            &&& t.told(false, true, actual, later).1 is None
        }),
{
}

/// With a registered session and no fallback the switch is never turned off by itself.
pub proof fn law_session_owns_switch(s: SecondarySwitch, actual: bool, enable: bool, now: u64)
    requires
        !s.fallback_armed,
    ensures
        s.told(false, true, actual, now).1 is None,
        s.enforced(true, actual, enable, now).1 is None,
{
}

/// The switch is never written with the value that it has, and a second look after a write leaves
/// it alone for the cooldown.
pub proof fn law_switch_is_not_rewritten(s: SecondarySwitch, enable: bool, now: u64, later: u64)
    requires
        now <= later < now + 8,
    ensures
        s.controlled(enable, enable, now).1 is None,
        s.controlled(!enable, enable, now).0.enforced(false, !enable, enable, later).1 is None,
{
}

// ── Waiting for the switch ───────────────────────────────────────────────────

/// What happens while the switch is waited for.
#[derive(Clone, Copy, Debug, PartialEq, Eq, Structural)]
pub enum WaitEvent {
    /// The state of the panel was read, before a watch was set up.
    First { actual: bool },
    /// The watch could not be set up, or ended.
    WatchFailed,
    /// The state of the panel was read again.
    Looked { actual: bool },
    /// Something happened in the directory: about the status file or not.
    Changed { about_status: bool, actual: bool },
    TimedOut,
}

#[derive(Clone, Copy, Debug, PartialEq, Eq, Structural)]
pub enum WaitCommand {
    SetUpWatch,
    /// Read the state again.
    Look,
    /// Wait for a change, at most so long.
    Await { ms: u64 },
    Done(bool),
}

/// How the wait goes on: it succeeds as soon as the panel is seen as wanted, and fails at the
/// deadline.
pub open spec fn wait_next(enable: bool, deadline: u64, event: WaitEvent, now: u64) -> WaitCommand {
    match event {
        WaitEvent::First { actual } => if actual == enable {
            WaitCommand::Done(true)
        } else {
            WaitCommand::SetUpWatch
        },
        WaitEvent::WatchFailed => WaitCommand::Done(false),
        WaitEvent::Looked { actual } => if now >= deadline {
            WaitCommand::Done(false)
        } else if actual == enable {
            WaitCommand::Done(true)
        } else {
            WaitCommand::Await { ms: (deadline - now) as u64 }
        },
        WaitEvent::Changed { about_status, actual } => if about_status && actual == enable {
            WaitCommand::Done(true)
        } else {
            WaitCommand::Look
        },
        WaitEvent::TimedOut => WaitCommand::Done(false),
    }
}

/// One step of waiting for the panel to be on or off. Times are milliseconds.
pub fn wait_for_secondary_display_state_until(
    enable: bool,
    deadline: u64,
    event: WaitEvent,
    now: u64,
) -> (r: WaitCommand)
    ensures
        r == wait_next(enable, deadline, event, now),
{
    match event {
        WaitEvent::First { actual } => if actual == enable {
            WaitCommand::Done(true)
        } else {
            WaitCommand::SetUpWatch
        },
        WaitEvent::WatchFailed => WaitCommand::Done(false),
        WaitEvent::Looked { actual } => if now >= deadline {
            WaitCommand::Done(false)
        } else if actual == enable {
            WaitCommand::Done(true)
        } else {
            WaitCommand::Await { ms: deadline - now }
        },
        WaitEvent::Changed { about_status, actual } => if about_status && actual == enable {
            WaitCommand::Done(true)
        } else {
            WaitCommand::Look
        },
        WaitEvent::TimedOut => WaitCommand::Done(false),
    }
}

/// Whether a change in a directory is about the named file; one without a name may be.
pub fn concerns_file(target: Option<&str>, changed: Option<&str>) -> (r: bool)
    ensures
        r == (match (target, changed) {
            (Some(t), Some(c)) => t@ == c@,
            _ => true,
        }),
{
    match target {
        Some(t) => match changed {
            Some(c) => same(t, c),
            None => true,
        },
        None => true,
    }
}

/// A wait succeeds only if the panel was seen as wanted.
pub proof fn law_wait_succeeds_on_sight(enable: bool, deadline: u64, event: WaitEvent, now: u64)
    requires
        wait_next(enable, deadline, event, now) == WaitCommand::Done(true),
    ensures
        event == (WaitEvent::First { actual: enable }) || event == (WaitEvent::Looked {
            actual: enable,
        }) || event == (WaitEvent::Changed { about_status: true, actual: enable }),
{
}

// ── Brightness ───────────────────────────────────────────────────────────────

/// The brightness in the content of a brightness file.
pub open spec fn brightness_value(content: Seq<char>) -> Option<nat> {
    crate::text::number_value(crate::text::trimmed(content), 10, u32::MAX as nat)
}

/// Reads a brightness file: the number and its text.
pub fn read_brightness(content: &str) -> (r: Option<(u32, String)>)
    ensures
        match r {
            Some((n, text)) => brightness_value(content@) == Some(n as nat) && text@
                == crate::text::trimmed(content@),
            None => brightness_value(content@) is None,
        },
{
    let text = trim(content);
    match parse_number(text.as_str(), 10, 0xffff_ffff) {
        Some(n) => Some((n as u32, text)),
        None => None,
    }
}

/// Whether a brightness that was read is to be written to the lower panel: not while paused, and
/// only if the panel is wanted and on.
pub fn should_sync_brightness(
    switch: &SecondarySwitch,
    now: u64,
    secondary_desired: bool,
    secondary_on: bool,
) -> (r: bool)
    ensures
        r == (!switch.paused(now) && secondary_desired && secondary_on),
{
    !brightness_sync_paused(switch, now) && secondary_desired && secondary_on
}

/// The brightness to give the lower panel when it has been turned on: that of the upper one, else
/// the stored one.
pub fn restored_brightness(primary_content: Option<&str>, stored: Option<u32>) -> (r: Option<
    String,
>)
    ensures
        crate::state::text_view(r) == (match primary_content {
            Some(c) => if brightness_value(c@) is Some {
                Some(crate::text::trimmed(c@))
            } else {
                stored_text(stored)
            },
            None => stored_text(stored),
        }),
{
    match primary_content {
        Some(c) => {
            match read_brightness(c) {
                Some((_n, text)) => {
                    return Some(text);
                },
                None => {},
            }
        },
        None => {},
    }
    match stored {
        Some(n) => Some(decimal_text(n as u64)),
        None => None,
    }
}

pub open spec fn stored_text(stored: Option<u32>) -> Option<Seq<char>> {
    match stored {
        Some(n) => Some(crate::text::decimal(n as nat)),
        None => None,
    }
}

// ── What is written to the switch ────────────────────────────────────────────

/// The switch knows on and off, and its status file on and connected.
pub proof fn law_switch_in_words(content: Seq<char>)
    ensures
        SysfsWrite::On.text() == "on"@,
        SysfsWrite::Off.text() == "off"@,
        status_on(content) <==> crate::text::trimmed(content) == "on"@ || crate::text::trimmed(
            content,
        ) == "connected"@,
        ENFORCER_COOLDOWN_SECS == 8,
        ENFORCER_INTERVAL_MS == 500,
        ENABLE_WAIT_SECS == 8,
{
}

/// A panel that is not as wanted is written as wanted, and the time is noted; one that is so is left
/// alone.
pub proof fn law_switch_is_written_as_wanted(s: SecondarySwitch, actual: bool, now: u64)
    ensures
        s.controlled(false, true, now).1 == Some(SysfsWrite::On),
        s.controlled(true, false, now).1 == Some(SysfsWrite::Off),
        s.controlled(!actual, actual, now).0.last_change == now,
        s.controlled(!actual, actual, now).0.fallback_armed == s.fallback_armed,
        s.controlled(!actual, actual, now).0.brightness_paused_until == s.brightness_paused_until,
        s.controlled(actual, actual, now) == (s, None::<SysfsWrite>),
{
}

/// On is written at once; off is written at once without a session or with a fallback armed, and
/// else left to the session. Either way the fallback is used up.
pub proof fn law_events_at_the_switch(s: SecondarySwitch, registered: bool, now: u64)
    ensures
        s.told(true, registered, false, now).1 == Some(SysfsWrite::On),
        s.told(true, registered, true, now).1 is None,
        !registered || s.fallback_armed ==> s.told(false, registered, true, now).1 == Some(
            SysfsWrite::Off,
        ),
        registered && !s.fallback_armed ==> s.told(false, registered, true, now).1 is None,
        s.told(false, registered, false, now).1 is None,
        forall|enable: bool, actual: bool|
            !(#[trigger] s.told(enable, registered, actual, now)).0.fallback_armed,
{
}

/// Without a session the regular look writes what is wanted, from eight seconds after a write on.
pub proof fn law_regular_look_at_the_switch(s: SecondarySwitch, enable: bool, now: u64)
    ensures
        now >= s.last_change + 8 ==> s.enforced(false, !enable, enable, now).1 == Some(
            if enable {
                SysfsWrite::On
            } else {
                SysfsWrite::Off
            },
        ),
        now < s.last_change + 8 ==> s.enforced(false, !enable, enable, now) == (
            s,
            None::<SysfsWrite>,
        ),
        s.enforced(false, enable, enable, now) == (s, None::<SysfsWrite>),
        s.enforced(true, !enable, enable, now) == (s, None::<SysfsWrite>),
{
}

/// A layout that is stable without the panel lets it be switched off, where it is not wanted or is
/// covered.
pub proof fn law_stable_layout_switches_off(
    s: SecondarySwitch,
    desired: bool,
    docked: bool,
    now: u64,
)
    ensures
        !desired || docked ==> s.powered_off(desired, docked, true, now).1 == Some(SysfsWrite::Off),
        desired && !docked ==> s.powered_off(desired, docked, true, now) == (
            s,
            None::<SysfsWrite>,
        ),
        s.powered_off(desired, docked, false, now) == (s, None::<SysfsWrite>),
{
}

/// Brightness is held back up to a moment and no longer.
pub proof fn law_pause_ends(s: SecondarySwitch, now: u64)
    ensures
        s.paused(now) <==> now < s.brightness_paused_until,
{
}

/// A panel that is as wanted ends the wait with success; one that is not is watched, and waited for
/// up to the deadline; a watch that fails and a deadline that passes end it without.
pub proof fn law_wait_for_the_panel(enable: bool, deadline: u64, now: u64)
    ensures
        wait_next(enable, deadline, WaitEvent::First { actual: enable }, now) == WaitCommand::Done(
            true,
        ),
        wait_next(enable, deadline, WaitEvent::First { actual: !enable }, now)
            == WaitCommand::SetUpWatch,
        wait_next(enable, deadline, WaitEvent::WatchFailed, now) == WaitCommand::Done(false),
        wait_next(enable, deadline, WaitEvent::TimedOut, now) == WaitCommand::Done(false),
        now >= deadline ==> wait_next(enable, deadline, WaitEvent::Looked { actual: enable }, now)
            == WaitCommand::Done(false),
        now < deadline ==> wait_next(enable, deadline, WaitEvent::Looked { actual: enable }, now)
            == WaitCommand::Done(true),
        now < deadline ==> wait_next(enable, deadline, WaitEvent::Looked { actual: !enable }, now)
            == (WaitCommand::Await { ms: (deadline - now) as u64 }),
        wait_next(
            enable,
            deadline,
            WaitEvent::Changed { about_status: true, actual: enable },
            now,
        ) == WaitCommand::Done(true),
        wait_next(
            enable,
            deadline,
            WaitEvent::Changed { about_status: true, actual: !enable },
            now,
        ) == WaitCommand::Look,
        wait_next(
            enable,
            deadline,
            WaitEvent::Changed { about_status: false, actual: true },
            now,
        ) == WaitCommand::Look,
        wait_next(
            enable,
            deadline,
            WaitEvent::Changed { about_status: false, actual: false },
            now,
        ) == WaitCommand::Look,
{
}

/// A brightness file holds a number in decimal, with whitespace around it or not; a stored brightness
/// is written the same way, so it is read back.
pub proof fn law_brightness_reads_back(n: u32)
    ensures
        stored_text(Some(n)) == Some(crate::text::decimal(n as nat)),
        stored_text(None) is None,
        brightness_value(crate::text::decimal(n as nat)) == Some(n as nat),
{
    let s = crate::text::decimal(n as nat);
    crate::text::law_decimal_reads_back(n as nat, u32::MAX as nat);
    crate::text::lemma_decimal_has_no_whitespace(n as nat);
    crate::text::lemma_trimmed_unchanged(s);
}

} // verus!
