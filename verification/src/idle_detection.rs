//! When the keyboard counts as idle.
use vstd::prelude::*;

use crate::bt_readers::READ_ERROR_DELAY_MS;
use crate::keyboard_bt::{BT_KEYBOARD_NAME, ENODEV};
use crate::text::{contains, starts_with};

verus! {

#[derive(Clone, Copy, Debug, PartialEq, Eq, Structural)]
pub enum IdleEvent {
    /// Somebody typed.
    Activity,
    /// The timeout was changed, in seconds.
    TimeoutChanged(u64),
    /// The time until idleness has passed.
    Elapsed,
    /// Nothing can tell of activity or of the timeout any more.
    Closed,
}

#[derive(Clone, Copy, Debug, PartialEq, Eq, Structural)]
pub enum IdleAction {
    Nothing,
    IdleStart,
    IdleEnd,
    Stop,
}

/// Whether the keyboard is idle. Times are milliseconds of a clock that never runs backwards.
#[derive(Clone, Copy, Debug, PartialEq, Eq, Structural)]
pub struct IdleTimer {
    pub is_idle: bool,
    pub last_activity: u64,
    /// Zero turns the detection off.
    pub timeout_secs: u64,
}

impl IdleTimer {
    /// Idleness is waited for only while the detection is on and the keyboard is not idle.
    pub open spec fn waiting(self) -> bool {
        self.timeout_secs > 0 && !self.is_idle
    }

    /// Time left until the keyboard counts as idle.
    pub open spec fn left(self, now: u64) -> int {
        let left = self.timeout_secs * 1000 - (now - self.last_activity);
        if left > 0 {
            left
        } else {
            0
        }
    }

    pub open spec fn next(self, event: IdleEvent, now: u64) -> (IdleTimer, IdleAction) {
        match event {
            IdleEvent::Activity => (
                IdleTimer { is_idle: false, last_activity: now, ..self },
                if self.is_idle {
                    IdleAction::IdleEnd
                } else {
                    IdleAction::Nothing
                },
            ),
            IdleEvent::TimeoutChanged(secs) => if secs == 0 && self.is_idle {
                (IdleTimer { is_idle: false, timeout_secs: secs, ..self }, IdleAction::IdleEnd)
            } else {
                (IdleTimer { timeout_secs: secs, ..self }, IdleAction::Nothing)
            },
            IdleEvent::Elapsed => (IdleTimer { is_idle: true, ..self }, IdleAction::IdleStart),
            IdleEvent::Closed => (self, IdleAction::Stop),
        }
    }

    /// The keyboard counts as active at first.
    pub fn new(timeout_secs: u64, now: u64) -> (r: Self)
        ensures
            r == (IdleTimer { is_idle: false, last_activity: now, timeout_secs }),
    {
        IdleTimer { is_idle: false, last_activity: now, timeout_secs }
    }

    /// How long to wait for the next event before the keyboard counts as idle; `None` waits for
    /// events alone.
    pub fn time_until_idle(&self, now: u64) -> (r: Option<u128>)
        requires
            self.last_activity <= now,
        ensures
            match r {
                Some(ms) => self.waiting() && ms == self.left(now),
                None => !self.waiting(),
            },
    {
        if self.timeout_secs > 0 && !self.is_idle {
            let total: u128 = (self.timeout_secs as u128) * 1000;
            let passed: u128 = (now - self.last_activity) as u128;
            if total > passed {
                Some(total - passed)
            } else {
                Some(0)
            }
        } else {
            None
        }
    }

    /// Takes an event; `Elapsed` comes only while idleness is waited for.
    pub fn step(&mut self, event: IdleEvent, now: u64) -> (r: IdleAction)
        requires
            event == IdleEvent::Elapsed ==> old(self).waiting(),
        ensures
            (*final(self), r) == old(self).next(event, now),
    {
        match event {
            IdleEvent::Activity => {
                let was_idle = self.is_idle;
                self.last_activity = now;
                self.is_idle = false;
                if was_idle {
                    IdleAction::IdleEnd
                } else {
                    IdleAction::Nothing
                }
            },
            IdleEvent::TimeoutChanged(secs) => {
                self.timeout_secs = secs;
                if secs == 0 && self.is_idle {
                    self.is_idle = false;
                    IdleAction::IdleEnd
                } else {
                    IdleAction::Nothing
                }
            },
            IdleEvent::Elapsed => {
                self.is_idle = true;
                IdleAction::IdleStart
            },
            IdleEvent::Closed => IdleAction::Stop,
        }
    }
}

/// Begin and end of idleness are told alternately: a begin only while active, an end only while
/// idle; and the state agrees with what was told last.
pub proof fn law_idle_edges_alternate(t: IdleTimer, event: IdleEvent, now: u64)
    requires
        event == IdleEvent::Elapsed ==> t.waiting(),
    ensures
        t.next(event, now).1 == IdleAction::IdleStart ==> !t.is_idle && t.next(event, now).0.is_idle,
        t.next(event, now).1 == IdleAction::IdleEnd ==> t.is_idle && !t.next(event, now).0.is_idle,
        t.next(event, now).1 != IdleAction::IdleStart && t.next(event, now).1
            != IdleAction::IdleEnd ==> t.next(event, now).0.is_idle == t.is_idle,
{
}

/// With the detection turned off the keyboard does not stay or become idle.
pub proof fn law_zero_timeout_disables(t: IdleTimer, now: u64)
    ensures
        ({
            let off = t.next(IdleEvent::TimeoutChanged(0), now).0;
            !off.is_idle && !off.waiting()
        }),
{
}

/// Activity puts idleness off by the whole timeout.
pub proof fn law_activity_restarts_timeout(t: IdleTimer, now: u64)
    ensures
        t.next(IdleEvent::Activity, now).0.left(now) == t.timeout_secs * 1000,
{
}

/// Whether an input device is listened to for activity.
pub fn listens_to(file_name: &str, device_name: &str) -> (r: bool)
    ensures
        r == ("event"@.is_prefix_of(file_name@) && crate::text::contains_text(
            device_name@,
            BT_KEYBOARD_NAME@,
        )),
{
    starts_with(file_name, "event") && contains(device_name, BT_KEYBOARD_NAME)
}

/// What a listener does after a read.
#[derive(Clone, Copy, Debug, PartialEq, Eq, Structural)]
pub enum ListenerAction {
    NotifyActivity,
    SleepMs(u64),
    Stop,
}

/// Every event counts as activity; a listener ends when its device is gone. `errno` is the error
/// number of a failed read.
pub fn listener_step(read_ok: bool, errno: Option<i32>) -> (r: ListenerAction)
    ensures
        r == (if read_ok {
            ListenerAction::NotifyActivity
        } else if crate::bt_readers::device_gone(errno) {
            ListenerAction::Stop
        } else {
            ListenerAction::SleepMs(READ_ERROR_DELAY_MS)
        }),
{
    if read_ok {
        return ListenerAction::NotifyActivity;
    }
    let gone = match errno {
        Some(n) => n == ENODEV,
        None => false,
    };
    if gone {
        ListenerAction::Stop
    } else {
        ListenerAction::SleepMs(READ_ERROR_DELAY_MS)
    }
}

/// The time left is the whole timeout from the last activity on, counted down to zero; idleness is
/// waited for exactly with a timeout and without idleness.
pub proof fn law_time_until_idleness(t: IdleTimer, now: u64)
    requires
        t.last_activity <= now,
    ensures
        t.waiting() <==> t.timeout_secs > 0 && !t.is_idle,
        now < t.last_activity + 1000 * t.timeout_secs ==> t.left(now) == t.last_activity + 1000
            * t.timeout_secs - now,
        now >= t.last_activity + 1000 * t.timeout_secs ==> t.left(now) == 0,
{
}

/// Activity ends idleness, which is told, and is remembered; time that has passed begins it, which is
/// told; a timeout is taken over, and zero ends idleness.
pub proof fn law_idleness_begins_and_ends(t: IdleTimer, secs: u64, now: u64)
    ensures
        ({
            let (u, action) = t.next(IdleEvent::Activity, now);
            &&& !u.is_idle
            &&& u.last_activity == now
            &&& u.timeout_secs == t.timeout_secs
            &&& action == IdleAction::IdleEnd <==> t.is_idle
            &&& action == IdleAction::Nothing <==> !t.is_idle
        }),
        ({
            let (u, action) = t.next(IdleEvent::Elapsed, now);
            &&& u.is_idle
            &&& action == IdleAction::IdleStart
            &&& u.last_activity == t.last_activity && u.timeout_secs == t.timeout_secs
        }),
        ({
            let (u, action) = t.next(IdleEvent::TimeoutChanged(secs), now);
            &&& u.timeout_secs == secs
            &&& u.last_activity == t.last_activity
            &&& secs > 0 ==> u.is_idle == t.is_idle && action == IdleAction::Nothing
            &&& secs == 0 ==> !u.is_idle
            &&& secs == 0 && t.is_idle ==> action == IdleAction::IdleEnd
            &&& secs == 0 && !t.is_idle ==> action == IdleAction::Nothing
        }),
        t.next(IdleEvent::Closed, now) == (t, IdleAction::Stop),
{
}

} // verus!
