//! The ambient light: a level counts once it has held for a while, and darkness at once.
//!
//! Levels are measured in lux outside of this module; what is asked of a level here is how it
//! compares with the one that counts.
use vstd::prelude::*;

verus! {

pub const AMBIENT_REFRESH_SECS: u64 = 5;

pub const AMBIENT_CLAIM_TIMEOUT_SECS: u64 = 2;

/// How long a level must hold, in milliseconds.
pub const AMBIENT_STABILITY_WINDOW_MS: u64 = 20_000;

/// How a level compares with the one that counts.
#[derive(Clone, Copy, Debug, PartialEq, Eq, Structural)]
pub struct LevelComparison {
    /// The level that counts is above the threshold for low light, and this one is not.
    pub darkens: bool,
    /// The difference is large enough to matter.
    pub drifts: bool,
}

/// What is done with a level.
#[derive(Clone, Copy, Debug, PartialEq, Eq, Structural)]
pub enum LevelStep {
    /// It counts from now on; what was recorded is forgotten.
    Adopt,
    /// It is recorded.
    Record,
    Ignore,
}

/// What is done when a window is over.
#[derive(Clone, Copy, Debug, PartialEq, Eq, Structural)]
pub enum WindowStep {
    /// The average of the recorded levels counts from now on; what was recorded is forgotten.
    Adopt,
    /// What was recorded is forgotten.
    Forget,
    /// There was no window.
    Nothing,
}

/// The time over which levels are recorded.
#[derive(Clone, Copy, Debug, PartialEq, Eq, Structural)]
pub struct AmbientLightSmoother {
    pub window_started_at: Option<u64>,
}

impl AmbientLightSmoother {
    /// No level is being recorded.
    pub fn new() -> (r: Self)
        ensures
            r.window_started_at is None,
    {
        AmbientLightSmoother { window_started_at: None }
    }

    /// The window after a level was recorded.
    pub open spec fn recording(self, now: u64) -> AmbientLightSmoother {
        AmbientLightSmoother {
            window_started_at: match self.window_started_at {
                Some(at) => Some(at),
                None => Some(now),
            },
        }
    }

    pub open spec fn observed(self, level: LevelComparison, now: u64) -> (
        AmbientLightSmoother,
        LevelStep,
    ) {
        if level.darkens {
            (AmbientLightSmoother { window_started_at: None }, LevelStep::Adopt)
        } else if self.window_started_at is Some || level.drifts {
            (self.recording(now), LevelStep::Record)
        } else {
            (self, LevelStep::Ignore)
        }
    }

    pub open spec fn finished(self, average_drifts: bool) -> (AmbientLightSmoother, WindowStep) {
        if self.window_started_at is None {
            (self, WindowStep::Nothing)
        } else {
            (
                AmbientLightSmoother { window_started_at: None },
                if average_drifts {
                    WindowStep::Adopt
                } else {
                    WindowStep::Forget
                },
            )
        }
    }

    /// A level was measured.
    pub fn observe_level(&mut self, level: LevelComparison, now: u64) -> (step: LevelStep)
        ensures
            (*final(self), step) == old(self).observed(level, now),
    {
        if level.darkens {
            self.window_started_at = None;
            return LevelStep::Adopt;
        }
        if self.has_pending_window() || level.drifts {
            self.record_sample(now);
            LevelStep::Record
        } else {
            LevelStep::Ignore
        }
    }

    /// A level is recorded; the first one opens the window.
    pub fn record_sample(&mut self, now: u64)
        ensures
            *final(self) == old(self).recording(now),
    {
        if self.window_started_at.is_none() {
            self.window_started_at = Some(now);
        }
    }

    /// When the window is over; a time beyond the clock's end is its end.
    pub fn deadline(&self) -> (r: Option<u64>)
        ensures
            match (r, self.window_started_at) {
                (Some(end), Some(at)) => end == (if at + AMBIENT_STABILITY_WINDOW_MS > u64::MAX {
                    u64::MAX as int
                } else {
                    at + AMBIENT_STABILITY_WINDOW_MS
                }),
                (None, None) => true,
                _ => false,
            },
    {
        match self.window_started_at {
            Some(at) => Some(at.saturating_add(AMBIENT_STABILITY_WINDOW_MS)),
            None => None,
        }
    }

    /// Whether levels are being recorded.
    pub fn has_pending_window(&self) -> (r: bool)
        ensures
            r == (self.window_started_at is Some),
    {
        self.window_started_at.is_some()
    }

    /// The window is over; `average_drifts` says whether the average of what was recorded differs
    /// enough from the level that counts.
    pub fn finish_window(&mut self, average_drifts: bool) -> (step: WindowStep)
        ensures
            (*final(self), step) == old(self).finished(average_drifts),
    {
        if !self.has_pending_window() {
            return WindowStep::Nothing;
        }
        self.window_started_at = None;
        if average_drifts {
            WindowStep::Adopt
        } else {
            WindowStep::Forget
        }
    }
}

/// Further levels do not put off the end of a window.
pub proof fn law_window_is_not_extended(s: AmbientLightSmoother, level: LevelComparison, now: u64)
    requires
        s.window_started_at is Some,
        !level.darkens,
    ensures
        s.observed(level, now).0 == s,
{
}

/// A level that is not dark counts only through a window.
pub proof fn law_only_darkness_counts_at_once(
    s: AmbientLightSmoother,
    level: LevelComparison,
    now: u64,
)
    ensures
        s.observed(level, now).1 == LevelStep::Adopt <==> level.darkens,
{
}

/// A level that darkens counts at once and ends a window; another one is recorded where it matters or
/// a window is open, and opens one; the rest is ignored.
pub proof fn law_levels(s: AmbientLightSmoother, level: LevelComparison, now: u64)
    ensures
        ({
            let (t, step) = s.observed(level, now);
            &&& level.darkens ==> step == LevelStep::Adopt && t.window_started_at is None
            &&& !level.darkens && s.window_started_at is Some ==> step == LevelStep::Record
                && t.window_started_at == s.window_started_at
            &&& !level.darkens && s.window_started_at is None && level.drifts ==> step
                == LevelStep::Record && t.window_started_at == Some(now)
            &&& !level.darkens && s.window_started_at is None && !level.drifts ==> step
                == LevelStep::Ignore && t == s
        }),
        s.window_started_at is None ==> s.recording(now).window_started_at == Some(now),
        s.window_started_at is Some ==> s.recording(now) == s,
        AMBIENT_STABILITY_WINDOW_MS == 20_000,
        AMBIENT_REFRESH_SECS == 5,
        AMBIENT_CLAIM_TIMEOUT_SECS == 2,
{
}

/// A window that ends is closed, and its average counts where it matters.
pub proof fn law_windows_end(s: AmbientLightSmoother, average_drifts: bool)
    ensures
        s.window_started_at is None ==> s.finished(average_drifts) == (s, WindowStep::Nothing),
        s.window_started_at is Some ==> s.finished(average_drifts).0.window_started_at is None,
        s.window_started_at is Some ==> s.finished(true).1 == WindowStep::Adopt,
        s.window_started_at is Some ==> s.finished(false).1 == WindowStep::Forget,
{
}

} // verus!
