//! The orientation of the device, without repetitions.
use vstd::prelude::*;

use crate::text::same;

verus! {

/// The desktop needs time before its displays are changed for the first time.
pub const STARTUP_DELAY_SECS: u64 = 10;

/// Passes on an orientation only when it differs from the last: applying one twice disturbs the
/// desktop while it changes its displays.
pub struct OrientationFilter {
    last_sent: String,
}

impl View for OrientationFilter {
    type V = Seq<char>;

    closed spec fn view(&self) -> Seq<char> {
        self.last_sent@
    }
}

impl OrientationFilter {
    /// Begins with the present orientation. It is passed on only if it is not the desktop's own.
    pub fn start(initial: String) -> (r: (Self, Option<String>))
        ensures
            r.0@ == initial@,
            match r.1 {
                Some(text) => initial@ != "normal"@ && text@ == initial@,
                None => initial@ == "normal"@,
            },
    {
        let send = if same(initial.as_str(), "normal") {
            None
        } else {
            Some(initial.clone())
        };
        (OrientationFilter { last_sent: initial }, send)
    }

    /// The orientation has changed, or was told again; what is to be passed on.
    pub fn on_change(&mut self, orientation: String) -> (r: Option<String>)
        ensures
            final(self)@ == orientation@,
            match r {
                Some(text) => orientation@ != old(self)@ && text@ == orientation@,
                None => orientation@ == old(self)@,
            },
    {
        if same(orientation.as_str(), self.last_sent.as_str()) {
            None
        } else {
            self.last_sent = orientation.clone();
            Some(orientation)
        }
    }
}

/// The desktop is given ten seconds before its displays are changed for the first time.
pub proof fn law_startup_delay()
    ensures
        STARTUP_DELAY_SECS == 10,
{
}

} // verus!
