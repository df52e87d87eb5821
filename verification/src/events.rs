//! Events that the tasks of the root daemon tell each other.
use vstd::prelude::*;

use crate::state::KeyboardBacklightState;

verus! {

#[derive(Debug, Clone, Copy, PartialEq, Eq, Structural)]
pub enum Event {
    MicMuteLed(bool),
    Backlight(KeyboardBacklightState),
    SecondaryDisplay(bool),
    /// The keyboard was put on the contacts of the bottom panel, or taken off them.
    KeyboardPogoDocked(bool),
}

} // verus!
