//! What the root daemon does when the lower panel is wanted or no longer wanted, and when the
//! keyboard is put on the dock or taken off it.
use vstd::prelude::*;

verus! {

pub const COORDINATION_PAUSE_SECS: u64 = 4;

pub const SYSFS_WAIT_SECS: u64 = 8;

pub const SECONDARY_ACK_SECS: u64 = 8;

pub const DOCK_ACK_SECS: u64 = 5;

pub const DELAYED_OFF_MS: u64 = 600;

#[derive(Clone, Copy, Debug, PartialEq, Eq, Structural)]
pub enum CoordinatorAction {
    PauseBrightnessSync { secs: u64 },
    /// Remember and store that the panel is wanted or not.
    StoreDesired(bool),
    ArmFallback,
    /// Tell the other tasks whether the panel is on.
    EmitState,
    /// Wait until the panel is on; a timeout changes nothing.
    AwaitSwitchOn { secs: u64 },
    /// Turn the switch on if it is not.
    EnsureSwitchOn,
    /// Tell the session and wait for its acknowledgement.
    NotifySecondaryAndWait { secs: u64 },
    /// Tell the session.
    NotifySecondary,
    NotifyDockAndWait { docked: bool, secs: u64 },
    /// Look again after a while whether the panel is still not wanted.
    CheckLater { ms: u64 },
}

/// The first actions after the panel's desire was set to `enable`; `was` is what it was before,
/// `docked` says that the keyboard covers the panel.
pub open spec fn coordination(was: bool, enable: bool, docked: bool) -> Seq<CoordinatorAction> {
    if was == enable {
        Seq::empty()
    } else {
        seq![
            CoordinatorAction::PauseBrightnessSync { secs: COORDINATION_PAUSE_SECS },
            CoordinatorAction::StoreDesired(enable),
        ] + (if enable && !docked {
            seq![
                CoordinatorAction::ArmFallback,
                CoordinatorAction::EmitState,
                CoordinatorAction::AwaitSwitchOn { secs: SYSFS_WAIT_SECS },
            ]
        } else {
            Seq::empty()
        }) + (if enable {
            seq![CoordinatorAction::NotifySecondaryAndWait { secs: SECONDARY_ACK_SECS }]
        } else {
            seq![CoordinatorAction::NotifySecondary]
        })
    }
}

/// Sets the panel's desire: nothing if it is so already; else the change is stored, the panel is
/// turned on first if it is to be on, and the session is told.
pub fn coordinate_secondary_display_to_state(was: bool, enable: bool, docked: bool) -> (r: Vec<
    CoordinatorAction,
>)
    ensures
        r@ == coordination(was, enable, docked),
{
    let mut actions: Vec<CoordinatorAction> = Vec::new();
    if was == enable {
        return actions;
    }
    actions.push(CoordinatorAction::PauseBrightnessSync { secs: COORDINATION_PAUSE_SECS });
    actions.push(CoordinatorAction::StoreDesired(enable));
    if enable {
        if !docked {
            actions.push(CoordinatorAction::ArmFallback);
            actions.push(CoordinatorAction::EmitState);
            actions.push(CoordinatorAction::AwaitSwitchOn { secs: SYSFS_WAIT_SECS });
        }
        actions.push(CoordinatorAction::NotifySecondaryAndWait { secs: SECONDARY_ACK_SECS });
    } else {
        actions.push(CoordinatorAction::NotifySecondary);
    }
    proof {
        assert(actions@ =~= coordination(was, enable, docked));
    }
    actions
}

/// Sets the panel's desire to the opposite.
pub fn coordinate_secondary_display_toggle(was: bool, docked: bool) -> (r: Vec<CoordinatorAction>)
    ensures
        r@ == coordination(was, !was, docked),
{
    coordinate_secondary_display_to_state(was, !was, docked)
}

/// What follows the session's answer: without a session that acknowledges, the switch is written
/// directly. Off is left to the session if there is one, and otherwise done after a while.
pub open spec fn after_notification(enable: bool, registered: bool, acked: bool) -> Seq<
    CoordinatorAction,
> {
    if enable {
        if registered && acked {
            Seq::empty()
        } else {
            seq![CoordinatorAction::ArmFallback, CoordinatorAction::EmitState]
        }
    } else if registered {
        Seq::empty()
    } else {
        seq![CoordinatorAction::CheckLater { ms: DELAYED_OFF_MS }]
    }
}

/// Takes the session's answer to the news about the panel.
pub fn on_secondary_notified(enable: bool, registered: bool, acked: bool) -> (r: Vec<
    CoordinatorAction,
>)
    ensures
        r@ == after_notification(enable, registered, acked),
{
    let mut actions: Vec<CoordinatorAction> = Vec::new();
    if enable {
        if !(registered && acked) {
            actions.push(CoordinatorAction::ArmFallback);
            actions.push(CoordinatorAction::EmitState);
        }
    } else if !registered {
        actions.push(CoordinatorAction::CheckLater { ms: DELAYED_OFF_MS });
    }
    proof {
        assert(actions@ =~= after_notification(enable, registered, acked));
    }
    actions
}

/// The delayed look: the switch is turned off unless the panel is wanted again.
pub fn on_delayed_check(desired: bool) -> (r: Vec<CoordinatorAction>)
    ensures
        r@ == (if desired {
            Seq::empty()
        } else {
            seq![CoordinatorAction::ArmFallback, CoordinatorAction::EmitState]
        }),
{
    let mut actions: Vec<CoordinatorAction> = Vec::new();
    if !desired {
        actions.push(CoordinatorAction::ArmFallback);
        actions.push(CoordinatorAction::EmitState);
    }
    proof {
        if !desired {
            assert(actions@ =~= seq![CoordinatorAction::ArmFallback, CoordinatorAction::EmitState]);
        }
    }
    actions
}

pub open spec fn dock_actions(docked: bool) -> Seq<CoordinatorAction> {
    seq![CoordinatorAction::PauseBrightnessSync { secs: COORDINATION_PAUSE_SECS }] + (if docked {
        Seq::empty()
    } else {
        seq![CoordinatorAction::EnsureSwitchOn]
    }) + seq![CoordinatorAction::NotifyDockAndWait { docked, secs: DOCK_ACK_SECS }]
}

/// The keyboard was put on the dock or taken off it. The panel is switched on before the session
/// is told that it is free.
pub fn on_keyboard_docked(docked: bool) -> (r: Vec<CoordinatorAction>)
    ensures
        r@ == dock_actions(docked),
{
    let mut actions: Vec<CoordinatorAction> = Vec::new();
    actions.push(CoordinatorAction::PauseBrightnessSync { secs: COORDINATION_PAUSE_SECS });
    if !docked {
        actions.push(CoordinatorAction::EnsureSwitchOn);
    }
    actions.push(CoordinatorAction::NotifyDockAndWait { docked, secs: DOCK_ACK_SECS });
    proof {
        assert(actions@ =~= dock_actions(docked));
    }
    actions
}

/// Takes the session's answer to the news about the dock: without an acknowledgement the switch is
/// written directly.
pub fn on_dock_notified(registered: bool, acked: bool) -> (r: Vec<CoordinatorAction>)
    ensures
        r@ == (if registered && acked {
            Seq::empty()
        } else {
            seq![CoordinatorAction::ArmFallback, CoordinatorAction::EmitState]
        }),
{
    let mut actions: Vec<CoordinatorAction> = Vec::new();
    if !(registered && acked) {
        actions.push(CoordinatorAction::ArmFallback);
        actions.push(CoordinatorAction::EmitState);
    }
    proof {
        if !(registered && acked) {
            assert(actions@ =~= seq![CoordinatorAction::ArmFallback, CoordinatorAction::EmitState]);
        }
    }
    actions
}

/// A panel that is already as wanted causes nothing; otherwise the change is stored before the
/// session is told, and the session is told last.
pub proof fn law_desire_is_stored_before_it_is_told(was: bool, enable: bool, docked: bool)
    ensures
        was == enable ==> coordination(was, enable, docked).len() == 0,
        was != enable ==> ({
            let actions = coordination(was, enable, docked);
            &&& actions[1] == CoordinatorAction::StoreDesired(enable)
            &&& actions.len() > 2
            &&& actions.last() is NotifySecondaryAndWait || actions.last() is NotifySecondary
        }),
{
}

/// Off is written directly only where no session is registered.
pub proof fn law_session_decides_power_off(acked: bool)
    ensures
        after_notification(false, true, acked) == Seq::<CoordinatorAction>::empty(),
{
}

// ── What the coordination consists of ────────────────────────────────────────

/// A panel that becomes wanted and is not covered is switched on and waited for, eight seconds at
/// most, before the session is told and its answer waited for as long.
pub proof fn law_panel_is_on_before_the_session_is_told()
    ensures
        coordination(false, true, false) =~= seq![
            CoordinatorAction::PauseBrightnessSync { secs: 4 },
            CoordinatorAction::StoreDesired(true),
            CoordinatorAction::ArmFallback,
            CoordinatorAction::EmitState,
            CoordinatorAction::AwaitSwitchOn { secs: 8 },
            CoordinatorAction::NotifySecondaryAndWait { secs: 8 },
        ],
{
}

/// A panel that becomes wanted while it is covered is left alone, and one that is no longer wanted is
/// left to the session, whose answer is not waited for.
pub proof fn law_covered_panel_is_left_alone(docked: bool)
    ensures
        coordination(false, true, true) =~= seq![
            CoordinatorAction::PauseBrightnessSync { secs: 4 },
            CoordinatorAction::StoreDesired(true),
            CoordinatorAction::NotifySecondaryAndWait { secs: 8 },
        ],
        coordination(true, false, docked) =~= seq![
            CoordinatorAction::PauseBrightnessSync { secs: 4 },
            CoordinatorAction::StoreDesired(false),
            CoordinatorAction::NotifySecondary,
        ],
        coordination(true, true, docked).len() == 0,
        coordination(false, false, docked).len() == 0,
{
}

/// On is written directly unless a session has acknowledged it; off is looked at again after 600
/// milliseconds where no session is registered.
pub proof fn law_switch_is_written_without_a_session(registered: bool, acked: bool)
    ensures
        registered && acked ==> after_notification(true, registered, acked).len() == 0,
        !registered || !acked ==> after_notification(true, registered, acked) =~= seq![
            CoordinatorAction::ArmFallback,
            CoordinatorAction::EmitState,
        ],
        registered ==> after_notification(false, registered, acked).len() == 0,
        !registered ==> after_notification(false, registered, acked) =~= seq![
            CoordinatorAction::CheckLater { ms: 600 },
        ],
{
}

/// Brightness is held back for four seconds when the keyboard is put on the dock or taken off it;
/// the panel is switched on when it is taken off; and the session is told last.
pub proof fn law_dock_is_told_last()
    ensures
        dock_actions(true) =~= seq![
            CoordinatorAction::PauseBrightnessSync { secs: 4 },
            CoordinatorAction::NotifyDockAndWait { docked: true, secs: 5 },
        ],
        dock_actions(false) =~= seq![
            CoordinatorAction::PauseBrightnessSync { secs: 4 },
            CoordinatorAction::EnsureSwitchOn,
            CoordinatorAction::NotifyDockAndWait { docked: false, secs: 5 },
        ],
{
}

} // verus!
