//! Commands that arrive as lines on a named pipe.
use vstd::prelude::*;

use crate::events::Event;
use crate::state::{DisplayStateChange, KeyboardBacklightState};
use crate::state_manager::{
    InnerState, KeyboardStateManager, LightState, SecondaryState, StateEffect,
};
use crate::text::same;

verus! {

/// The group whose members may write to the pipe.
pub const DAEMON_GROUP: &'static str = "zenbook-duo";

#[derive(Clone, Copy, Debug, PartialEq, Eq, Structural)]
pub enum PipeCommand {
    SuspendStart,
    SuspendEnd,
    MicMuteLedToggle,
    MicMuteLed(bool),
    BacklightToggle,
    Backlight(KeyboardBacklightState),
    SecondaryDisplayToggle,
    SecondaryDisplay(bool),
}

/// The command that a line stands for.
pub open spec fn command_named(name: Seq<char>) -> Option<PipeCommand> {
    if name == "suspend_start"@ {
        Some(PipeCommand::SuspendStart)
    } else if name == "suspend_end"@ {
        Some(PipeCommand::SuspendEnd)
    } else if name == "mic_mute_led_toggle"@ {
        Some(PipeCommand::MicMuteLedToggle)
    } else if name == "mic_mute_led_on"@ {
        Some(PipeCommand::MicMuteLed(true))
    } else if name == "mic_mute_led_off"@ {
        Some(PipeCommand::MicMuteLed(false))
    } else if name == "backlight_toggle"@ {
        Some(PipeCommand::BacklightToggle)
    } else if name == "backlight_off"@ {
        Some(PipeCommand::Backlight(KeyboardBacklightState::Off))
    } else if name == "backlight_low"@ {
        Some(PipeCommand::Backlight(KeyboardBacklightState::Low))
    } else if name == "backlight_medium"@ {
        Some(PipeCommand::Backlight(KeyboardBacklightState::Medium))
    } else if name == "backlight_high"@ {
        Some(PipeCommand::Backlight(KeyboardBacklightState::High))
    } else if name == "secondary_display_toggle"@ {
        Some(PipeCommand::SecondaryDisplayToggle)
    } else if name == "secondary_display_on"@ {
        Some(PipeCommand::SecondaryDisplay(true))
    } else if name == "secondary_display_off"@ {
        Some(PipeCommand::SecondaryDisplay(false))
    } else {
        None
    }
}

/// A line without whitespace at its end.
pub open spec fn line_command(line: Seq<char>) -> Seq<char> {
    crate::text::trim_back(line, |c: char| crate::text::whitespace(c))
}

/// Reads a line of the pipe; an unknown command is none.
pub fn parse_pipe_command(line: &str) -> (r: Option<PipeCommand>)
    ensures
        r == command_named(line_command(line@)),
{
    let name = crate::text::trim_end(line);
    let n = name.as_str();
    if same(n, "suspend_start") {
        Some(PipeCommand::SuspendStart)
    } else if same(n, "suspend_end") {
        Some(PipeCommand::SuspendEnd)
    } else if same(n, "mic_mute_led_toggle") {
        Some(PipeCommand::MicMuteLedToggle)
    } else if same(n, "mic_mute_led_on") {
        Some(PipeCommand::MicMuteLed(true))
    } else if same(n, "mic_mute_led_off") {
        Some(PipeCommand::MicMuteLed(false))
    } else if same(n, "backlight_toggle") {
        Some(PipeCommand::BacklightToggle)
    } else if same(n, "backlight_off") {
        Some(PipeCommand::Backlight(KeyboardBacklightState::Off))
    } else if same(n, "backlight_low") {
        Some(PipeCommand::Backlight(KeyboardBacklightState::Low))
    } else if same(n, "backlight_medium") {
        Some(PipeCommand::Backlight(KeyboardBacklightState::Medium))
    } else if same(n, "backlight_high") {
        Some(PipeCommand::Backlight(KeyboardBacklightState::High))
    } else if same(n, "secondary_display_toggle") {
        Some(PipeCommand::SecondaryDisplayToggle)
    } else if same(n, "secondary_display_on") {
        Some(PipeCommand::SecondaryDisplay(true))
    } else if same(n, "secondary_display_off") {
        Some(PipeCommand::SecondaryDisplay(false))
    } else {
        None
    }
}

/// What a read of the pipe leads to.
#[derive(Clone, Copy, Debug, PartialEq, Eq, Structural)]
pub enum PipeStep {
    /// All writers are gone: open the pipe again.
    Reopen,
    Run(PipeCommand),
    /// The command is unknown.
    Ignore,
    /// Reading failed: make the pipe anew.
    Recreate,
}

/// Takes a read of the pipe: `Ok` with the number of bytes and the line, or an error.
pub fn start_receive_commands_task(read: Result<(usize, String), ()>) -> (r: PipeStep)
    ensures
        r == (match read {
            Ok((n, line)) => if n == 0 {
                PipeStep::Reopen
            } else {
                match command_named(line_command(line@)) {
                    Some(c) => PipeStep::Run(c),
                    None => PipeStep::Ignore,
                }
            },
            Err(_) => PipeStep::Recreate,
        }),
{
    match read {
        Ok((n, line)) => if n == 0 {
            PipeStep::Reopen
        } else {
            match parse_pipe_command(line.as_str()) {
                Some(c) => PipeStep::Run(c),
                None => PipeStep::Ignore,
            }
        },
        Err(_) => PipeStep::Recreate,
    }
}

/// What is to be done beside the effects of a command.
#[derive(Clone, Copy, Debug, PartialEq, Eq, Structural)]
pub enum PipeFollowUp {
    Nothing,
    /// The machine has woken up: count it as activity, and look for the keyboard again.
    WakeUp,
    /// Tell the session whether the lower panel is wanted.
    TellSession,
}

/// The state in which the machine sleeps or is awake.
pub open spec fn sleeping(s: InnerState, is_suspended: bool) -> InnerState {
    InnerState { light: (LightState { is_suspended, ..s.light }), ..s }
}

/// The lower panel is wanted or not: stored, and told to the other tasks.
pub open spec fn panel_wanted(s: InnerState, enabled: bool) -> (
    InnerState,
    Seq<StateEffect>,
    PipeFollowUp,
) {
    let secondary = SecondaryState::wanted(enabled, s.link.is_pogo_docked);
    (
        InnerState { secondary, ..s },
        seq![
            StateEffect::StoreDisplay(DisplayStateChange::SecondaryEnabled(enabled)),
            StateEffect::Emit(Event::SecondaryDisplay(secondary.is_secondary_display_enabled)),
        ],
        PipeFollowUp::TellSession,
    )
}

/// What a command does to the state, its effects in order, and what else it leads to.
pub open spec fn command_done(s: InnerState, command: PipeCommand) -> (
    InnerState,
    Seq<StateEffect>,
    PipeFollowUp,
) {
    match command {
        PipeCommand::SuspendStart => (
            sleeping(s, true),
            seq![StateEffect::Emit(Event::MicMuteLed(false))] + crate::state_manager::light_told(
                s.light,
                sleeping(s, true).light,
            ),
            PipeFollowUp::Nothing,
        ),
        PipeCommand::SuspendEnd => (
            sleeping(s, false),
            seq![StateEffect::Emit(Event::MicMuteLed(s.mic_mute_led))]
                + crate::state_manager::light_told(s.light, sleeping(s, false).light),
            PipeFollowUp::WakeUp,
        ),
        PipeCommand::MicMuteLedToggle => (
            InnerState { mic_mute_led: !s.mic_mute_led, ..s },
            crate::state_manager::mic_led_told(s, !s.mic_mute_led),
            PipeFollowUp::Nothing,
        ),
        PipeCommand::MicMuteLed(on) => (
            InnerState { mic_mute_led: on, ..s },
            crate::state_manager::mic_led_told(s, on),
            PipeFollowUp::Nothing,
        ),
        PipeCommand::BacklightToggle => (
            InnerState {
                light: (LightState { backlight: s.light.backlight.successor(), ..s.light }),
                ..s
            },
            crate::state_manager::backlight_requested(s.light, s.light.backlight.successor()),
            PipeFollowUp::Nothing,
        ),
        PipeCommand::Backlight(backlight) => (
            InnerState { light: (LightState { backlight, ..s.light }), ..s },
            crate::state_manager::backlight_requested(s.light, backlight),
            PipeFollowUp::Nothing,
        ),
        PipeCommand::SecondaryDisplayToggle => panel_wanted(
            s,
            !s.secondary.desired_secondary_display_enabled,
        ),
        PipeCommand::SecondaryDisplay(enabled) => panel_wanted(s, enabled),
    }
}

fn want_panel(manager: &mut KeyboardStateManager, enabled: bool) -> (r: (
    Vec<StateEffect>,
    PipeFollowUp,
))
    requires
        old(manager)@.well_formed(),
    ensures
        (final(manager)@, r.0@, r.1) == panel_wanted(old(manager)@, enabled),
        final(manager)@.well_formed(),
{
    let mut effects = manager.set_secondary_display_tracked(enabled);
    effects.push(manager.emit_secondary_display_state());
    proof {
        assert(effects@ =~= panel_wanted(old(manager)@, enabled).1);
    }
    (effects, PipeFollowUp::TellSession)
}

/// Carries out a command of the pipe.
pub fn run_pipe_command(manager: &mut KeyboardStateManager, command: PipeCommand) -> (r: (
    Vec<StateEffect>,
    PipeFollowUp,
))
    requires
        old(manager)@.well_formed(),
    ensures
        (final(manager)@, r.0@, r.1) == command_done(old(manager)@, command),
        final(manager)@.well_formed(),
{
    match command {
        PipeCommand::SuspendStart => (manager.suspend_start(), PipeFollowUp::Nothing),
        PipeCommand::SuspendEnd => (manager.suspend_end(), PipeFollowUp::WakeUp),
        PipeCommand::MicMuteLedToggle => (manager.toggle_mic_mute_led(), PipeFollowUp::Nothing),
        PipeCommand::MicMuteLed(on) => (manager.set_mic_mute_led(on), PipeFollowUp::Nothing),
        PipeCommand::BacklightToggle => (
            manager.toggle_keyboard_backlight(),
            PipeFollowUp::Nothing,
        ),
        PipeCommand::Backlight(backlight) => (
            manager.set_keyboard_backlight(backlight),
            PipeFollowUp::Nothing,
        ),
        PipeCommand::SecondaryDisplayToggle => {
            let wanted = manager.is_secondary_display_desired_enabled();
            want_panel(manager, !wanted)
        },
        PipeCommand::SecondaryDisplay(enabled) => want_panel(manager, enabled),
    }
}

/// After waking up, the connection to report if it is not the one that was reported.
pub fn resync_after_resume(found: bool, reported: bool) -> (r: Option<bool>)
    ensures
        r == (if found != reported {
            Some(found)
        } else {
            None
        }),
{
    if found != reported {
        Some(found)
    } else {
        None
    }
}

// ── What the lines of the pipe do ────────────────────────────────────────────

/// Each command has one name, and nothing else is a command.
pub proof fn law_pipe_commands_by_name(name: Seq<char>)
    ensures
        command_named(name) == Some(PipeCommand::SuspendStart) <==> name == "suspend_start"@,
        command_named(name) == Some(PipeCommand::SuspendEnd) <==> name == "suspend_end"@,
        command_named(name) == Some(PipeCommand::MicMuteLedToggle) <==> name
            == "mic_mute_led_toggle"@,
        command_named(name) == Some(PipeCommand::MicMuteLed(true)) <==> name == "mic_mute_led_on"@,
        command_named(name) == Some(PipeCommand::MicMuteLed(false)) <==> name
            == "mic_mute_led_off"@,
        command_named(name) == Some(PipeCommand::BacklightToggle) <==> name == "backlight_toggle"@,
        command_named(name) == Some(PipeCommand::Backlight(KeyboardBacklightState::Off)) <==> name
            == "backlight_off"@,
        command_named(name) == Some(PipeCommand::Backlight(KeyboardBacklightState::Low)) <==> name
            == "backlight_low"@,
        command_named(name) == Some(PipeCommand::Backlight(KeyboardBacklightState::Medium))
            <==> name == "backlight_medium"@,
        command_named(name) == Some(PipeCommand::Backlight(KeyboardBacklightState::High)) <==> name
            == "backlight_high"@,
        command_named(name) == Some(PipeCommand::SecondaryDisplayToggle) <==> name
            == "secondary_display_toggle"@,
        command_named(name) == Some(PipeCommand::SecondaryDisplay(true)) <==> name
            == "secondary_display_on"@,
        command_named(name) == Some(PipeCommand::SecondaryDisplay(false)) <==> name
            == "secondary_display_off"@,
        DAEMON_GROUP@ == "zenbook-duo"@,
{
    reveal_strlit("suspend_start");
    reveal_strlit("suspend_end");
    reveal_strlit("mic_mute_led_toggle");
    reveal_strlit("mic_mute_led_on");
    reveal_strlit("mic_mute_led_off");
    reveal_strlit("backlight_toggle");
    reveal_strlit("backlight_off");
    reveal_strlit("backlight_low");
    reveal_strlit("backlight_medium");
    reveal_strlit("backlight_high");
    reveal_strlit("secondary_display_toggle");
    reveal_strlit("secondary_display_on");
    reveal_strlit("secondary_display_off");
    assert("suspend_start"@[0] == 's');
    assert("backlight_off"@[0] == 'b');
    assert("backlight_low"@[0] == 'b');
    assert("backlight_off"@[10] == 'o');
    assert("backlight_low"@[10] == 'l');
    assert("mic_mute_led_off"@[0] == 'm');
    assert("backlight_toggle"@[0] == 'b');
    assert("backlight_medium"@[0] == 'b');
    assert("backlight_toggle"@[10] == 't');
    assert("backlight_medium"@[10] == 'm');
    assert("suspend_start"@.len() == 13 && "suspend_end"@.len() == 11
        && "mic_mute_led_toggle"@.len() == 19 && "mic_mute_led_on"@.len() == 15
        && "mic_mute_led_off"@.len() == 16 && "backlight_toggle"@.len() == 16
        && "backlight_off"@.len() == 13 && "backlight_low"@.len() == 13
        && "backlight_medium"@.len() == 16 && "backlight_high"@.len() == 14
        && "secondary_display_toggle"@.len() == 24 && "secondary_display_on"@.len() == 20
        && "secondary_display_off"@.len() == 21);
}

/// The command of a line is the line up to the whitespace at its end.
pub proof fn law_line_ends_are_dropped(line: Seq<char>) -> (k: int)
    ensures
        0 <= k <= line.len(),
        line_command(line) == line.take(k),
        forall|i: int| k <= i < line.len() ==> crate::text::whitespace(#[trigger] line[i]),
        k > 0 ==> !crate::text::whitespace(line[k - 1]),
{
    let p = |c: char| crate::text::whitespace(c);
    let k = crate::text::lemma_trim_back(line, p);
    assert forall|i: int| k <= i < line.len() implies crate::text::whitespace(
        #[trigger] line[i],
    ) by {
        assert(p(line[i]));
    }
    k
}

/// Going to sleep turns backlight and microphone LED off, and waking up restores both as they were
/// asked for, and counts as activity; nothing else changes.
pub proof fn law_sleep_and_wake(s: InnerState)
    ensures
        ({
            let (t, effects, follow_up) = command_done(s, PipeCommand::SuspendStart);
            &&& t.light.is_suspended
            &&& t.light.effective() == KeyboardBacklightState::Off
            &&& t.light.backlight == s.light.backlight
            &&& t.mic_mute_led == s.mic_mute_led && t.link == s.link && t.secondary == s.secondary
            &&& effects.len() > 0 && effects[0] == StateEffect::Emit(Event::MicMuteLed(false))
            &&& s.light.effective() != KeyboardBacklightState::Off ==> effects.contains(
                StateEffect::Emit(Event::Backlight(KeyboardBacklightState::Off)),
            )
            &&& follow_up == PipeFollowUp::Nothing
        }),
        ({
            let (t, effects, follow_up) = command_done(s, PipeCommand::SuspendEnd);
            &&& !t.light.is_suspended
            &&& t.light.backlight == s.light.backlight
            &&& t.mic_mute_led == s.mic_mute_led && t.link == s.link && t.secondary == s.secondary
            &&& effects.len() > 0 && effects[0] == StateEffect::Emit(
                Event::MicMuteLed(s.mic_mute_led),
            )
            &&& s.light.effective() != t.light.effective() ==> effects.contains(
                StateEffect::Emit(Event::Backlight(t.light.effective())),
            )
            &&& follow_up == PipeFollowUp::WakeUp
        }),
{
    let asleep = sleeping(s, true);
    let awake = sleeping(s, false);
    crate::state_manager::law_shown_backlight_reaches_the_keyboard(s.light, asleep.light);
    crate::state_manager::law_shown_backlight_reaches_the_keyboard(s.light, awake.light);
    crate::seqs::lemma_concat_contains(
        seq![StateEffect::Emit(Event::MicMuteLed(false))],
        crate::state_manager::light_told(s.light, asleep.light),
        StateEffect::Emit(Event::Backlight(KeyboardBacklightState::Off)),
    );
    crate::seqs::lemma_concat_contains(
        seq![StateEffect::Emit(Event::MicMuteLed(s.mic_mute_led))],
        crate::state_manager::light_told(s.light, awake.light),
        StateEffect::Emit(Event::Backlight(awake.light.effective())),
    );
}

/// A command on a light sets it as named, or to the next or the opposite state, and has the keyboard
/// told.
pub proof fn law_pipe_sets_the_lights(
    s: InnerState,
    on: bool,
    backlight: KeyboardBacklightState,
)
    ensures
        ({
            let (t, effects, follow_up) = command_done(s, PipeCommand::MicMuteLed(on));
            t.mic_mute_led == on && t.light == s.light && follow_up == PipeFollowUp::Nothing && (
            !s.light.is_suspended ==> effects.contains(StateEffect::Emit(Event::MicMuteLed(on))))
        }),
        ({
            let (t, effects, follow_up) = command_done(s, PipeCommand::MicMuteLedToggle);
            t.mic_mute_led == !s.mic_mute_led && t.light == s.light && follow_up
                == PipeFollowUp::Nothing && (!s.light.is_suspended ==> effects.contains(
                StateEffect::Emit(Event::MicMuteLed(!s.mic_mute_led)),
            ))
        }),
        ({
            let (t, effects, follow_up) = command_done(s, PipeCommand::Backlight(backlight));
            t.light.backlight == backlight && t.mic_mute_led == s.mic_mute_led && follow_up
                == PipeFollowUp::Nothing && effects.contains(StateEffect::StoreBacklight(backlight))
                && (s.light.effective() != t.light.effective() ==> effects.contains(
                StateEffect::Emit(Event::Backlight(t.light.effective())),
            ))
        }),
        ({
            let (t, effects, follow_up) = command_done(s, PipeCommand::BacklightToggle);
            t.light.backlight.rank() == (s.light.backlight.rank() + 1) % 4 && follow_up
                == PipeFollowUp::Nothing && effects.contains(
                StateEffect::StoreBacklight(t.light.backlight),
            ) && effects.contains(StateEffect::Emit(Event::Backlight(t.light.effective())))
        }),
{
    crate::state_manager::law_microphone_led_reaches_the_keyboard(s, on);
    crate::state_manager::law_microphone_led_reaches_the_keyboard(s, !s.mic_mute_led);
    crate::state_manager::law_backlight_request_reaches_the_keyboard(s.light, backlight);
    crate::state_manager::law_backlight_request_reaches_the_keyboard(
        s.light,
        s.light.backlight.successor(),
    );
}

/// A command on the lower panel sets whether it is wanted, as named or to the opposite; that is
/// stored, what the panel is then is told, and the session is told too.
pub proof fn law_pipe_sets_the_lower_panel(s: InnerState, enabled: bool)
    ensures
        ({
            let (t, effects, follow_up) = command_done(s, PipeCommand::SecondaryDisplay(enabled));
            &&& t.secondary.desired_secondary_display_enabled == enabled
            &&& t.secondary.is_secondary_display_enabled == (enabled && !s.link.is_pogo_docked)
            &&& effects =~= seq![
                StateEffect::StoreDisplay(DisplayStateChange::SecondaryEnabled(enabled)),
                StateEffect::Emit(Event::SecondaryDisplay(enabled && !s.link.is_pogo_docked)),
            ]
            &&& follow_up == PipeFollowUp::TellSession
            &&& t.link == s.link && t.light == s.light
        }),
        command_done(s, PipeCommand::SecondaryDisplayToggle) == command_done(
            s,
            PipeCommand::SecondaryDisplay(!s.secondary.desired_secondary_display_enabled),
        ),
{
}

} // verus!
