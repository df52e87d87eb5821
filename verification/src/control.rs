//! The command line: commands to the running daemon, and the table of its state.
use vstd::prelude::*;

use crate::dbus_state::OperatorCommand;
use crate::text::{join3, push_char};

verus! {

// ── Commands ─────────────────────────────────────────────────────────────────

/// An internal panel.
#[derive(Clone, Copy, Debug, PartialEq, Eq, Structural)]
pub enum DesiredPrimaryArg {
    Edp1,
    Edp2,
}

impl DesiredPrimaryArg {
    pub open spec fn text(self) -> Seq<char> {
        match self {
            DesiredPrimaryArg::Edp1 => "eDP-1"@,
            DesiredPrimaryArg::Edp2 => "eDP-2"@,
        }
    }

    /// The panel's connector.
    pub fn as_str(self) -> (r: &'static str)
        ensures
            r@ == self.text(),
    {
        match self {
            DesiredPrimaryArg::Edp1 => "eDP-1",
            DesiredPrimaryArg::Edp2 => "eDP-2",
        }
    }
}

/// A mapping of the pens.
#[derive(Clone, Copy, Debug, PartialEq, Eq, Structural)]
pub enum TabletMappingModeArg {
    OneToOne,
    AllToPrimary,
}

impl TabletMappingModeArg {
    pub open spec fn text(self) -> Seq<char> {
        match self {
            TabletMappingModeArg::OneToOne => "one_to_one"@,
            TabletMappingModeArg::AllToPrimary => "all_to_primary"@,
        }
    }

    /// The mapping's name on the bus.
    pub fn as_str(self) -> (r: &'static str)
        ensures
            r@ == self.text(),
    {
        match self {
            TabletMappingModeArg::OneToOne => "one_to_one",
            TabletMappingModeArg::AllToPrimary => "all_to_primary",
        }
    }
}

/// A backlight.
#[derive(Clone, Copy, Debug, PartialEq, Eq, Structural)]
pub enum BacklightLevelArg {
    Off,
    Low,
    Medium,
    High,
}

impl BacklightLevelArg {
    pub open spec fn level(self) -> u8 {
        match self {
            BacklightLevelArg::Off => 0,
            BacklightLevelArg::Low => 1,
            BacklightLevelArg::Medium => 2,
            BacklightLevelArg::High => 3,
        }
    }

    /// The level on the bus.
    pub fn to_u8(self) -> (r: u8)
        ensures
            r == self.level(),
    {
        match self {
            BacklightLevelArg::Off => 0,
            BacklightLevelArg::Low => 1,
            BacklightLevelArg::Medium => 2,
            BacklightLevelArg::High => 3,
        }
    }
}

/// A command of the command line.
#[derive(Clone, Copy, Debug, PartialEq, Eq, Structural)]
pub enum ControlCmd {
    MicMuteLedToggle,
    MicMuteLed { on: bool },
    KeyboardBacklightToggle,
    KeyboardBacklightSet { level: BacklightLevelArg },
    DesiredPrimarySet { primary: DesiredPrimaryArg },
    TabletMappingEnable { on: bool },
    TabletMappingMode { mode: TabletMappingModeArg },
    TabletMappingModeToggle,
    TabletMappingApply,
    SecondaryDisplayToggle,
    SecondaryDisplay { on: bool },
    /// The same under the name of the property on the bus.
    DesiredSecondaryEnabled { on: bool },
}

/// The operator's command stands for the one of the command line.
pub open spec fn stands_for(op: OperatorCommand, cmd: ControlCmd) -> bool {
    match cmd {
        ControlCmd::MicMuteLedToggle => op is ToggleMicMuteLed,
        ControlCmd::MicMuteLed { on } => op == OperatorCommand::SetMicMuteLed(on),
        ControlCmd::KeyboardBacklightToggle => op is ToggleKeyboardBacklight,
        ControlCmd::KeyboardBacklightSet { level } => op
            == OperatorCommand::SetKeyboardBacklightLevel(level.level()),
        ControlCmd::DesiredPrimarySet { primary } => op matches OperatorCommand::SetDesiredPrimary(
            name,
        ) && name@ == primary.text(),
        ControlCmd::TabletMappingEnable { on } => op == OperatorCommand::SetTabletMappingEnabled(
            on,
        ),
        ControlCmd::TabletMappingMode { mode } => op matches OperatorCommand::SetTabletMappingMode(
            name,
        ) && name@ == mode.text(),
        ControlCmd::TabletMappingModeToggle => op is ToggleTabletMappingMode,
        ControlCmd::TabletMappingApply => op is ApplyTabletMapping,
        ControlCmd::SecondaryDisplayToggle => op is ToggleSecondaryDisplay,
        ControlCmd::SecondaryDisplay { on } => op == OperatorCommand::SetSecondaryDisplay(on),
        ControlCmd::DesiredSecondaryEnabled { on } => op == OperatorCommand::SetSecondaryDisplay(
            on,
        ),
    }
}

/// What is asked of the running daemon.
pub fn operator_command(cmd: ControlCmd) -> (op: OperatorCommand)
    ensures
        stands_for(op, cmd),
{
    match cmd {
        ControlCmd::MicMuteLedToggle => OperatorCommand::ToggleMicMuteLed,
        ControlCmd::MicMuteLed { on } => OperatorCommand::SetMicMuteLed(on),
        ControlCmd::KeyboardBacklightToggle => OperatorCommand::ToggleKeyboardBacklight,
        ControlCmd::KeyboardBacklightSet { level } => OperatorCommand::SetKeyboardBacklightLevel(
            level.to_u8(),
        ),
        ControlCmd::DesiredPrimarySet { primary } => OperatorCommand::SetDesiredPrimary(
            primary.as_str().to_owned(),
        ),
        ControlCmd::TabletMappingEnable { on } => OperatorCommand::SetTabletMappingEnabled(on),
        ControlCmd::TabletMappingMode { mode } => OperatorCommand::SetTabletMappingMode(
            mode.as_str().to_owned(),
        ),
        ControlCmd::TabletMappingModeToggle => OperatorCommand::ToggleTabletMappingMode,
        ControlCmd::TabletMappingApply => OperatorCommand::ApplyTabletMapping,
        ControlCmd::SecondaryDisplayToggle => OperatorCommand::ToggleSecondaryDisplay,
        ControlCmd::SecondaryDisplay { on } => OperatorCommand::SetSecondaryDisplay(on),
        ControlCmd::DesiredSecondaryEnabled { on } => OperatorCommand::SetSecondaryDisplay(on),
    }
}

/// Every command of the command line passes the daemon's validation.
pub proof fn law_command_line_is_valid(
    cmd: ControlCmd,
    op: OperatorCommand,
    s: crate::state_manager::InnerState,
    after: crate::state_manager::InnerState,
    r: Result<crate::dbus_state::OperatorOutcome, crate::dbus_state::CallError>,
)
    requires
        stands_for(op, cmd),
        crate::dbus_state::lights_done(op, s, after, r),
        crate::dbus_state::pens_done(op, s, after, r),
        crate::dbus_state::panels_done(op, s, after, r),
    ensures
        r is Ok,
{
}

// ── The table of the state ───────────────────────────────────────────────────

/// The properties in the order in which they are shown.
pub open spec fn state_keys() -> Seq<Seq<char>> {
    seq![
        "keyboard_usb_connected"@,
        "keyboard_pogo_docked"@,
        "keyboard_attached"@,
        "bluetooth_connected"@,
        "keyboard_battery_present"@,
        "keyboard_battery_percentage"@,
        "keyboard_battery_charging"@,
        "keyboard_battery_full"@,
        "mic_mute_led"@,
        "keyboard_backlight_level"@,
        "tablet_mapping_enabled"@,
        "tablet_mapping_mode"@,
        "tablet_mapping_apply_nonce"@,
        "desired_primary"@,
        "desired_secondary_enabled"@,
        "ambient_light_enabled"@,
        "desired_display_attachment"@,
        "desired_display_layout"@,
        "display_brightness"@,
        "display_apply_paused"@,
        "session_registered"@,
        "session_owner"@,
        "session_id"@,
        "session_last_seen_usec"@,
    ]
}

/// The names of the properties in the order in which they are shown.
pub fn root_state_keys() -> (r: Vec<&'static str>)
    ensures
        Seq::new(r@.len(), |i: int| r@[i]@) == state_keys(),
{
    let mut keys: Vec<&'static str> = Vec::new();
    keys.push("keyboard_usb_connected");
    keys.push("keyboard_pogo_docked");
    keys.push("keyboard_attached");
    keys.push("bluetooth_connected");
    keys.push("keyboard_battery_present");
    keys.push("keyboard_battery_percentage");
    keys.push("keyboard_battery_charging");
    keys.push("keyboard_battery_full");
    keys.push("mic_mute_led");
    keys.push("keyboard_backlight_level");
    keys.push("tablet_mapping_enabled");
    keys.push("tablet_mapping_mode");
    keys.push("tablet_mapping_apply_nonce");
    keys.push("desired_primary");
    keys.push("desired_secondary_enabled");
    keys.push("ambient_light_enabled");
    keys.push("desired_display_attachment");
    keys.push("desired_display_layout");
    keys.push("display_brightness");
    keys.push("display_apply_paused");
    keys.push("session_registered");
    keys.push("session_owner");
    keys.push("session_id");
    keys.push("session_last_seen_usec");
    proof {
        assert(Seq::new(keys@.len(), |i: int| keys@[i]@) =~= state_keys());
    }
    keys
}

/// A value as shown, or why it could not be read.
pub open spec fn shown_value(value: Result<String, String>) -> Seq<char> {
    match value {
        Ok(v) => v@,
        Err(e) => "(error: "@ + e@ + ")"@,
    }
}

/// The values that were read, each behind its name.
pub fn query_root_state_for_cli(values: Vec<Result<String, String>>) -> (rows: Vec<
    (String, String),
>)
    ensures
        rows.len() == (if values.len() < state_keys().len() {
            values.len() as int
        } else {
            state_keys().len() as int
        }),
        forall|i: int|
            0 <= i < rows.len() ==> (#[trigger] rows[i]).0@ == state_keys()[i] && rows[i].1@
                == shown_value(values[i]),
{
    let keys = root_state_keys();
    let ghost names = Seq::new(keys@.len(), |i: int| keys@[i]@);
    let mut rows: Vec<(String, String)> = Vec::new();
    let mut i: usize = 0;
    while i < values.len() && i < keys.len()
        invariant
            i <= values.len(),
            i <= keys.len(),
            names == Seq::new(keys@.len(), |j: int| keys@[j]@),
            names == state_keys(),
            rows.len() == i,
            forall|j: int|
                0 <= j < i ==> (#[trigger] rows[j]).0@ == state_keys()[j] && rows[j].1@
                    == shown_value(values[j]),
        decreases values.len() - i,
    {
        let cell = match &values[i] {
            Ok(v) => v.clone(),
            Err(e) => join3("(error: ", e.as_str(), ")"),
        };
        assert(names[i as int] == keys@[i as int]@);
        rows.push((keys[i].to_owned(), cell));
        i = i + 1;
    }
    assert(names.len() == keys.len());
    rows
}

/// The length of the longest key.
pub open spec fn widest(rows: Seq<(String, String)>) -> nat
    decreases rows.len(),
{
    if rows.len() == 0 {
        0
    } else {
        let before = widest(rows.drop_last());
        let last = rows.last().0@.len();
        if last > before {
            last
        } else {
            before
        }
    }
}

pub open spec fn spaces(n: int) -> Seq<char> {
    Seq::new(
        if n > 0 {
            n as nat
        } else {
            0
        },
        |i: int| ' ',
    )
}

/// A line of the table: the key filled up to the width, two spaces, the value.
pub open spec fn state_line(row: (String, String), width: int) -> Seq<char> {
    row.0@ + spaces(width - row.0@.len()) + "  "@ + row.1@
}

fn key_width(rows: &Vec<(String, String)>) -> (r: usize)
    ensures
        r == widest(rows@),
{
    let mut width: usize = 0;
    let mut i: usize = 0;
    while i < rows.len()
        invariant
            i <= rows.len(),
            width == widest(rows@.take(i as int)),
        decreases rows.len() - i,
    {
        let n: usize = rows[i].0.as_str().unicode_len();
        if n > width {
            width = n;
        }
        proof {
            assert(rows@.take(i + 1).drop_last() =~= rows@.take(i as int));
        }
        i = i + 1;
    }
    proof {
        assert(rows@.take(rows.len() as int) =~= rows@);
    }
    width
}

/// The table: the keys in a column as wide as the longest of them, the values beside them.
pub fn state_lines(rows: &Vec<(String, String)>) -> (lines: Vec<String>)
    ensures
        lines.len() == rows.len(),
        forall|i: int|
            0 <= i < rows.len() ==> (#[trigger] lines[i])@ == state_line(
                rows[i],
                widest(rows@) as int,
            ),
{
    let width = key_width(rows);
    let mut lines: Vec<String> = Vec::new();
    let mut i: usize = 0;
    while i < rows.len()
        invariant
            i <= rows.len(),
            width == widest(rows@),
            lines.len() == i,
            forall|j: int|
                0 <= j < i ==> (#[trigger] lines[j])@ == state_line(
                    rows[j],
                    widest(rows@) as int,
                ),
        decreases rows.len() - i,
    {
        let mut line = rows[i].0.clone();
        let len: usize = rows[i].0.as_str().unicode_len();
        let mut n: usize = len;
        proof {
            assert(rows[i as int].0@ + spaces(n - len) =~= rows[i as int].0@);
        }
        while n < width
            invariant
                len <= n,
                n <= width || n == len,
                i < rows.len(),
                line@ == rows[i as int].0@ + spaces(n - len),
            decreases width - n,
        {
            push_char(&mut line, ' ');
            proof {
                assert(line@ =~= rows[i as int].0@ + spaces(n + 1 - len));
            }
            n = n + 1;
        }
        proof {
            assert(spaces(n - len) =~= spaces(width - len));
        }
        line.append("  ");
        line.append(rows[i].1.as_str());
        lines.push(line);
        i = i + 1;
    }
    lines
}

// ── What the command line says ───────────────────────────────────────────────

/// The words and numbers of the arguments on the bus.
pub proof fn law_arguments()
    ensures
        DesiredPrimaryArg::Edp1.text() == "eDP-1"@,
        DesiredPrimaryArg::Edp2.text() == "eDP-2"@,
        TabletMappingModeArg::OneToOne.text() == "one_to_one"@,
        TabletMappingModeArg::AllToPrimary.text() == "all_to_primary"@,
        BacklightLevelArg::Off.level() == 0,
        BacklightLevelArg::Low.level() == 1,
        BacklightLevelArg::Medium.level() == 2,
        BacklightLevelArg::High.level() == 3,
{
}

/// Every command asks the daemon for what it is named after, with the value that it was given.
pub proof fn law_commands_ask_for_what_they_say(op: OperatorCommand, on: bool)
    ensures
        stands_for(op, ControlCmd::MicMuteLedToggle) ==> op is ToggleMicMuteLed,
        stands_for(op, ControlCmd::MicMuteLed { on }) ==> (op matches OperatorCommand::SetMicMuteLed(
            b,
        ) && b == on),
        stands_for(op, ControlCmd::KeyboardBacklightToggle) ==> op is ToggleKeyboardBacklight,
        stands_for(op, ControlCmd::TabletMappingEnable { on }) ==> (op
            matches OperatorCommand::SetTabletMappingEnabled(b) && b == on),
        stands_for(op, ControlCmd::TabletMappingModeToggle) ==> op is ToggleTabletMappingMode,
        stands_for(op, ControlCmd::TabletMappingApply) ==> op is ApplyTabletMapping,
        stands_for(op, ControlCmd::SecondaryDisplayToggle) ==> op is ToggleSecondaryDisplay,
        stands_for(op, ControlCmd::SecondaryDisplay { on }) ==> (op
            matches OperatorCommand::SetSecondaryDisplay(b) && b == on),
        stands_for(op, ControlCmd::DesiredSecondaryEnabled { on }) ==> (op
            matches OperatorCommand::SetSecondaryDisplay(b) && b == on),
{
}

/// A backlight, a panel and a mapping are asked for by their own number or name.
pub proof fn law_commands_name_their_value(
    op: OperatorCommand,
    level: BacklightLevelArg,
    primary: DesiredPrimaryArg,
    mode: TabletMappingModeArg,
)
    ensures
        stands_for(op, ControlCmd::KeyboardBacklightSet { level }) ==> (op
            matches OperatorCommand::SetKeyboardBacklightLevel(n) && n == (match level {
            BacklightLevelArg::Off => 0u8,
            BacklightLevelArg::Low => 1u8,
            BacklightLevelArg::Medium => 2u8,
            BacklightLevelArg::High => 3u8,
        })),
        stands_for(op, ControlCmd::DesiredPrimarySet { primary }) ==> (op
            matches OperatorCommand::SetDesiredPrimary(name) && (primary == DesiredPrimaryArg::Edp1
            ==> name@ == "eDP-1"@) && (primary == DesiredPrimaryArg::Edp2 ==> name@ == "eDP-2"@)),
        stands_for(op, ControlCmd::TabletMappingMode { mode }) ==> (op
            matches OperatorCommand::SetTabletMappingMode(name) && (mode
            == TabletMappingModeArg::OneToOne ==> name@ == "one_to_one"@) && (mode
            == TabletMappingModeArg::AllToPrimary ==> name@ == "all_to_primary"@)),
{
}

/// The twenty-four properties, in their order.
pub proof fn law_properties_in_order()
    ensures
        state_keys().len() == 24,
        state_keys()[0] == "keyboard_usb_connected"@,
        state_keys()[1] == "keyboard_pogo_docked"@,
        state_keys()[2] == "keyboard_attached"@,
        state_keys()[3] == "bluetooth_connected"@,
        state_keys()[4] == "keyboard_battery_present"@,
        state_keys()[5] == "keyboard_battery_percentage"@,
        state_keys()[6] == "keyboard_battery_charging"@,
        state_keys()[7] == "keyboard_battery_full"@,
        state_keys()[8] == "mic_mute_led"@,
        state_keys()[9] == "keyboard_backlight_level"@,
        state_keys()[10] == "tablet_mapping_enabled"@,
        state_keys()[11] == "tablet_mapping_mode"@,
        state_keys()[12] == "tablet_mapping_apply_nonce"@,
        state_keys()[13] == "desired_primary"@,
        state_keys()[14] == "desired_secondary_enabled"@,
        state_keys()[15] == "ambient_light_enabled"@,
        state_keys()[16] == "desired_display_attachment"@,
        state_keys()[17] == "desired_display_layout"@,
        state_keys()[18] == "display_brightness"@,
        state_keys()[19] == "display_apply_paused"@,
        state_keys()[20] == "session_registered"@,
        state_keys()[21] == "session_owner"@,
        state_keys()[22] == "session_id"@,
        state_keys()[23] == "session_last_seen_usec"@,
{
}

/// A value that was read is shown as it is, and a failure in brackets.
pub proof fn law_values_are_shown(value: String)
    ensures
        shown_value(Ok(value)) == value@,
        shown_value(Err(value)) == "(error: "@ + value@ + ")"@,
{
}

/// No key is longer than the widest, and one is as long.
pub proof fn law_width_is_that_of_the_longest_key(rows: Seq<(String, String)>)
    ensures
        forall|i: int| 0 <= i < rows.len() ==> (#[trigger] rows[i]).0@.len() <= widest(rows),
        rows.len() > 0 ==> exists|i: int|
            0 <= i < rows.len() && (#[trigger] rows[i]).0@.len() == widest(rows),
        rows.len() == 0 ==> widest(rows) == 0,
    decreases rows.len(),
{
    if rows.len() > 0 {
        let before = rows.drop_last();
        law_width_is_that_of_the_longest_key(before);
        assert forall|i: int| 0 <= i < rows.len() implies (#[trigger] rows[i]).0@.len()
            <= widest(rows) by {
            if i < before.len() {
                assert(before[i] == rows[i]);
            }
        }
        if rows.last().0@.len() >= widest(before) {
            assert(rows[rows.len() - 1].0@.len() == widest(rows));
        } else {
            let i = choose|i: int|
                0 <= i < before.len() && (#[trigger] before[i]).0@.len() == widest(before);
            assert(rows[i].0@.len() == widest(rows));
        }
    }
}

/// In every line of the table the value begins two columns behind the widest key, and there is
/// nothing but blanks between the key and it.
pub proof fn law_values_stand_in_one_column(row: (String, String), width: int, i: int)
    requires
        row.0@.len() <= width,
    ensures
        ({
            let line = state_line(row, width);
            &&& line.len() == width + 2 + row.1@.len()
            &&& 0 <= i < row.0@.len() ==> line[i] == row.0@[i]
            &&& row.0@.len() <= i < width + 2 ==> line[i] == ' '
            &&& width + 2 <= i < line.len() ==> line[i] == row.1@[i - width - 2]
        }),
{
    reveal_strlit("  ");
}

} // verus!
