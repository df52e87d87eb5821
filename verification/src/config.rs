//! Settings of the daemon and what its special keys do.
use vstd::prelude::*;

use crate::text::same;

verus! {

// ── Pen mapping ──────────────────────────────────────────────────────────────

/// How the pens of the two panels are mapped to outputs.
#[derive(Clone, Copy, Debug, PartialEq, Eq, Structural)]
pub enum TabletMapMode {
    /// Each pen to its own panel.
    OneToOne,
    /// Both pens to the primary panel.
    AllToPrimary,
}

#[derive(Clone, Copy, Debug, PartialEq, Eq, Structural)]
pub struct TabletMappingConfig {
    pub enable: bool,
    pub mode: TabletMapMode,
}

pub open spec fn mode_text(mode: TabletMapMode) -> Seq<char> {
    match mode {
        TabletMapMode::OneToOne => "one_to_one"@,
        TabletMapMode::AllToPrimary => "all_to_primary"@,
    }
}

/// The mode that a name stands for.
pub open spec fn mode_named(name: Seq<char>) -> Option<TabletMapMode> {
    if name == mode_text(TabletMapMode::OneToOne) {
        Some(TabletMapMode::OneToOne)
    } else if name == mode_text(TabletMapMode::AllToPrimary) {
        Some(TabletMapMode::AllToPrimary)
    } else {
        None
    }
}

/// The name of a mode.
pub fn tablet_mode_to_str(mode: TabletMapMode) -> (r: &'static str)
    ensures
        r@ == mode_text(mode),
{
    match mode {
        TabletMapMode::OneToOne => "one_to_one",
        TabletMapMode::AllToPrimary => "all_to_primary",
    }
}

/// Reads the name of a mode.
pub fn tablet_mode_from_str(name: &str) -> (r: Result<TabletMapMode, String>)
    ensures
        match r {
            Ok(mode) => mode_named(name@) == Some(mode),
            Err(text) => mode_named(name@) is None && text@
                == "tablet mapping mode must be one_to_one or all_to_primary, got "@ + name@,
        },
{
    if same(name, "one_to_one") {
        Ok(TabletMapMode::OneToOne)
    } else if same(name, "all_to_primary") {
        Ok(TabletMapMode::AllToPrimary)
    } else {
        Err(
            crate::text::join2(
                "tablet mapping mode must be one_to_one or all_to_primary, got ",
                name,
            ),
        )
    }
}

/// Reading the name of a mode gives the mode back.
pub proof fn law_mode_name_round_trip(mode: TabletMapMode)
    ensures
        mode_named(mode_text(mode)) == Some(mode),
{
    reveal_strlit("one_to_one");
    reveal_strlit("all_to_primary");
    assert("one_to_one"@.len() != "all_to_primary"@.len());
}

/// Hub ports on which the keyboard counts as docked.
pub struct UsbKeyboardPortsConfig {
    pub pogo_dock_hub_ports: Vec<String>,
}

// ── Special keys ─────────────────────────────────────────────────────────────

/// A key of the keyboard's top row that reports on the vendor channel.
#[derive(Clone, Copy, Debug, PartialEq, Eq, Structural)]
pub enum SpecialKey {
    /// Fn+F4.
    KeyboardBacklight,
    /// Fn+F5.
    BrightnessDown,
    /// Fn+F6.
    BrightnessUp,
    /// Fn+F8.
    SwapUpDownDisplay,
    /// Fn+F9.
    MicrophoneMute,
    /// Fn+F11.
    EmojiPicker,
    /// Fn+F12.
    MyAsus,
    /// The key to the right of F12.
    ToggleSecondaryDisplay,
}

/// The key that a code on the vendor channel stands for. Both USB and Bluetooth use these codes.
pub open spec fn key_of_code(code: int) -> Option<SpecialKey> {
    if code == 199 {
        Some(SpecialKey::KeyboardBacklight)
    } else if code == 16 {
        Some(SpecialKey::BrightnessDown)
    } else if code == 32 {
        Some(SpecialKey::BrightnessUp)
    } else if code == 156 {
        Some(SpecialKey::SwapUpDownDisplay)
    } else if code == 124 {
        Some(SpecialKey::MicrophoneMute)
    } else if code == 126 {
        Some(SpecialKey::EmojiPicker)
    } else if code == 134 {
        Some(SpecialKey::MyAsus)
    } else if code == 106 {
        Some(SpecialKey::ToggleSecondaryDisplay)
    } else {
        None
    }
}

/// Reads a code of the vendor channel.
pub fn special_key(code: i32) -> (r: Option<SpecialKey>)
    ensures
        r == key_of_code(code as int),
        r == Some(SpecialKey::KeyboardBacklight) <==> code == 199,
        r == Some(SpecialKey::BrightnessDown) <==> code == 16,
        r == Some(SpecialKey::BrightnessUp) <==> code == 32,
        r == Some(SpecialKey::SwapUpDownDisplay) <==> code == 156,
        r == Some(SpecialKey::MicrophoneMute) <==> code == 124,
        r == Some(SpecialKey::EmojiPicker) <==> code == 126,
        r == Some(SpecialKey::MyAsus) <==> code == 134,
        r == Some(SpecialKey::ToggleSecondaryDisplay) <==> code == 106,
{
    match code {
        199 => Some(SpecialKey::KeyboardBacklight),
        16 => Some(SpecialKey::BrightnessDown),
        32 => Some(SpecialKey::BrightnessUp),
        156 => Some(SpecialKey::SwapUpDownDisplay),
        124 => Some(SpecialKey::MicrophoneMute),
        126 => Some(SpecialKey::EmojiPicker),
        134 => Some(SpecialKey::MyAsus),
        106 => Some(SpecialKey::ToggleSecondaryDisplay),
        _ => None,
    }
}

// Key codes of the kernel's input layer.
pub const KEY_LEFTCTRL: u16 = 29;

pub const KEY_DOT: u16 = 52;

pub const KEY_BRIGHTNESSDOWN: u16 = 224;

pub const KEY_BRIGHTNESSUP: u16 = 225;

pub const KEY_MICMUTE: u16 = 248;

/// What a special key does. The flags only give the variants a value in the configuration file:
/// `true` and `false` mean the same.
pub enum KeyFunction {
    KeyboardBacklight(bool),
    ToggleSecondaryDisplay(bool),
    SwapDisplays(bool),
    /// Press the keys with these codes.
    KeyBind(Vec<u16>),
    /// Run a shell command.
    Command(String),
    NoOp(bool),
}

/// What is to be done when a special key is pressed.
pub enum KeyAction {
    /// Release what is pressed and press these keys on the virtual keyboard.
    PressKeys(Vec<u16>),
    RunCommand(String),
    ToggleBacklight,
    ToggleSecondaryDisplay,
    /// Pause the brightness synchronisation and make this panel the desired primary one.
    SetDesiredPrimary { primary: String, pause_secs: u64 },
    Nothing,
}

pub enum KeyActionView {
    PressKeys(Seq<u16>),
    RunCommand(Seq<char>),
    ToggleBacklight,
    ToggleSecondaryDisplay,
    SetDesiredPrimary { primary: Seq<char>, pause_secs: u64 },
    Nothing,
}

impl View for KeyAction {
    type V = KeyActionView;

    open spec fn view(&self) -> KeyActionView {
        match self {
            KeyAction::PressKeys(keys) => KeyActionView::PressKeys(keys@),
            KeyAction::RunCommand(c) => KeyActionView::RunCommand(c@),
            KeyAction::ToggleBacklight => KeyActionView::ToggleBacklight,
            KeyAction::ToggleSecondaryDisplay => KeyActionView::ToggleSecondaryDisplay,
            KeyAction::SetDesiredPrimary {
                primary,
                pause_secs,
            } => KeyActionView::SetDesiredPrimary { primary: primary@, pause_secs: *pause_secs },
            KeyAction::Nothing => KeyActionView::Nothing,
        }
    }
}

/// The panel that is not the desired primary one; without a desire, eDP-2.
pub open spec fn swapped_primary(current: Option<Seq<char>>) -> Seq<char> {
    if current == Some("eDP-2"@) {
        "eDP-1"@
    } else {
        "eDP-2"@
    }
}

impl KeyFunction {
    /// What the function does, given the desired primary panel. A flag has no part in it.
    pub open spec fn action(self, desired_primary: Option<Seq<char>>) -> KeyActionView {
        match self {
            KeyFunction::KeyBind(keys) => KeyActionView::PressKeys(keys@),
            KeyFunction::Command(c) => KeyActionView::RunCommand(c@),
            KeyFunction::KeyboardBacklight(_) => KeyActionView::ToggleBacklight,
            KeyFunction::ToggleSecondaryDisplay(_) => KeyActionView::ToggleSecondaryDisplay,
            KeyFunction::SwapDisplays(_) => KeyActionView::SetDesiredPrimary {
                primary: swapped_primary(desired_primary),
                pause_secs: 4,
            },
            KeyFunction::NoOp(_) => KeyActionView::Nothing,
        }
    }

    /// Says what the function does, whatever its flag.
    pub fn execute(&self, desired_primary: &Option<String>) -> (r: KeyAction)
        ensures
            r@ == self.action(crate::state::text_view(*desired_primary)),
    {
        match self {
            KeyFunction::KeyBind(keys) => KeyAction::PressKeys(copy_keys(keys)),
            KeyFunction::Command(c) => KeyAction::RunCommand(c.clone()),
            KeyFunction::KeyboardBacklight(_) => KeyAction::ToggleBacklight,
            KeyFunction::ToggleSecondaryDisplay(_) => KeyAction::ToggleSecondaryDisplay,
            KeyFunction::SwapDisplays(_) => {
                let lower = match desired_primary {
                    Some(p) => same(p.as_str(), "eDP-2"),
                    None => false,
                };
                let primary = if lower {
                    "eDP-1".to_owned()
                } else {
                    "eDP-2".to_owned()
                };
                KeyAction::SetDesiredPrimary { primary, pause_secs: 4 }
            },
            KeyFunction::NoOp(_) => KeyAction::Nothing,
        }
    }
}

/// A copy of a list of key codes.
pub fn copy_keys(keys: &Vec<u16>) -> (r: Vec<u16>)
    ensures
        r@ == keys@,
{
    let mut out: Vec<u16> = Vec::new();
    let mut i: usize = 0;
    while i < keys.len()
        invariant
            i <= keys@.len(),
            out@ =~= keys@.take(i as int),
        decreases keys@.len() - i,
    {
        out.push(keys[i]);
        i = i + 1;
    }
    proof {
        assert(out@ =~= keys@);
    }
    out
}

/// Swapping twice leads back to the panel that was desired, and a swap always yields one of the
/// two panels.
pub proof fn law_swap_is_an_involution(primary: Seq<char>)
    ensures
        primary == "eDP-1"@ || primary == "eDP-2"@ ==> swapped_primary(
            Some(swapped_primary(Some(primary))),
        ) == primary,
        swapped_primary(Some(primary)) == "eDP-1"@ || swapped_primary(Some(primary)) == "eDP-2"@,
{
    reveal_strlit("eDP-1");
    reveal_strlit("eDP-2");
    assert("eDP-1"@[4] != "eDP-2"@[4]);
}

/// The flag of a toggle or of a key without function makes no difference.
pub proof fn law_flag_makes_no_difference(a: bool, b: bool, desired_primary: Option<Seq<char>>)
    ensures
        KeyFunction::KeyboardBacklight(a).action(desired_primary)
            == KeyFunction::KeyboardBacklight(b).action(desired_primary),
        KeyFunction::ToggleSecondaryDisplay(a).action(desired_primary)
            == KeyFunction::ToggleSecondaryDisplay(b).action(desired_primary),
        KeyFunction::SwapDisplays(a).action(desired_primary)
            == KeyFunction::SwapDisplays(b).action(desired_primary),
        KeyFunction::NoOp(a).action(desired_primary) == KeyFunction::NoOp(b).action(
            desired_primary,
        ),
{
}

// ── Settings ─────────────────────────────────────────────────────────────────

pub const DEFAULT_CONFIG_PATH: &'static str = "/etc/zenbook-duo-daemon/config.toml";

/// The daemon's settings.
pub struct Config {
    pub usb_vendor_id: String,
    pub usb_product_id: String,
    pub fn_lock: bool,
    pub keyboard_backlight_key: KeyFunction,
    pub brightness_down_key: KeyFunction,
    pub brightness_up_key: KeyFunction,
    pub swap_up_down_display_key: KeyFunction,
    pub microphone_mute_key: KeyFunction,
    pub emoji_picker_key: KeyFunction,
    pub myasus_key: KeyFunction,
    pub toggle_secondary_display_key: KeyFunction,
    pub secondary_display_status_path: String,
    pub primary_backlight_path: String,
    pub secondary_backlight_path: String,
    /// Zero turns idle detection off.
    pub idle_timeout_seconds: u64,
}

/// The number that a hexadecimal USB id stands for.
pub open spec fn usb_id(text: Seq<char>) -> Option<nat> {
    crate::text::number_value(text, 16, 0xffff)
}

/// Reads a hexadecimal USB id.
pub fn parse_usb_id(text: &str) -> (r: Option<u16>)
    ensures
        match r {
            Some(n) => usb_id(text@) == Some(n as nat),
            None => usb_id(text@) is None,
        },
{
    match crate::text::parse_number(text, 16, 0xffff) {
        Some(n) => Some(n as u16),
        None => None,
    }
}

/// The keyboard's product id for a board: one for the model of 2025, another for all others.
pub open spec fn product_id_for(board: Seq<char>) -> Seq<char> {
    if board == "UX8406CA"@ {
        "1bf2"@
    } else {
        "1b2c"@
    }
}

/// The keyboard's product id for a board name as the firmware gives it.
pub fn get_usb_product_id(board_name: &str) -> (r: String)
    ensures
        r@ == product_id_for(crate::text::trimmed(board_name@)),
{
    let board = crate::text::trim(board_name);
    if same(board.as_str(), "UX8406CA") {
        "1bf2".to_owned()
    } else {
        "1b2c".to_owned()
    }
}

impl Config {
    /// The function of a special key.
    pub open spec fn function_of(self, key: SpecialKey) -> KeyFunction {
        match key {
            SpecialKey::KeyboardBacklight => self.keyboard_backlight_key,
            SpecialKey::BrightnessDown => self.brightness_down_key,
            SpecialKey::BrightnessUp => self.brightness_up_key,
            SpecialKey::SwapUpDownDisplay => self.swap_up_down_display_key,
            SpecialKey::MicrophoneMute => self.microphone_mute_key,
            SpecialKey::EmojiPicker => self.emoji_picker_key,
            SpecialKey::MyAsus => self.myasus_key,
            SpecialKey::ToggleSecondaryDisplay => self.toggle_secondary_display_key,
        }
    }

    /// The function of a special key.
    pub fn key_function(&self, key: SpecialKey) -> (r: &KeyFunction)
        ensures
            *r == self.function_of(key),
    {
        match key {
            SpecialKey::KeyboardBacklight => &self.keyboard_backlight_key,
            SpecialKey::BrightnessDown => &self.brightness_down_key,
            SpecialKey::BrightnessUp => &self.brightness_up_key,
            SpecialKey::SwapUpDownDisplay => &self.swap_up_down_display_key,
            SpecialKey::MicrophoneMute => &self.microphone_mute_key,
            SpecialKey::EmojiPicker => &self.emoji_picker_key,
            SpecialKey::MyAsus => &self.myasus_key,
            SpecialKey::ToggleSecondaryDisplay => &self.toggle_secondary_display_key,
        }
    }

    /// The USB ids can be read.
    pub open spec fn ids_valid(self) -> bool {
        usb_id(self.usb_vendor_id@) is Some && usb_id(self.usb_product_id@) is Some
    }

    /// Whether the USB ids can be read.
    pub fn has_valid_ids(&self) -> (r: bool)
        ensures
            r == self.ids_valid(),
    {
        parse_usb_id(self.usb_vendor_id.as_str()).is_some() && parse_usb_id(
            self.usb_product_id.as_str(),
        ).is_some()
    }

    /// The keyboard's vendor id.
    pub fn vendor_id(&self) -> (r: u16)
        requires
            usb_id(self.usb_vendor_id@) is Some,
        ensures
            usb_id(self.usb_vendor_id@) == Some(r as nat),
    {
        match parse_usb_id(self.usb_vendor_id.as_str()) {
            Some(n) => n,
            None => 0,
        }
    }

    /// The keyboard's product id.
    pub fn product_id(&self) -> (r: u16)
        requires
            usb_id(self.usb_product_id@) is Some,
        ensures
            usb_id(self.usb_product_id@) == Some(r as nat),
    {
        match parse_usb_id(self.usb_product_id.as_str()) {
            Some(n) => n,
            None => 0,
        }
    }

    /// The settings of a new installation on the given board.
    pub fn default_for(board_name: &str) -> (r: Self)
        ensures
            r.usb_vendor_id@ == "0b05"@,
            r.usb_product_id@ == product_id_for(crate::text::trimmed(board_name@)),
            r.fn_lock,
            r.keyboard_backlight_key == KeyFunction::KeyboardBacklight(true),
            r.brightness_down_key matches KeyFunction::KeyBind(keys) && keys@ == seq![
                KEY_BRIGHTNESSDOWN,
            ],
            r.brightness_up_key matches KeyFunction::KeyBind(keys) && keys@ == seq![
                KEY_BRIGHTNESSUP,
            ],
            r.swap_up_down_display_key == KeyFunction::SwapDisplays(true),
            r.microphone_mute_key matches KeyFunction::KeyBind(keys) && keys@ == seq![KEY_MICMUTE],
            r.emoji_picker_key matches KeyFunction::KeyBind(keys) && keys@ == seq![
                KEY_LEFTCTRL,
                KEY_DOT,
            ],
            r.myasus_key == KeyFunction::NoOp(true),
            r.toggle_secondary_display_key == KeyFunction::ToggleSecondaryDisplay(true),
            r.secondary_display_status_path@ == "/sys/class/drm/card1-eDP-2/status"@,
            r.primary_backlight_path@ == "/sys/class/backlight/intel_backlight/brightness"@,
            r.secondary_backlight_path@
                == "/sys/class/backlight/card1-eDP-2-backlight/brightness"@,
            r.idle_timeout_seconds == 300,
            r.ids_valid(),
    {
        let r = Config {
            usb_vendor_id: "0b05".to_owned(),
            usb_product_id: get_usb_product_id(board_name),
            fn_lock: true,
            keyboard_backlight_key: KeyFunction::KeyboardBacklight(true),
            brightness_down_key: KeyFunction::KeyBind(vec![KEY_BRIGHTNESSDOWN]),
            brightness_up_key: KeyFunction::KeyBind(vec![KEY_BRIGHTNESSUP]),
            swap_up_down_display_key: KeyFunction::SwapDisplays(true),
            microphone_mute_key: KeyFunction::KeyBind(vec![KEY_MICMUTE]),
            emoji_picker_key: KeyFunction::KeyBind(vec![KEY_LEFTCTRL, KEY_DOT]),
            myasus_key: KeyFunction::NoOp(true),
            toggle_secondary_display_key: KeyFunction::ToggleSecondaryDisplay(true),
            secondary_display_status_path: "/sys/class/drm/card1-eDP-2/status".to_owned(),
            primary_backlight_path: "/sys/class/backlight/intel_backlight/brightness".to_owned(),
            secondary_backlight_path:
                "/sys/class/backlight/card1-eDP-2-backlight/brightness".to_owned(),
            idle_timeout_seconds: 300,
        };
        proof {
            reveal_strlit("0b05");
            reveal_strlit("1bf2");
            reveal_strlit("1b2c");
            lemma_four_hex_digits("0b05"@);
            lemma_four_hex_digits("1bf2"@);
            lemma_four_hex_digits("1b2c"@);
        }
        r
    }
}

/// Four lower-case hexadecimal digits are a USB id.
proof fn lemma_four_hex_digits(s: Seq<char>)
    requires
        s.len() == 4,
        forall|i: int|
            0 <= i < 4 ==> ('0' <= #[trigger] s[i] && s[i] <= '9') || ('a' <= s[i] && s[i] <= 'f'),
    ensures
        usb_id(s) is Some,
{
    reveal_with_fuel(crate::text::digits_value, 5);
    assert(s.drop_last().drop_last().drop_last().drop_last().len() == 0);
    assert(s.drop_last().last() == s[2]);
    assert(s.drop_last().drop_last().last() == s[1]);
    assert(s.drop_last().drop_last().drop_last().last() == s[0]);
    assert(s.last() == s[3]);
}

// ── Migration ────────────────────────────────────────────────────────────────

/// What to do with the settings file.
#[derive(Clone, Copy, Debug, PartialEq, Eq, Structural)]
pub enum MigrationPlan {
    Keep,
    WriteDefault,
    BackUpAndWriteDefault,
}

/// A file that can be read is kept; any other is replaced by the defaults, after a backup if it
/// is there.
pub fn plan_migration(readable: bool, exists: bool) -> (r: MigrationPlan)
    ensures
        r == (if readable {
            MigrationPlan::Keep
        } else if exists {
            MigrationPlan::BackUpAndWriteDefault
        } else {
            MigrationPlan::WriteDefault
        }),
{
    if readable {
        MigrationPlan::Keep
    } else if exists {
        MigrationPlan::BackUpAndWriteDefault
    } else {
        MigrationPlan::WriteDefault
    }
}

// ── What the keys and the settings are for ───────────────────────────────────

/// Each special key has one code on the vendor channel, and no other code is a key.
pub proof fn law_special_key_codes(code: int)
    ensures
        key_of_code(code) == Some(SpecialKey::KeyboardBacklight) <==> code == 199,
        key_of_code(code) == Some(SpecialKey::BrightnessDown) <==> code == 16,
        key_of_code(code) == Some(SpecialKey::BrightnessUp) <==> code == 32,
        key_of_code(code) == Some(SpecialKey::SwapUpDownDisplay) <==> code == 156,
        key_of_code(code) == Some(SpecialKey::MicrophoneMute) <==> code == 124,
        key_of_code(code) == Some(SpecialKey::EmojiPicker) <==> code == 126,
        key_of_code(code) == Some(SpecialKey::MyAsus) <==> code == 134,
        key_of_code(code) == Some(SpecialKey::ToggleSecondaryDisplay) <==> code == 106,
{
}

/// A special key runs the function that the settings give under its own name.
pub proof fn law_keys_run_their_own_functions(c: Config)
    ensures
        c.function_of(SpecialKey::KeyboardBacklight) == c.keyboard_backlight_key,
        c.function_of(SpecialKey::BrightnessDown) == c.brightness_down_key,
        c.function_of(SpecialKey::BrightnessUp) == c.brightness_up_key,
        c.function_of(SpecialKey::SwapUpDownDisplay) == c.swap_up_down_display_key,
        c.function_of(SpecialKey::MicrophoneMute) == c.microphone_mute_key,
        c.function_of(SpecialKey::EmojiPicker) == c.emoji_picker_key,
        c.function_of(SpecialKey::MyAsus) == c.myasus_key,
        c.function_of(SpecialKey::ToggleSecondaryDisplay) == c.toggle_secondary_display_key,
{
}

/// A key binding presses exactly its keys, a command runs exactly its text, and each toggle toggles
/// what it is named after.
pub proof fn law_functions_do_what_they_are_named_after(
    keys: Vec<u16>,
    command: String,
    flag: bool,
    desired_primary: Option<Seq<char>>,
)
    ensures
        KeyFunction::KeyBind(keys).action(desired_primary) matches KeyActionView::PressKeys(pressed)
            && pressed == keys@,
        KeyFunction::Command(command).action(desired_primary) matches KeyActionView::RunCommand(text)
            && text == command@,
        KeyFunction::KeyboardBacklight(flag).action(desired_primary) is ToggleBacklight,
        KeyFunction::ToggleSecondaryDisplay(flag).action(desired_primary) is ToggleSecondaryDisplay,
        KeyFunction::NoOp(flag).action(desired_primary) is Nothing,
{
}

/// Swapping makes the other internal panel the desired primary one, eDP-2 where neither was, and
/// holds the brightness back for four seconds.
pub proof fn law_swap_desires_the_other_panel(flag: bool, desired_primary: Option<Seq<char>>)
    ensures
        KeyFunction::SwapDisplays(flag).action(desired_primary) matches
            KeyActionView::SetDesiredPrimary { primary, pause_secs } && pause_secs == 4
            && desired_primary != Some(primary) && (primary == "eDP-1"@ <==> desired_primary
            == Some("eDP-2"@)) && (primary == "eDP-2"@ <==> desired_primary != Some("eDP-2"@)),
{
    reveal_strlit("eDP-1");
    reveal_strlit("eDP-2");
    assert("eDP-1"@[4] != "eDP-2"@[4]);
}

/// Exactly the two names of the modes are read, each as its mode.
pub proof fn law_mode_names(name: Seq<char>)
    ensures
        mode_named(name) == Some(TabletMapMode::OneToOne) <==> name == "one_to_one"@,
        mode_named(name) == Some(TabletMapMode::AllToPrimary) <==> name == "all_to_primary"@,
        mode_text(TabletMapMode::OneToOne) == "one_to_one"@,
        mode_text(TabletMapMode::AllToPrimary) == "all_to_primary"@,
{
    reveal_strlit("one_to_one");
    reveal_strlit("all_to_primary");
    assert("one_to_one"@.len() != "all_to_primary"@.len());
}

/// The keyboard of the model of 2025 has a product id of its own; all others share one.
pub proof fn law_product_ids(board: Seq<char>)
    ensures
        product_id_for(board) == "1bf2"@ <==> board == "UX8406CA"@,
        product_id_for(board) == "1b2c"@ <==> board != "UX8406CA"@,
{
    reveal_strlit("1bf2");
    reveal_strlit("1b2c");
    assert("1bf2"@[2] != "1b2c"@[2]);
}

/// The keys of the default bindings have the codes of the kernel's input layer.
pub proof fn law_kernel_key_codes()
    ensures
        KEY_LEFTCTRL == 29,
        KEY_DOT == 52,
        KEY_BRIGHTNESSDOWN == 224,
        KEY_BRIGHTNESSUP == 225,
        KEY_MICMUTE == 248,
{
}

/// A USB id of four digits counts them as a hexadecimal number, and a longer one with a value
/// beyond sixteen bits is none.
pub proof fn law_usb_ids_are_hexadecimal(a: char, b: char, c: char, d: char)
    requires
        'a' <= a <= 'f',
        '0' <= b <= '9',
        'a' <= c <= 'f',
        '0' <= d <= '9',
    ensures
        usb_id(seq![a, b, c, d]) == Some(
            ((a as int - 'a' as int + 10) * 4096 + (b as int - '0' as int) * 256 + (c as int
                - 'a' as int + 10) * 16 + (d as int - '0' as int)) as nat,
        ),
{
    let s = seq![a, b, c, d];
    reveal_with_fuel(crate::text::digits_value, 5);
    assert(s.drop_last() =~= seq![a, b, c]);
    assert(seq![a, b, c].drop_last() =~= seq![a, b]);
    assert(seq![a, b].drop_last() =~= seq![a]);
    assert(seq![a].drop_last() =~= Seq::empty());
    assert(crate::text::unsigned_part(s) == s);
}

/// An action is seen as what it is, with its keys, its command or its panel.
pub proof fn law_actions_are_seen_as_they_are(
    keys: Vec<u16>,
    command: String,
    primary: String,
    pause_secs: u64,
)
    ensures
        KeyAction::PressKeys(keys)@ == KeyActionView::PressKeys(keys@),
        KeyAction::RunCommand(command)@ == KeyActionView::RunCommand(command@),
        KeyAction::ToggleBacklight@ is ToggleBacklight,
        KeyAction::ToggleSecondaryDisplay@ is ToggleSecondaryDisplay,
        (KeyAction::SetDesiredPrimary { primary, pause_secs })@ == (
        KeyActionView::SetDesiredPrimary { primary: primary@, pause_secs }),
        KeyAction::Nothing@ is Nothing,
        DEFAULT_CONFIG_PATH@ == "/etc/zenbook-duo-daemon/config.toml"@,
{
}

} // verus!
