//! State of the keyboard and of what is desired of the displays, kept across attach and detach.
use vstd::prelude::*;

use crate::config::{tablet_mode_from_str, tablet_mode_to_str, TabletMapMode, TabletMappingConfig};
use crate::text::same;

verus! {

/// How long a keyboard that is gone still counts as connected.
pub const KEYBOARD_CONNECTION_GRACE_MS: u64 = 1000;

// ── Backlight ────────────────────────────────────────────────────────────────

#[derive(Clone, Copy, Debug, PartialEq, Eq, Structural)]
pub enum KeyboardBacklightState {
    Off,
    Low,
    Medium,
    High,
}

impl KeyboardBacklightState {
    /// 0 for off up to 3 for high.
    pub open spec fn rank(self) -> u8 {
        match self {
            KeyboardBacklightState::Off => 0,
            KeyboardBacklightState::Low => 1,
            KeyboardBacklightState::Medium => 2,
            KeyboardBacklightState::High => 3,
        }
    }

    /// The state with the given level.
    pub open spec fn of_rank(level: int) -> Option<KeyboardBacklightState> {
        if level == 0 {
            Some(KeyboardBacklightState::Off)
        } else if level == 1 {
            Some(KeyboardBacklightState::Low)
        } else if level == 2 {
            Some(KeyboardBacklightState::Medium)
        } else if level == 3 {
            Some(KeyboardBacklightState::High)
        } else {
            None
        }
    }

    /// The brighter of two.
    pub open spec fn brighter(self, other: Self) -> Self {
        if self.rank() >= other.rank() {
            self
        } else {
            other
        }
    }

    /// The state after the next press of the backlight key: one brighter, and off after high.
    pub open spec fn successor(self) -> Self {
        match self {
            KeyboardBacklightState::Off => KeyboardBacklightState::Low,
            KeyboardBacklightState::Low => KeyboardBacklightState::Medium,
            KeyboardBacklightState::Medium => KeyboardBacklightState::High,
            KeyboardBacklightState::High => KeyboardBacklightState::Off,
        }
    }

    /// The next state of the cycle.
    pub fn next(&self) -> (r: Self)
        ensures
            r == self.successor(),
            r.rank() == (self.rank() + 1) % 4,
    {
        match self {
            KeyboardBacklightState::Off => KeyboardBacklightState::Low,
            KeyboardBacklightState::Low => KeyboardBacklightState::Medium,
            KeyboardBacklightState::Medium => KeyboardBacklightState::High,
            KeyboardBacklightState::High => KeyboardBacklightState::Off,
        }
    }

    /// The level as a number.
    pub fn level(self) -> (r: u8)
        ensures
            r == self.rank(),
    {
        match self {
            KeyboardBacklightState::Off => 0,
            KeyboardBacklightState::Low => 1,
            KeyboardBacklightState::Medium => 2,
            KeyboardBacklightState::High => 3,
        }
    }

    /// The brighter of two.
    pub fn max(self, other: Self) -> (r: Self)
        ensures
            r == self.brighter(other),
    {
        if self.level() >= other.level() {
            self
        } else {
            other
        }
    }

    /// The state with the given level, if there is one.
    pub fn from_level(level: u8) -> (r: Option<Self>)
        ensures
            r == Self::of_rank(level as int),
    {
        match level {
            0 => Some(KeyboardBacklightState::Off),
            1 => Some(KeyboardBacklightState::Low),
            2 => Some(KeyboardBacklightState::Medium),
            3 => Some(KeyboardBacklightState::High),
            _ => None,
        }
    }
}

/// The text in which a backlight state is stored.
pub open spec fn backlight_text(state: KeyboardBacklightState) -> Seq<char> {
    match state {
        KeyboardBacklightState::Off => "0"@,
        KeyboardBacklightState::Low => "1"@,
        KeyboardBacklightState::Medium => "2"@,
        KeyboardBacklightState::High => "3"@,
    }
}

/// The state that a stored text stands for; low where it stands for none.
pub open spec fn backlight_read(content: Seq<char>) -> KeyboardBacklightState {
    if content == "0"@ {
        KeyboardBacklightState::Off
    } else if content == "2"@ {
        KeyboardBacklightState::Medium
    } else if content == "3"@ {
        KeyboardBacklightState::High
    } else {
        KeyboardBacklightState::Low
    }
}

/// The content of the backlight file.
pub fn persist_backlight_disk(state: KeyboardBacklightState) -> (r: &'static str)
    ensures
        r@ == backlight_text(state),
{
    match state {
        KeyboardBacklightState::Off => "0",
        KeyboardBacklightState::Low => "1",
        KeyboardBacklightState::Medium => "2",
        KeyboardBacklightState::High => "3",
    }
}

/// Reads the content of the backlight file; `None` stands for a file that is not there.
pub fn load_backlight_disk(content: Option<&str>) -> (r: KeyboardBacklightState)
    ensures
        r == (match content {
            Some(text) => backlight_read(crate::text::trimmed(text@)),
            None => KeyboardBacklightState::Low,
        }),
{
    match content {
        None => KeyboardBacklightState::Low,
        Some(text) => {
            let t = crate::text::trim(text);
            if same(t.as_str(), "0") {
                KeyboardBacklightState::Off
            } else if same(t.as_str(), "2") {
                KeyboardBacklightState::Medium
            } else if same(t.as_str(), "3") {
                KeyboardBacklightState::High
            } else {
                KeyboardBacklightState::Low
            }
        },
    }
}

/// What is stored of a backlight state is read back as that state.
pub proof fn law_backlight_file_round_trip(state: KeyboardBacklightState)
    ensures
        backlight_read(crate::text::trimmed(backlight_text(state))) == state,
        KeyboardBacklightState::of_rank(state.rank() as int) == Some(state),
{
    reveal_strlit("0");
    reveal_strlit("1");
    reveal_strlit("2");
    reveal_strlit("3");
    assert("0"@[0] == '0');
    assert("1"@[0] == '1');
    assert("2"@[0] == '2');
    assert("3"@[0] == '3');
    crate::text::lemma_trimmed_unchanged(backlight_text(state));
}

/// Four presses of the backlight key lead back to where they began.
pub proof fn law_backlight_cycles(state: KeyboardBacklightState)
    ensures
        state.successor().successor().successor().successor() == state,
{
}

// ── Connection ───────────────────────────────────────────────────────────────

#[derive(Clone, Copy, Debug, PartialEq, Eq, Structural)]
pub enum KeyboardConnectionKind {
    Detached,
    Bluetooth,
    Usb,
    Pogo,
}

impl KeyboardConnectionKind {
    pub open spec fn text(self) -> Seq<char> {
        match self {
            KeyboardConnectionKind::Detached => "detached"@,
            KeyboardConnectionKind::Bluetooth => "bt"@,
            KeyboardConnectionKind::Usb => "usb"@,
            KeyboardConnectionKind::Pogo => "pogo"@,
        }
    }

    /// The name under which the kind is published.
    pub fn as_str(self) -> (r: &'static str)
        ensures
            r@ == self.text(),
    {
        match self {
            KeyboardConnectionKind::Detached => "detached",
            KeyboardConnectionKind::Bluetooth => "bt",
            KeyboardConnectionKind::Usb => "usb",
            KeyboardConnectionKind::Pogo => "pogo",
        }
    }

    /// Whether the keyboard is connected in any way.
    pub fn is_connected(self) -> (r: bool)
        ensures
            r == (self != KeyboardConnectionKind::Detached),
    {
        match self {
            KeyboardConnectionKind::Detached => false,
            _ => true,
        }
    }
}

// ── Stored state ─────────────────────────────────────────────────────────────

/// The keyboard's battery as stored.
#[derive(Clone, Copy, Debug, PartialEq, Eq, Structural)]
pub struct PersistedKeyboardBattery {
    pub pct: u8,
    pub charging: bool,
    pub full: bool,
}

/// A stored battery state is used only with a charge of at most a hundred.
pub fn load_battery_disk(stored: Option<PersistedKeyboardBattery>) -> (r: Option<
    PersistedKeyboardBattery,
>)
    ensures
        r == (match stored {
            Some(b) => if b.pct <= 100 {
                Some(b)
            } else {
                None
            },
            None => None,
        }),
{
    match stored {
        Some(b) => if b.pct > 100 {
            None
        } else {
            Some(b)
        },
        None => None,
    }
}

/// What is stored of the displays. A value that was never set is absent.
pub struct PersistedDisplayState {
    pub desired_primary: Option<String>,
    pub desired_secondary_enabled: Option<bool>,
    pub display_brightness: Option<u32>,
    pub ambient_light_enabled: Option<bool>,
    /// `builtin_only`, `external_only` or `all_connected`.
    pub desired_display_attachment: Option<String>,
    /// `mirror` or `joined`.
    pub desired_display_layout: Option<String>,
    pub tablet_mapping_enabled: Option<bool>,
    /// `one_to_one` or `all_to_primary`.
    pub tablet_mapping_mode: Option<String>,
}

pub open spec fn text_view(s: Option<String>) -> Option<Seq<char>> {
    match s {
        Some(t) => Some(t@),
        None => None,
    }
}

pub struct PersistedDisplayView {
    pub desired_primary: Option<Seq<char>>,
    pub desired_secondary_enabled: Option<bool>,
    pub display_brightness: Option<u32>,
    pub ambient_light_enabled: Option<bool>,
    pub desired_display_attachment: Option<Seq<char>>,
    pub desired_display_layout: Option<Seq<char>>,
    pub tablet_mapping_enabled: Option<bool>,
    pub tablet_mapping_mode: Option<Seq<char>>,
}

impl View for PersistedDisplayState {
    type V = PersistedDisplayView;

    open spec fn view(&self) -> PersistedDisplayView {
        PersistedDisplayView {
            desired_primary: text_view(self.desired_primary),
            desired_secondary_enabled: self.desired_secondary_enabled,
            display_brightness: self.display_brightness,
            ambient_light_enabled: self.ambient_light_enabled,
            desired_display_attachment: text_view(self.desired_display_attachment),
            desired_display_layout: text_view(self.desired_display_layout),
            tablet_mapping_enabled: self.tablet_mapping_enabled,
            tablet_mapping_mode: text_view(self.tablet_mapping_mode),
        }
    }
}

/// A change of what is stored.
pub enum DisplayStateChange {
    Primary(String),
    SecondaryEnabled(bool),
    Brightness(u32),
    AmbientLightEnabled(bool),
    Mode { attachment: String, layout: String },
    TabletMappingEnabled(bool),
    TabletMappingMode(TabletMapMode),
}

impl PersistedDisplayView {
    /// The stored state after a change: only what the change is about differs.
    pub open spec fn changed_by(self, change: DisplayStateChange) -> PersistedDisplayView {
        match change {
            DisplayStateChange::Primary(p) => PersistedDisplayView {
                desired_primary: Some(p@),
                ..self
            },
            DisplayStateChange::SecondaryEnabled(b) => PersistedDisplayView {
                desired_secondary_enabled: Some(b),
                ..self
            },
            DisplayStateChange::Brightness(n) => PersistedDisplayView {
                display_brightness: Some(n),
                ..self
            },
            DisplayStateChange::AmbientLightEnabled(b) => PersistedDisplayView {
                ambient_light_enabled: Some(b),
                ..self
            },
            DisplayStateChange::Mode { attachment, layout } => PersistedDisplayView {
                desired_display_attachment: Some(attachment@),
                desired_display_layout: Some(layout@),
                ..self
            },
            DisplayStateChange::TabletMappingEnabled(b) => PersistedDisplayView {
                tablet_mapping_enabled: Some(b),
                ..self
            },
            DisplayStateChange::TabletMappingMode(m) => PersistedDisplayView {
                tablet_mapping_mode: Some(crate::config::mode_text(m)),
                ..self
            },
        }
    }
}

fn same_option(a: &Option<String>, b: &str) -> (r: bool)
    ensures
        r == (text_view(*a) == Some(b@)),
{
    match a {
        Some(t) => same(t.as_str(), b),
        None => false,
    }
}

impl PersistedDisplayState {
    /// Nothing stored.
    pub fn empty() -> (r: Self)
        ensures
            r == (PersistedDisplayState {
                desired_primary: None,
                desired_secondary_enabled: None,
                display_brightness: None,
                ambient_light_enabled: None,
                desired_display_attachment: None,
                desired_display_layout: None,
                tablet_mapping_enabled: None,
                tablet_mapping_mode: None,
            }),
    {
        PersistedDisplayState {
            desired_primary: None,
            desired_secondary_enabled: None,
            display_brightness: None,
            ambient_light_enabled: None,
            desired_display_attachment: None,
            desired_display_layout: None,
            tablet_mapping_enabled: None,
            tablet_mapping_mode: None,
        }
    }

    /// Makes a change; says whether anything is different now and has to be written.
    pub fn update(&mut self, change: DisplayStateChange) -> (changed: bool)
        ensures
            final(self)@ == old(self)@.changed_by(change),
            changed == (final(self)@ != old(self)@),
    {
        match change {
            DisplayStateChange::Primary(p) => {
                let kept = same_option(&self.desired_primary, p.as_str());
                self.desired_primary = Some(p);
                !kept
            },
            DisplayStateChange::SecondaryEnabled(b) => {
                let kept = match self.desired_secondary_enabled {
                    Some(x) => x == b,
                    None => false,
                };
                self.desired_secondary_enabled = Some(b);
                !kept
            },
            DisplayStateChange::Brightness(n) => {
                let kept = match self.display_brightness {
                    Some(x) => x == n,
                    None => false,
                };
                self.display_brightness = Some(n);
                !kept
            },
            DisplayStateChange::AmbientLightEnabled(b) => {
                let kept = match self.ambient_light_enabled {
                    Some(x) => x == b,
                    None => false,
                };
                self.ambient_light_enabled = Some(b);
                !kept
            },
            DisplayStateChange::Mode { attachment, layout } => {
                let kept = same_option(&self.desired_display_attachment, attachment.as_str())
                    && same_option(&self.desired_display_layout, layout.as_str());
                self.desired_display_attachment = Some(attachment);
                self.desired_display_layout = Some(layout);
                !kept
            },
            DisplayStateChange::TabletMappingEnabled(b) => {
                let kept = match self.tablet_mapping_enabled {
                    Some(x) => x == b,
                    None => false,
                };
                self.tablet_mapping_enabled = Some(b);
                !kept
            },
            DisplayStateChange::TabletMappingMode(m) => {
                let name = tablet_mode_to_str(m).to_owned();
                let kept = same_option(&self.tablet_mapping_mode, name.as_str());
                self.tablet_mapping_mode = Some(name);
                !kept
            },
        }
    }
}

/// A change that was made once changes nothing when it is made again.
pub proof fn law_stored_change_is_idempotent(s: PersistedDisplayView, change: DisplayStateChange)
    ensures
        s.changed_by(change).changed_by(change) == s.changed_by(change),
{
}

/// The pen mapping in force: what is stored, and the defaults where nothing usable is.
pub open spec fn resolved_tablet_mapping(
    snap: PersistedDisplayView,
    defaults: TabletMappingConfig,
) -> TabletMappingConfig {
    TabletMappingConfig {
        enable: match snap.tablet_mapping_enabled {
            Some(b) => b,
            None => defaults.enable,
        },
        mode: match snap.tablet_mapping_mode {
            Some(name) => match crate::config::mode_named(name) {
                Some(m) => m,
                None => defaults.mode,
            },
            None => defaults.mode,
        },
    }
}

/// Resolves the pen mapping from what is stored.
pub fn resolve_tablet_mapping_config(
    snap: &PersistedDisplayState,
    defaults: TabletMappingConfig,
) -> (r: TabletMappingConfig)
    ensures
        r == resolved_tablet_mapping(snap@, defaults),
{
    let enable = match snap.tablet_mapping_enabled {
        Some(b) => b,
        None => defaults.enable,
    };
    let mode = match &snap.tablet_mapping_mode {
        Some(name) => match tablet_mode_from_str(name.as_str()) {
            Ok(m) => m,
            Err(_) => defaults.mode,
        },
        None => defaults.mode,
    };
    TabletMappingConfig { enable, mode }
}

/// The desired attachment and layout: what is stored, else the internal panels side by side.
pub open spec fn resolved_display_mode(snap: PersistedDisplayView) -> (Seq<char>, Seq<char>) {
    (
        match snap.desired_display_attachment {
            Some(a) => a,
            None => "builtin_only"@,
        },
        match snap.desired_display_layout {
            Some(l) => l,
            None => "joined"@,
        },
    )
}

/// Resolves the desired attachment and layout from what is stored.
pub fn get_desired_display_mode_from_snapshot(snap: &PersistedDisplayState) -> (r: (String, String))
    ensures
        (r.0@, r.1@) == resolved_display_mode(snap@),
{
    let attachment = match &snap.desired_display_attachment {
        Some(a) => a.clone(),
        None => "builtin_only".to_owned(),
    };
    let layout = match &snap.desired_display_layout {
        Some(l) => l.clone(),
        None => "joined".to_owned(),
    };
    (attachment, layout)
}

// ── Validation ───────────────────────────────────────────────────────────────

/// Accepts the two internal panels only.
pub fn validate_desired_primary(primary: &str) -> (r: Result<(), String>)
    ensures
        match r {
            Ok(_) => primary@ == "eDP-1"@ || primary@ == "eDP-2"@,
            Err(text) => primary@ != "eDP-1"@ && primary@ != "eDP-2"@ && text@
                == "desired primary must be eDP-1 or eDP-2, got "@ + primary@,
        },
{
    if same(primary, "eDP-1") || same(primary, "eDP-2") {
        Ok(())
    } else {
        Err(crate::text::join2("desired primary must be eDP-1 or eDP-2, got ", primary))
    }
}

pub open spec fn known_attachment(attachment: Seq<char>) -> bool {
    attachment == "builtin_only"@ || attachment == "external_only"@ || attachment
        == "all_connected"@
}

pub open spec fn known_layout(layout: Seq<char>) -> bool {
    layout == "mirror"@ || layout == "joined"@
}

/// Accepts the known attachments with the known layouts; an unknown attachment is reported first.
pub fn validate_desired_display_mode_strings(attachment: &str, layout: &str) -> (r: Result<
    (),
    String,
>)
    ensures
        match r {
            Ok(_) => known_attachment(attachment@) && known_layout(layout@),
            Err(text) => if !known_attachment(attachment@) {
                text@ == "invalid desired_display_attachment: "@ + attachment@
            } else {
                !known_layout(layout@) && text@ == "invalid desired_display_layout: "@ + layout@
            },
        },
{
    if !(same(attachment, "builtin_only") || same(attachment, "external_only") || same(
        attachment,
        "all_connected",
    )) {
        return Err(crate::text::join2("invalid desired_display_attachment: ", attachment));
    }
    if !(same(layout, "mirror") || same(layout, "joined")) {
        return Err(crate::text::join2("invalid desired_display_layout: ", layout));
    }
    Ok(())
}

/// Every layout that the session reports passes the validation.
pub proof fn law_observed_mode_is_valid(
    logical: Seq<crate::session::display::LogicalMonitor>,
)
    ensures
        known_attachment(crate::session::display_mode::attachment_of(logical)),
        known_layout(crate::session::display_mode::layout_of(logical)),
{
}

// ── What the stored state is for ─────────────────────────────────────────────

/// Off, low, medium and high are the levels 0 to 3, and no other number is a level.
pub proof fn law_backlight_levels(level: int)
    ensures
        KeyboardBacklightState::Off.rank() == 0,
        KeyboardBacklightState::Low.rank() == 1,
        KeyboardBacklightState::Medium.rank() == 2,
        KeyboardBacklightState::High.rank() == 3,
        KeyboardBacklightState::of_rank(level) is Some <==> 0 <= level <= 3,
        KeyboardBacklightState::of_rank(level) matches Some(state) ==> state.rank() == level,
{
}

/// The brighter of two states is one of them, and neither is above it.
pub proof fn law_brighter_is_the_maximum(a: KeyboardBacklightState, b: KeyboardBacklightState)
    ensures
        a.brighter(b) == a || a.brighter(b) == b,
        a.brighter(b).rank() >= a.rank(),
        a.brighter(b).rank() >= b.rank(),
{
}

/// A press of the backlight key goes up one level, and from high to off.
pub proof fn law_backlight_key_goes_up(state: KeyboardBacklightState)
    ensures
        state != KeyboardBacklightState::High ==> state.successor().rank() == state.rank() + 1,
        state == KeyboardBacklightState::High ==> state.successor()
            == KeyboardBacklightState::Off,
{
}

/// The backlight is stored as the digit of its level, and any text but the digits of the other
/// three is read as low.
pub proof fn law_backlight_is_stored_as_its_level(
    state: KeyboardBacklightState,
    content: Seq<char>,
)
    ensures
        backlight_text(state) == crate::text::decimal(state.rank() as nat),
        backlight_read(content) == KeyboardBacklightState::Off <==> content == "0"@,
        backlight_read(content) == KeyboardBacklightState::Medium <==> content == "2"@,
        backlight_read(content) == KeyboardBacklightState::High <==> content == "3"@,
{
    reveal_strlit("0");
    reveal_strlit("1");
    reveal_strlit("2");
    reveal_strlit("3");
    assert("0"@[0] == '0' && "1"@[0] == '1' && "2"@[0] == '2' && "3"@[0] == '3');
    assert(backlight_text(state) =~= crate::text::decimal(state.rank() as nat));
}

/// The names under which the kinds of connection are published.
pub proof fn law_connection_names(kind: KeyboardConnectionKind)
    ensures
        kind.text() == "detached"@ <==> kind == KeyboardConnectionKind::Detached,
        kind.text() == "bt"@ <==> kind == KeyboardConnectionKind::Bluetooth,
        kind.text() == "usb"@ <==> kind == KeyboardConnectionKind::Usb,
        kind.text() == "pogo"@ <==> kind == KeyboardConnectionKind::Pogo,
{
    reveal_strlit("detached");
    reveal_strlit("bt");
    reveal_strlit("usb");
    reveal_strlit("pogo");
    assert("detached"@.len() == 8 && "bt"@.len() == 2 && "usb"@.len() == 3 && "pogo"@.len() == 4);
}

/// What a change is about reads back as the change says.
pub proof fn law_stored_change_is_read_back(s: PersistedDisplayView, change: DisplayStateChange)
    ensures
        ({
            let t = s.changed_by(change);
            match change {
                DisplayStateChange::Primary(p) => t.desired_primary == Some(p@),
                DisplayStateChange::SecondaryEnabled(b) => t.desired_secondary_enabled == Some(b),
                DisplayStateChange::Brightness(n) => t.display_brightness == Some(n),
                DisplayStateChange::AmbientLightEnabled(b) => t.ambient_light_enabled == Some(b),
                DisplayStateChange::Mode { attachment, layout } => t.desired_display_attachment
                    == Some(attachment@) && t.desired_display_layout == Some(layout@),
                DisplayStateChange::TabletMappingEnabled(b) => t.tablet_mapping_enabled == Some(b),
                DisplayStateChange::TabletMappingMode(m) => t.tablet_mapping_mode == Some(
                    crate::config::mode_text(m),
                ),
            }
        }),
{
}

/// A change leaves all that it is not about as it was.
pub proof fn law_stored_change_keeps_the_rest(s: PersistedDisplayView, change: DisplayStateChange)
    ensures
        ({
            let t = s.changed_by(change);
            &&& change is Primary || t.desired_primary == s.desired_primary
            &&& change is SecondaryEnabled || t.desired_secondary_enabled
                == s.desired_secondary_enabled
            &&& change is Brightness || t.display_brightness == s.display_brightness
            &&& change is AmbientLightEnabled || t.ambient_light_enabled == s.ambient_light_enabled
            &&& change is Mode || t.desired_display_attachment == s.desired_display_attachment
            &&& change is Mode || t.desired_display_layout == s.desired_display_layout
            &&& change is TabletMappingEnabled || t.tablet_mapping_enabled
                == s.tablet_mapping_enabled
            &&& change is TabletMappingMode || t.tablet_mapping_mode == s.tablet_mapping_mode
        }),
{
}

/// What is stored of the pens' mapping is in force; the defaults are where nothing usable is.
pub proof fn law_stored_mapping_wins(snap: PersistedDisplayView, defaults: TabletMappingConfig)
    ensures
        ({
            let r = resolved_tablet_mapping(snap, defaults);
            &&& snap.tablet_mapping_enabled matches Some(b) ==> r.enable == b
            &&& snap.tablet_mapping_enabled is None ==> r.enable == defaults.enable
            &&& snap.tablet_mapping_mode == Some("one_to_one"@) ==> r.mode
                == TabletMapMode::OneToOne
            &&& snap.tablet_mapping_mode == Some("all_to_primary"@) ==> r.mode
                == TabletMapMode::AllToPrimary
            &&& snap.tablet_mapping_mode != Some("one_to_one"@) && snap.tablet_mapping_mode != Some(
                "all_to_primary"@,
            ) ==> r.mode == defaults.mode
        }),
{
    crate::config::law_mode_names("one_to_one"@);
    crate::config::law_mode_names("all_to_primary"@);
    match snap.tablet_mapping_mode {
        Some(name) => {
            crate::config::law_mode_names(name);
        },
        None => {},
    }
}

/// A mode that was stored is in force afterwards, whatever the defaults.
pub proof fn law_stored_mode_is_in_force(
    snap: PersistedDisplayView,
    mode: TabletMapMode,
    enabled: bool,
    defaults: TabletMappingConfig,
)
    ensures
        ({
            let stored = snap.changed_by(DisplayStateChange::TabletMappingMode(mode)).changed_by(
                DisplayStateChange::TabletMappingEnabled(enabled),
            );
            resolved_tablet_mapping(stored, defaults) == (TabletMappingConfig {
                enable: enabled,
                mode,
            })
        }),
{
    crate::config::law_mode_name_round_trip(mode);
}

/// Without a stored mode the internal panels are side by side; a stored one is taken as it is.
pub proof fn law_stored_display_mode_wins(snap: PersistedDisplayView)
    ensures
        snap.desired_display_attachment matches Some(a) ==> resolved_display_mode(snap).0 == a,
        snap.desired_display_attachment is None ==> resolved_display_mode(snap).0
            == "builtin_only"@,
        snap.desired_display_layout matches Some(l) ==> resolved_display_mode(snap).1 == l,
        snap.desired_display_layout is None ==> resolved_display_mode(snap).1 == "joined"@,
        KEYBOARD_CONNECTION_GRACE_MS == 1000,
{
}

/// The attachments and layouts that are accepted.
pub proof fn law_accepted_display_modes(text: Seq<char>)
    ensures
        known_attachment("builtin_only"@) && known_attachment("external_only"@) && known_attachment(
            "all_connected"@,
        ),
        known_attachment(text) ==> text == "builtin_only"@ || text == "external_only"@ || text
            == "all_connected"@,
        known_layout("mirror"@) && known_layout("joined"@),
        known_layout(text) ==> text == "mirror"@ || text == "joined"@,
{
}

/// The stored state is seen field by field.
pub proof fn law_stored_state_is_seen_as_it_is(s: PersistedDisplayState, text: String)
    ensures
        text_view(Some(text)) == Some(text@),
        text_view(None) is None,
        s@.desired_primary == text_view(s.desired_primary),
        s@.desired_secondary_enabled == s.desired_secondary_enabled,
        s@.display_brightness == s.display_brightness,
        s@.ambient_light_enabled == s.ambient_light_enabled,
        s@.desired_display_attachment == text_view(s.desired_display_attachment),
        s@.desired_display_layout == text_view(s.desired_display_layout),
        s@.tablet_mapping_enabled == s.tablet_mapping_enabled,
        s@.tablet_mapping_mode == text_view(s.tablet_mapping_mode),
{
}

} // verus!
