//! The root daemon's state: every operation changes it and says what is to be told, stored or
//! started in consequence.
use vstd::prelude::*;

use crate::config::{tablet_mode_to_str, TabletMapMode, TabletMappingConfig};
use crate::events::Event;
use crate::keyboard_battery::{usb_battery_charging, usb_battery_full};
use crate::state::{
    get_desired_display_mode_from_snapshot, resolve_tablet_mapping_config, DisplayStateChange,
    KeyboardBacklightState, KeyboardConnectionKind, PersistedDisplayState,
    PersistedKeyboardBattery, KEYBOARD_CONNECTION_GRACE_MS,
};
use crate::text::same;

verus! {

// ── The state and what follows from it ───────────────────────────────────────

/// What decides how bright the keyboard is.
#[derive(Clone, Copy, Debug, PartialEq, Eq, Structural)]
pub struct LightState {
    /// What the user asked for.
    pub backlight: KeyboardBacklightState,
    /// While suspended, backlight and microphone LED are off.
    pub is_suspended: bool,
    /// While idle, the backlight is off.
    pub is_idle: bool,
    pub ambient_keyboard_backlight_enabled: bool,
    pub ambient_light_available: bool,
    /// The last reading of the light sensor, if any: whether it was at or below the threshold for
    /// low light.
    pub ambient_light_low: Option<bool>,
}

impl LightState {
    pub open spec fn low_light(self) -> bool {
        self.ambient_keyboard_backlight_enabled && self.ambient_light_available
            && self.ambient_light_low == Some(true)
    }

    /// The backlight as shown: off while suspended or idle, at least low in low light.
    pub open spec fn effective(self) -> KeyboardBacklightState {
        if self.is_suspended || self.is_idle {
            KeyboardBacklightState::Off
        } else if self.low_light() {
            self.backlight.brighter(KeyboardBacklightState::Low)
        } else {
            self.backlight
        }
    }
}

/// How the keyboard is connected. Times are milliseconds of a clock that never runs backwards.
#[derive(Clone, Copy, Debug, PartialEq, Eq, Structural)]
pub struct LinkState {
    pub is_usb_connected: bool,
    pub is_pogo_docked: bool,
    pub bt_connected_count: usize,
    pub keyboard_last_connection_kind: KeyboardConnectionKind,
    pub keyboard_disconnected_at: Option<u64>,
}

impl LinkState {
    /// The connection at this moment: the dock before other USB, USB before Bluetooth.
    pub open spec fn raw_kind(self) -> KeyboardConnectionKind {
        if self.is_pogo_docked {
            KeyboardConnectionKind::Pogo
        } else if self.is_usb_connected {
            KeyboardConnectionKind::Usb
        } else if self.bt_connected_count > 0 {
            KeyboardConnectionKind::Bluetooth
        } else {
            KeyboardConnectionKind::Detached
        }
    }

    pub open spec fn in_grace(self, now: u64) -> bool {
        self.keyboard_disconnected_at matches Some(at) && now - at < KEYBOARD_CONNECTION_GRACE_MS
    }

    /// The connection as published: a keyboard that has just gone counts as connected for a
    /// moment longer.
    pub open spec fn effective_kind(self, now: u64) -> KeyboardConnectionKind {
        if self.raw_kind() != KeyboardConnectionKind::Detached {
            self.raw_kind()
        } else if self.in_grace(now) {
            self.keyboard_last_connection_kind
        } else {
            KeyboardConnectionKind::Detached
        }
    }

    /// The memory of the last connection agrees with the present one.
    pub open spec fn well_formed(self) -> bool {
        &&& self.raw_kind() != KeyboardConnectionKind::Detached
            ==> self.keyboard_last_connection_kind == self.raw_kind()
            && self.keyboard_disconnected_at is None
        &&& self.raw_kind() == KeyboardConnectionKind::Detached
            && self.keyboard_last_connection_kind != KeyboardConnectionKind::Detached
            ==> self.keyboard_disconnected_at is Some
    }

    /// The keyboard has just gone.
    pub open spec fn grace_starts(self) -> bool {
        self.raw_kind() == KeyboardConnectionKind::Detached && self.keyboard_last_connection_kind
            != KeyboardConnectionKind::Detached && self.keyboard_disconnected_at is None
    }

    /// The state with its memory of the last connection brought up to date.
    pub open spec fn remembered(self, now: u64) -> LinkState {
        if self.raw_kind() != KeyboardConnectionKind::Detached {
            LinkState {
                keyboard_last_connection_kind: self.raw_kind(),
                keyboard_disconnected_at: None,
                ..self
            }
        } else if self.grace_starts() {
            LinkState { keyboard_disconnected_at: Some(now), ..self }
        } else {
            self
        }
    }

    pub open spec fn with_usb(self, usb: bool, pogo: bool) -> LinkState {
        LinkState { is_usb_connected: usb, is_pogo_docked: pogo, ..self }
    }

    pub open spec fn with_bluetooth(self, count: int) -> LinkState {
        LinkState { bt_connected_count: count as usize, ..self }
    }

    fn raw_keyboard_connection_kind(&self) -> (r: KeyboardConnectionKind)
        ensures
            r == self.raw_kind(),
    {
        if self.is_pogo_docked {
            KeyboardConnectionKind::Pogo
        } else if self.is_usb_connected {
            KeyboardConnectionKind::Usb
        } else if self.bt_connected_count > 0 {
            KeyboardConnectionKind::Bluetooth
        } else {
            KeyboardConnectionKind::Detached
        }
    }

    /// The connection as published.
    pub fn effective_keyboard_connection_kind(&self, now: u64) -> (r: KeyboardConnectionKind)
        ensures
            r == self.effective_kind(now),
    {
        let raw = self.raw_keyboard_connection_kind();
        if raw.is_connected() {
            return raw;
        }
        match self.keyboard_disconnected_at {
            Some(at) => if now < at || now - at < KEYBOARD_CONNECTION_GRACE_MS {
                self.keyboard_last_connection_kind
            } else {
                KeyboardConnectionKind::Detached
            },
            None => KeyboardConnectionKind::Detached,
        }
    }

    fn update_keyboard_connection_tracking(&self, now: u64) -> (r: (LinkState, bool))
        ensures
            r.0 == self.remembered(now),
            r.1 == self.grace_starts(),
            r.0.well_formed(),
    {
        let raw = self.raw_keyboard_connection_kind();
        if raw.is_connected() {
            (
                LinkState {
                    keyboard_last_connection_kind: raw,
                    keyboard_disconnected_at: None,
                    ..*self
                },
                false,
            )
        } else if self.keyboard_last_connection_kind.is_connected()
            && self.keyboard_disconnected_at.is_none() {
            (LinkState { keyboard_disconnected_at: Some(now), ..*self }, true)
        } else {
            (*self, false)
        }
    }
}

/// The keyboard's battery: the present level, if a source reports one, and the last known one.
#[derive(Clone, Copy, Debug, PartialEq, Eq, Structural)]
pub struct BatteryState {
    pub keyboard_battery_pct: Option<u8>,
    pub keyboard_battery_charging: bool,
    pub keyboard_battery_full: bool,
    /// Kept across detach and reconnect.
    pub keyboard_battery_last_known_pct: Option<u8>,
    pub keyboard_battery_last_known_full: bool,
}

impl BatteryState {
    /// Without a level there is no status.
    pub open spec fn well_formed(self) -> bool {
        self.keyboard_battery_pct is None ==> !self.keyboard_battery_charging
            && !self.keyboard_battery_full
    }

    pub open spec fn unknown(self) -> BatteryState {
        BatteryState {
            keyboard_battery_pct: None,
            keyboard_battery_charging: false,
            keyboard_battery_full: false,
            ..self
        }
    }

    pub open spec fn level(pct: u8, charging: bool, full: bool) -> BatteryState {
        BatteryState {
            keyboard_battery_pct: Some(pct),
            keyboard_battery_charging: charging,
            keyboard_battery_full: full,
            keyboard_battery_last_known_pct: Some(pct),
            keyboard_battery_last_known_full: full,
        }
    }

    pub open spec fn last_known(self, pct: u8, full: bool) -> BatteryState {
        BatteryState {
            keyboard_battery_last_known_pct: Some(pct),
            keyboard_battery_last_known_full: full,
            ..self
        }
    }
}

/// The lower panel: whether it is wanted, and whether it is on.
#[derive(Clone, Copy, Debug, PartialEq, Eq, Structural)]
pub struct SecondaryState {
    pub desired_secondary_display_enabled: bool,
    pub is_secondary_display_enabled: bool,
}

impl SecondaryState {
    /// The panel is on exactly when it is wanted and not covered.
    pub open spec fn wanted(desired: bool, docked: bool) -> SecondaryState {
        SecondaryState {
            desired_secondary_display_enabled: desired,
            is_secondary_display_enabled: desired && !docked,
        }
    }
}

/// The pens' mapping.
#[derive(Clone, Copy, Debug, PartialEq, Eq, Structural)]
pub struct TabletState {
    pub tablet_mapping_enabled: bool,
    pub tablet_mapping_mode: TabletMapMode,
    /// Counts the requests to map the pens again.
    pub tablet_mapping_apply_nonce: u32,
}

/// All that the root daemon knows.
pub struct InnerState {
    pub light: LightState,
    pub mic_mute_led: bool,
    pub link: LinkState,
    pub battery: BatteryState,
    pub secondary: SecondaryState,
    pub ambient_light_enabled: bool,
    pub idle_timeout_seconds: u64,
    pub desired_primary: Option<String>,
    pub desired_display_attachment: String,
    pub desired_display_layout: String,
    pub display_rotation: String,
    pub display_brightness: Option<u32>,
    pub tablet: TabletState,
}

impl InnerState {
    /// What holds between any two operations.
    pub open spec fn well_formed(self) -> bool {
        &&& self.link.well_formed()
        &&& self.battery.well_formed()
        &&& self.secondary == SecondaryState::wanted(
            self.secondary.desired_secondary_display_enabled,
            self.link.is_pogo_docked,
        )
    }

    /// The microphone LED as shown.
    pub open spec fn effective_mic_led(self) -> bool {
        self.mic_mute_led && !self.light.is_suspended
    }

    /// The state after the keyboard's USB connection was found to be as given.
    pub open spec fn with_usb(self, usb: bool, pogo: bool, now: u64) -> InnerState {
        InnerState {
            link: self.link.with_usb(usb, pogo).remembered(now),
            battery: if usb {
                self.battery
            } else {
                self.battery.unknown()
            },
            secondary: SecondaryState::wanted(
                self.secondary.desired_secondary_display_enabled,
                pogo,
            ),
            ..self
        }
    }
}

// ── Effects ──────────────────────────────────────────────────────────────────

/// What is published on the bus.
#[derive(Clone, Copy, Debug, PartialEq, Eq, Structural)]
pub enum Publication {
    KeyboardUsbConnected,
    KeyboardPogoDocked,
    KeyboardBattery,
    KeyboardConnection,
    BluetoothConnected,
    MicMuteLed,
    KeyboardBacklight { requested: bool, effective: bool },
    AmbientKeyboardBacklight,
    IdleTimeout,
    DisplayRotation,
    DisplayBrightness,
    TabletMapping,
    TabletMappingApplyNonce,
}

/// A consequence of an operation.
pub enum StateEffect {
    /// Tell the other tasks.
    Emit(Event),
    Publish(Publication),
    /// Change the stored display state.
    StoreDisplay(DisplayStateChange),
    StoreBacklight(KeyboardBacklightState),
    StoreBattery(PersistedKeyboardBattery),
    /// Ask the Bluetooth daemon for the battery.
    RefreshBluetoothBattery,
    /// Read the stored battery again.
    RestoreBattery,
    /// Publish the connection again when the grace period is over.
    ScheduleConnectionRefresh,
}

pub open spec fn when(b: bool, effects: Seq<StateEffect>) -> Seq<StateEffect> {
    if b {
        effects
    } else {
        Seq::empty()
    }
}

/// A change of the requested or of the shown backlight is published.
pub open spec fn backlight_published(requested: bool, effective: bool) -> Seq<StateEffect> {
    when(
        requested || effective,
        seq![StateEffect::Publish(Publication::KeyboardBacklight { requested, effective })],
    )
}

/// The keyboard was connected to USB or disconnected from it.
pub open spec fn usb_published() -> Seq<StateEffect> {
    seq![
        StateEffect::Publish(Publication::KeyboardUsbConnected),
        StateEffect::Publish(Publication::KeyboardBattery),
        StateEffect::Publish(Publication::KeyboardConnection),
    ]
}

/// The keyboard was put on the dock or taken off it.
pub open spec fn dock_published(docked: bool) -> Seq<StateEffect> {
    seq![
        StateEffect::Emit(Event::KeyboardPogoDocked(docked)),
        StateEffect::Publish(Publication::KeyboardPogoDocked),
        StateEffect::Publish(Publication::KeyboardBattery),
        StateEffect::Publish(Publication::KeyboardConnection),
    ]
}

/// What follows from the differences that a look at the keyboard's USB connection has shown.
pub open spec fn connection_effects(d: ConnectionDifference) -> Seq<StateEffect> {
    when(d.refresh_bluetooth, seq![StateEffect::RefreshBluetoothBattery]) + when(
        d.restore_battery,
        seq![StateEffect::RestoreBattery],
    ) + when(d.usb_changed, usb_published()) + when(d.dock_changed, dock_published(d.docked))
        + when(d.grace_started, seq![StateEffect::ScheduleConnectionRefresh]) + when(
        d.secondary_changed,
        seq![StateEffect::Emit(Event::SecondaryDisplay(d.secondary))],
    )
}

/// What a look at the keyboard's USB connection has shown.
#[derive(Clone, Copy)]
pub struct ConnectionDifference {
    pub refresh_bluetooth: bool,
    pub restore_battery: bool,
    pub usb_changed: bool,
    pub dock_changed: bool,
    pub docked: bool,
    pub grace_started: bool,
    pub secondary_changed: bool,
    pub secondary: bool,
}

/// What differs when the keyboard's USB connection is found to be as given.
pub open spec fn usb_difference(s: InnerState, usb: bool, pogo: bool) -> ConnectionDifference {
    let secondary = s.secondary.desired_secondary_display_enabled && !pogo;
    ConnectionDifference {
        refresh_bluetooth: s.link.is_usb_connected && !usb && s.link.bt_connected_count > 0,
        restore_battery: !s.link.is_usb_connected && usb,
        usb_changed: s.link.is_usb_connected != usb,
        dock_changed: s.link.is_pogo_docked != pogo,
        docked: pogo,
        grace_started: s.link.with_usb(usb, pogo).grace_starts(),
        secondary_changed: s.secondary.is_secondary_display_enabled != secondary,
        secondary,
    }
}

// ── Operations ───────────────────────────────────────────────────────────────

/// Keeper of the state.
pub struct KeyboardStateManager {
    state: InnerState,
}

impl View for KeyboardStateManager {
    type V = InnerState;

    closed spec fn view(&self) -> InnerState {
        self.state
    }
}

fn publish_backlight(effects: &mut Vec<StateEffect>, requested: bool, effective: bool)
    ensures
        final(effects)@ == old(effects)@ + backlight_published(requested, effective),
{
    if requested || effective {
        effects.push(
            StateEffect::Publish(Publication::KeyboardBacklight { requested, effective }),
        );
    }
}

fn push_if(effects: &mut Vec<StateEffect>, b: bool, effect: StateEffect)
    ensures
        final(effects)@ == old(effects)@ + when(b, seq![effect]),
{
    if b {
        effects.push(effect);
    }
}

fn publish_usb_if(effects: &mut Vec<StateEffect>, b: bool)
    ensures
        final(effects)@ == old(effects)@ + when(b, usb_published()),
{
    if b {
        effects.push(StateEffect::Publish(Publication::KeyboardUsbConnected));
        effects.push(StateEffect::Publish(Publication::KeyboardBattery));
        effects.push(StateEffect::Publish(Publication::KeyboardConnection));
    }
}

fn publish_dock_if(effects: &mut Vec<StateEffect>, b: bool, docked: bool)
    ensures
        final(effects)@ == old(effects)@ + when(b, dock_published(docked)),
{
    if b {
        effects.push(StateEffect::Emit(Event::KeyboardPogoDocked(docked)));
        effects.push(StateEffect::Publish(Publication::KeyboardPogoDocked));
        effects.push(StateEffect::Publish(Publication::KeyboardBattery));
        effects.push(StateEffect::Publish(Publication::KeyboardConnection));
    }
}

fn list_connection_effects(d: ConnectionDifference) -> (effects: Vec<StateEffect>)
    ensures
        effects@ == connection_effects(d),
{
    let mut effects: Vec<StateEffect> = Vec::new();
    push_if(&mut effects, d.refresh_bluetooth, StateEffect::RefreshBluetoothBattery);
    proof {
        assert(effects@ =~= when(
            d.refresh_bluetooth,
            seq![StateEffect::RefreshBluetoothBattery],
        ));
    }
    push_if(&mut effects, d.restore_battery, StateEffect::RestoreBattery);
    publish_usb_if(&mut effects, d.usb_changed);
    publish_dock_if(&mut effects, d.dock_changed, d.docked);
    push_if(&mut effects, d.grace_started, StateEffect::ScheduleConnectionRefresh);
    push_if(
        &mut effects,
        d.secondary_changed,
        StateEffect::Emit(Event::SecondaryDisplay(d.secondary)),
    );
    effects
}

impl KeyboardStateManager {
    /// Whether the backlight is to be raised for low light.
    pub fn low_light_active(light: &LightState) -> (r: bool)
        ensures
            r == light.low_light(),
    {
        light.ambient_keyboard_backlight_enabled && light.ambient_light_available && (
        match light.ambient_light_low {
            Some(low) => low,
            None => false,
        })
    }

    /// The backlight as shown.
    pub fn effective_keyboard_backlight(state: &InnerState) -> (r: KeyboardBacklightState)
        ensures
            r == state.light.effective(),
    {
        Self::effective_light(&state.light)
    }

    fn effective_light(light: &LightState) -> (r: KeyboardBacklightState)
        ensures
            r == light.effective(),
    {
        if light.is_suspended || light.is_idle {
            return KeyboardBacklightState::Off;
        }
        if Self::low_light_active(light) {
            light.backlight.max(KeyboardBacklightState::Low)
        } else {
            light.backlight
        }
    }

    fn move_usb(&mut self, usb_connected: bool, pogo_docked: bool, now: u64) -> (d:
        ConnectionDifference)
        requires
            old(self)@.well_formed(),
        ensures
            final(self)@ == old(self)@.with_usb(usb_connected, pogo_docked, now),
            d == usb_difference(old(self)@, usb_connected, pogo_docked),
            final(self)@.well_formed(),
    {
        let link = self.state.link;
        let desired = self.state.secondary.desired_secondary_display_enabled;
        let was_on = self.state.secondary.is_secondary_display_enabled;
        let usb_changed = link.is_usb_connected != usb_connected;
        let moved = LinkState {
            is_usb_connected: usb_connected,
            is_pogo_docked: pogo_docked,
            ..link
        };
        let (updated, grace_started) = moved.update_keyboard_connection_tracking(now);
        self.state.link = updated;
        if !usb_connected {
            self.state.battery = Self::without_level(self.state.battery);
        }
        let secondary = desired && !pogo_docked;
        self.state.secondary = SecondaryState {
            desired_secondary_display_enabled: desired,
            is_secondary_display_enabled: secondary,
        };
        ConnectionDifference {
            refresh_bluetooth: usb_changed && !usb_connected && link.bt_connected_count > 0,
            restore_battery: usb_changed && usb_connected,
            usb_changed,
            dock_changed: link.is_pogo_docked != pogo_docked,
            docked: pogo_docked,
            grace_started,
            secondary_changed: was_on != secondary,
            secondary,
        }
    }

    fn without_level(battery: BatteryState) -> (r: BatteryState)
        ensures
            r == battery.unknown(),
    {
        BatteryState {
            keyboard_battery_pct: None,
            keyboard_battery_charging: false,
            keyboard_battery_full: false,
            ..battery
        }
    }

    /// The keyboard's USB connection and dock were found to be as given.
    pub fn set_usb_keyboard_connection(&mut self, usb_connected: bool, pogo_docked: bool, now: u64)
        -> (effects: Vec<StateEffect>)
        requires
            old(self)@.well_formed(),
        ensures
            final(self)@ == old(self)@.with_usb(usb_connected, pogo_docked, now),
            effects@ == connection_effects(
                usb_difference(old(self)@, usb_connected, pogo_docked),
            ),
            final(self)@.well_formed(),
    {
        let difference = self.move_usb(usb_connected, pogo_docked, now);
        list_connection_effects(difference)
    }

    /// The state at start: connections as found, desires as stored.
    pub fn new(
        is_usb_connected: bool,
        is_pogo_docked: bool,
        idle_timeout_seconds: u64,
        ambient_keyboard_backlight_enabled: bool,
        tablet_defaults: TabletMappingConfig,
        snap: &PersistedDisplayState,
        battery: Option<PersistedKeyboardBattery>,
        backlight: KeyboardBacklightState,
    ) -> (r: (Self, Vec<StateEffect>))
        ensures
            r.0@.well_formed(),
            r.0@.light == (LightState {
                backlight,
                is_suspended: false,
                is_idle: false,
                ambient_keyboard_backlight_enabled,
                ambient_light_available: false,
                ambient_light_low: None,
            }),
            !r.0@.mic_mute_led,
            r.0@.link.is_usb_connected == is_usb_connected,
            r.0@.link.is_pogo_docked == is_pogo_docked,
            r.0@.link.bt_connected_count == 0,
            r.0@.link.keyboard_last_connection_kind == r.0@.link.raw_kind(),
            r.0@.link.keyboard_disconnected_at is None,
            r.0@.battery == stored_battery(battery),
            r.0@.secondary.desired_secondary_display_enabled == (snap.desired_secondary_enabled
                != Some(false)),
            r.0@.ambient_light_enabled == (snap.ambient_light_enabled == Some(true)),
            r.0@.idle_timeout_seconds == idle_timeout_seconds,
            r.0@.desired_primary == snap.desired_primary,
            (r.0@.desired_display_attachment@, r.0@.desired_display_layout@)
                == crate::state::resolved_display_mode(snap@),
            r.0@.display_rotation@ == "normal"@,
            r.0@.display_brightness == snap.display_brightness,
            r.0@.tablet.config() == crate::state::resolved_tablet_mapping(snap@, tablet_defaults),
            r.0@.tablet.tablet_mapping_apply_nonce == 0,
            r.1@ == when(
                snap.ambient_light_enabled is None,
                seq![StateEffect::StoreDisplay(DisplayStateChange::AmbientLightEnabled(false))],
            ),
    {
        let desired_secondary_display_enabled = match snap.desired_secondary_enabled {
            Some(b) => b,
            None => true,
        };
        let ambient_light_enabled = match snap.ambient_light_enabled {
            Some(b) => b,
            None => false,
        };
        let (desired_display_attachment, desired_display_layout) =
            get_desired_display_mode_from_snapshot(snap);
        let tablet_mapping = resolve_tablet_mapping_config(snap, tablet_defaults);
        let mut effects: Vec<StateEffect> = Vec::new();
        push_if(
            &mut effects,
            snap.ambient_light_enabled.is_none(),
            StateEffect::StoreDisplay(
                DisplayStateChange::AmbientLightEnabled(ambient_light_enabled),
            ),
        );
        let desired_primary = match &snap.desired_primary {
            Some(p) => Some(p.clone()),
            None => None,
        };
        let state = InnerState {
            light: LightState {
                backlight,
                is_suspended: false,
                is_idle: false,
                ambient_keyboard_backlight_enabled,
                ambient_light_available: false,
                ambient_light_low: None,
            },
            mic_mute_led: false,
            link: LinkState {
                is_usb_connected,
                is_pogo_docked,
                bt_connected_count: 0,
                keyboard_last_connection_kind: if is_pogo_docked {
                    KeyboardConnectionKind::Pogo
                } else if is_usb_connected {
                    KeyboardConnectionKind::Usb
                } else {
                    KeyboardConnectionKind::Detached
                },
                keyboard_disconnected_at: None,
            },
            battery: Self::battery_at_start(battery),
            secondary: SecondaryState {
                desired_secondary_display_enabled,
                is_secondary_display_enabled: desired_secondary_display_enabled && !is_pogo_docked,
            },
            ambient_light_enabled,
            idle_timeout_seconds,
            desired_primary,
            desired_display_attachment,
            desired_display_layout,
            display_rotation: "normal".to_owned(),
            display_brightness: snap.display_brightness,
            tablet: TabletState {
                tablet_mapping_enabled: tablet_mapping.enable,
                tablet_mapping_mode: tablet_mapping.mode,
                tablet_mapping_apply_nonce: 0,
            },
        };
        (KeyboardStateManager { state }, effects)
    }

    fn battery_at_start(battery: Option<PersistedKeyboardBattery>) -> (r: BatteryState)
        ensures
            r == stored_battery(battery),
    {
        let (pct, full) = match battery {
            Some(b) => (
                if b.pct > 0 || b.full {
                    Some(b.pct)
                } else {
                    None
                },
                b.full,
            ),
            None => (None, false),
        };
        BatteryState {
            keyboard_battery_pct: None,
            keyboard_battery_charging: false,
            keyboard_battery_full: false,
            keyboard_battery_last_known_pct: pct,
            keyboard_battery_last_known_full: full,
        }
    }

    // ── Light ────────────────────────────────────────────────────────────────

    fn change_light(&mut self, light: LightState, effects: &mut Vec<StateEffect>)
        ensures
            final(self)@ == (InnerState { light, ..old(self)@ }),
            final(effects)@ == old(effects)@ + light_told(old(self)@.light, light),
    {
        let before = Self::effective_light(&self.state.light);
        let after = Self::effective_light(&light);
        self.state.light = light;
        if before != after {
            effects.push(StateEffect::Emit(Event::Backlight(after)));
            publish_backlight(effects, false, true);
        }
    }

    /// The machine is about to sleep: backlight and microphone LED go off.
    pub fn suspend_start(&mut self) -> (effects: Vec<StateEffect>)
        requires
            old(self)@.well_formed(),
        ensures
            final(self)@ == (InnerState {
                light: (LightState { is_suspended: true, ..old(self)@.light }),
                ..old(self)@
            }),
            effects@ == seq![StateEffect::Emit(Event::MicMuteLed(false))] + light_told(
                old(self)@.light,
                final(self)@.light,
            ),
            final(self)@.well_formed(),
    {
        let mut effects: Vec<StateEffect> = Vec::new();
        effects.push(StateEffect::Emit(Event::MicMuteLed(false)));
        let light = LightState { is_suspended: true, ..self.state.light };
        self.change_light(light, &mut effects);
        effects
    }

    /// The machine has woken up: backlight and microphone LED are as before.
    pub fn suspend_end(&mut self) -> (effects: Vec<StateEffect>)
        requires
            old(self)@.well_formed(),
        ensures
            final(self)@ == (InnerState {
                light: (LightState { is_suspended: false, ..old(self)@.light }),
                ..old(self)@
            }),
            effects@ == seq![StateEffect::Emit(Event::MicMuteLed(old(self)@.mic_mute_led))]
                + light_told(old(self)@.light, final(self)@.light),
            final(self)@.well_formed(),
    {
        let mut effects: Vec<StateEffect> = Vec::new();
        effects.push(StateEffect::Emit(Event::MicMuteLed(self.state.mic_mute_led)));
        let light = LightState { is_suspended: false, ..self.state.light };
        self.change_light(light, &mut effects);
        effects
    }

    /// Nobody has typed for a while: the backlight goes off.
    pub fn idle_start(&mut self) -> (effects: Vec<StateEffect>)
        requires
            old(self)@.well_formed(),
        ensures
            final(self)@ == (InnerState {
                light: (LightState { is_idle: true, ..old(self)@.light }),
                ..old(self)@
            }),
            effects@ == light_told(old(self)@.light, final(self)@.light),
            final(self)@.well_formed(),
    {
        let mut effects: Vec<StateEffect> = Vec::new();
        let light = LightState { is_idle: true, ..self.state.light };
        self.change_light(light, &mut effects);
        effects
    }

    /// Somebody types again: the backlight is as before.
    pub fn idle_end(&mut self) -> (effects: Vec<StateEffect>)
        requires
            old(self)@.well_formed(),
        ensures
            final(self)@ == (InnerState {
                light: (LightState { is_idle: false, ..old(self)@.light }),
                ..old(self)@
            }),
            effects@ == light_told(old(self)@.light, final(self)@.light),
            final(self)@.well_formed(),
    {
        let mut effects: Vec<StateEffect> = Vec::new();
        let light = LightState { is_idle: false, ..self.state.light };
        self.change_light(light, &mut effects);
        effects
    }

    /// The user asks for a backlight. It is stored even if it is not shown now.
    pub fn set_keyboard_backlight(&mut self, new_state: KeyboardBacklightState) -> (effects: Vec<
        StateEffect,
    >)
        requires
            old(self)@.well_formed(),
        ensures
            final(self)@ == (InnerState {
                light: (LightState { backlight: new_state, ..old(self)@.light }),
                ..old(self)@
            }),
            effects@ == backlight_requested(old(self)@.light, new_state),
            final(self)@.well_formed(),
    {
        let before = self.state.light;
        let light = LightState { backlight: new_state, ..before };
        self.state.light = light;
        let shown_before = Self::effective_light(&before);
        let shown = Self::effective_light(&light);
        let requested_changed = before.backlight != new_state;
        let effective_changed = shown_before != shown;
        let mut effects: Vec<StateEffect> = Vec::new();
        effects.push(StateEffect::StoreBacklight(new_state));
        push_if(
            &mut effects,
            requested_changed || effective_changed,
            StateEffect::Emit(Event::Backlight(shown)),
        );
        publish_backlight(&mut effects, requested_changed, effective_changed);
        effects
    }

    /// The backlight key was pressed.
    pub fn toggle_keyboard_backlight(&mut self) -> (effects: Vec<StateEffect>)
        requires
            old(self)@.well_formed(),
        ensures
            final(self)@ == (InnerState {
                light: (LightState {
                    backlight: old(self)@.light.backlight.successor(),
                    ..old(self)@.light
                }),
                ..old(self)@
            }),
            effects@ == backlight_requested(
                old(self)@.light,
                old(self)@.light.backlight.successor(),
            ),
            final(self)@.well_formed(),
    {
        let next = self.state.light.backlight.next();
        self.set_keyboard_backlight(next)
    }

    /// Turns the raising of the backlight in low light on or off.
    pub fn set_ambient_keyboard_backlight_enabled(&mut self, enabled: bool) -> (effects: Vec<
        StateEffect,
    >)
        requires
            old(self)@.well_formed(),
        ensures
            final(self)@ == (InnerState {
                light: (LightState {
                    ambient_keyboard_backlight_enabled: enabled,
                    ..old(self)@.light
                }),
                ..old(self)@
            }),
            effects@ == when(
                old(self)@.light.ambient_keyboard_backlight_enabled != enabled,
                ambient_told(old(self)@.light, final(self)@.light),
            ),
            final(self)@.well_formed(),
    {
        let mut effects: Vec<StateEffect> = Vec::new();
        let before = self.state.light;
        if before.ambient_keyboard_backlight_enabled == enabled {
            return effects;
        }
        let light = LightState { ambient_keyboard_backlight_enabled: enabled, ..before };
        self.state.light = light;
        Self::tell_ambient(&before, &light, &mut effects);
        effects
    }

    fn tell_ambient(before: &LightState, after: &LightState, effects: &mut Vec<StateEffect>)
        ensures
            final(effects)@ == old(effects)@ + ambient_told(*before, *after),
    {
        let shown_before = Self::effective_light(before);
        let shown = Self::effective_light(after);
        push_if(effects, shown_before != shown, StateEffect::Emit(Event::Backlight(shown)));
        effects.push(StateEffect::Publish(Publication::AmbientKeyboardBacklight));
        publish_backlight(effects, false, shown_before != shown);
        proof {
            assert(effects@ =~= old(effects)@ + ambient_told(*before, *after));
        }
    }

    /// The light sensor has come or gone; without it there is no reading.
    pub fn set_ambient_light_sensor_available(&mut self, available: bool) -> (effects: Vec<
        StateEffect,
    >)
        requires
            old(self)@.well_formed(),
        ensures
            old(self)@.light.ambient_light_available == available ==> final(self)@ == old(self)@
                && effects@ == Seq::<StateEffect>::empty(),
            old(self)@.light.ambient_light_available != available ==> final(self)@ == (InnerState {
                light: (LightState {
                    ambient_light_available: available,
                    ambient_light_low: if available {
                        old(self)@.light.ambient_light_low
                    } else {
                        None
                    },
                    ..old(self)@.light
                }),
                ..old(self)@
            }) && effects@ == ambient_told(old(self)@.light, final(self)@.light),
            final(self)@.well_formed(),
    {
        let mut effects: Vec<StateEffect> = Vec::new();
        let before = self.state.light;
        if before.ambient_light_available == available {
            return effects;
        }
        let light = LightState {
            ambient_light_available: available,
            ambient_light_low: if available {
                before.ambient_light_low
            } else {
                None
            },
            ..before
        };
        self.state.light = light;
        Self::tell_ambient(&before, &light, &mut effects);
        effects
    }

    /// The light sensor reports: whether the light is at or below the threshold for low light.
    pub fn set_ambient_light_lux(&mut self, low: Option<bool>) -> (effects: Vec<StateEffect>)
        requires
            old(self)@.well_formed(),
        ensures
            final(self)@ == (InnerState {
                light: (LightState { ambient_light_low: low, ..old(self)@.light }),
                ..old(self)@
            }),
            effects@ == light_told(old(self)@.light, final(self)@.light),
            final(self)@.well_formed(),
    {
        let mut effects: Vec<StateEffect> = Vec::new();
        let light = LightState { ambient_light_low: low, ..self.state.light };
        self.change_light(light, &mut effects);
        effects
    }

    /// The user mutes or unmutes the microphone; while suspended the LED stays off.
    pub fn set_mic_mute_led(&mut self, enabled: bool) -> (effects: Vec<StateEffect>)
        requires
            old(self)@.well_formed(),
        ensures
            final(self)@ == (InnerState { mic_mute_led: enabled, ..old(self)@ }),
            effects@ == mic_led_told(old(self)@, enabled),
            final(self)@.well_formed(),
    {
        let changed = self.state.mic_mute_led != enabled;
        self.state.mic_mute_led = enabled;
        let mut effects: Vec<StateEffect> = Vec::new();
        push_if(
            &mut effects,
            !self.state.light.is_suspended,
            StateEffect::Emit(Event::MicMuteLed(enabled)),
        );
        push_if(&mut effects, changed, StateEffect::Publish(Publication::MicMuteLed));
        effects
    }

    /// The microphone key was pressed.
    pub fn toggle_mic_mute_led(&mut self) -> (effects: Vec<StateEffect>)
        requires
            old(self)@.well_formed(),
        ensures
            final(self)@ == (InnerState {
                mic_mute_led: !old(self)@.mic_mute_led,
                ..old(self)@
            }),
            effects@ == mic_led_told(old(self)@, !old(self)@.mic_mute_led),
            final(self)@.well_formed(),
    {
        let enabled = !self.state.mic_mute_led;
        self.set_mic_mute_led(enabled)
    }

    /// The microphone LED as shown.
    pub fn get_mic_mute_led(&self) -> (r: bool)
        ensures
            r == self@.effective_mic_led(),
    {
        if self.state.light.is_suspended {
            false
        } else {
            self.state.mic_mute_led
        }
    }

    // ── Battery ──────────────────────────────────────────────────────────────

    fn take_level(&mut self, pct: u8, charging: bool, full: bool) -> (effects: Vec<StateEffect>)
        requires
            old(self)@.well_formed(),
        ensures
            final(self)@ == (InnerState {
                battery: BatteryState::level(pct, charging, full),
                ..old(self)@
            }),
            effects@ == level_told(old(self)@.battery, pct, charging, full),
            final(self)@.well_formed(),
    {
        let level = BatteryState {
            keyboard_battery_pct: Some(pct),
            keyboard_battery_charging: charging,
            keyboard_battery_full: full,
            keyboard_battery_last_known_pct: Some(pct),
            keyboard_battery_last_known_full: full,
        };
        let changed = self.state.battery != level;
        self.state.battery = level;
        let mut effects: Vec<StateEffect> = Vec::new();
        if changed {
            effects.push(
                StateEffect::StoreBattery(PersistedKeyboardBattery { pct, charging, full }),
            );
            effects.push(StateEffect::Publish(Publication::KeyboardBattery));
        }
        effects
    }

    /// The keyboard reports its battery over USB; ignored while it is not connected there.
    pub fn set_keyboard_battery_usb(&mut self, pct: u8, status: u8) -> (effects: Vec<StateEffect>)
        requires
            old(self)@.well_formed(),
        ensures
            !old(self)@.link.is_usb_connected ==> final(self)@ == old(self)@ && effects@ == Seq::<
                StateEffect,
            >::empty(),
            old(self)@.link.is_usb_connected ==> ({
                let charging = crate::keyboard_battery::charging(status, pct);
                let full = crate::keyboard_battery::full(status, pct);
                &&& final(self)@ == (InnerState {
                    battery: BatteryState::level(pct, charging, full),
                    ..old(self)@
                })
                &&& effects@ == level_told(old(self)@.battery, pct, charging, full)
            }),
            final(self)@.well_formed(),
    {
        if !self.state.link.is_usb_connected {
            return Vec::new();
        }
        let charging = usb_battery_charging(status, pct);
        let full = usb_battery_full(status, pct);
        self.take_level(pct, charging, full)
    }

    /// The Bluetooth daemon reports the battery; ignored while the keyboard is on USB.
    pub fn set_keyboard_battery_bluetooth(&mut self, pct: u8) -> (effects: Vec<StateEffect>)
        requires
            old(self)@.well_formed(),
        ensures
            old(self)@.link.is_usb_connected ==> final(self)@ == old(self)@ && effects@ == Seq::<
                StateEffect,
            >::empty(),
            !old(self)@.link.is_usb_connected ==> ({
                let full = crate::keyboard_battery::full(0, pct);
                &&& final(self)@ == (InnerState {
                    battery: BatteryState::level(pct, false, full),
                    ..old(self)@
                })
                &&& effects@ == level_told(old(self)@.battery, pct, false, full)
            }),
            final(self)@.well_formed(),
    {
        if self.state.link.is_usb_connected {
            return Vec::new();
        }
        let full = usb_battery_full(0, pct);
        self.take_level(pct, false, full)
    }

    /// Takes the stored battery as the last known one, if it says anything.
    pub fn restore_keyboard_battery_from_disk(&mut self, stored: Option<PersistedKeyboardBattery>)
        -> (effects: Vec<StateEffect>)
        requires
            old(self)@.well_formed(),
        ensures
            !says_something(stored) ==> final(self)@ == old(self)@ && effects@ == Seq::<
                StateEffect,
            >::empty(),
            says_something(stored) ==> final(self)@ == (InnerState {
                battery: old(self)@.battery.last_known(stored->0.pct, stored->0.full),
                ..old(self)@
            }) && effects@ == when(
                final(self)@.battery != old(self)@.battery,
                seq![StateEffect::Publish(Publication::KeyboardBattery)],
            ),
            final(self)@.well_formed(),
    {
        let mut effects: Vec<StateEffect> = Vec::new();
        match stored {
            None => {},
            Some(snap) => {
                if snap.pct > 0 || snap.full {
                    let before = self.state.battery;
                    let after = BatteryState {
                        keyboard_battery_last_known_pct: Some(snap.pct),
                        keyboard_battery_last_known_full: snap.full,
                        ..before
                    };
                    self.state.battery = after;
                    push_if(
                        &mut effects,
                        after != before,
                        StateEffect::Publish(Publication::KeyboardBattery),
                    );
                }
            },
        }
        effects
    }

    /// Forgets the battery level when neither USB nor Bluetooth can supply one.
    pub fn clear_keyboard_battery_if_no_source(&mut self) -> (effects: Vec<StateEffect>)
        requires
            old(self)@.well_formed(),
        ensures
            old(self)@.link.has_battery_source() ==> final(self)@ == old(self)@ && effects@
                == Seq::<StateEffect>::empty(),
            !old(self)@.link.has_battery_source() ==> final(self)@ == (InnerState {
                battery: old(self)@.battery.unknown(),
                ..old(self)@
            }) && effects@ == when(
                old(self)@.battery.keyboard_battery_pct is Some,
                seq![StateEffect::Publish(Publication::KeyboardBattery)],
            ),
            final(self)@.well_formed(),
    {
        let mut effects: Vec<StateEffect> = Vec::new();
        if self.state.link.is_usb_connected || self.state.link.bt_connected_count > 0 {
            return effects;
        }
        let had = self.state.battery.keyboard_battery_pct.is_some();
        self.state.battery = Self::without_level(self.state.battery);
        push_if(&mut effects, had, StateEffect::Publish(Publication::KeyboardBattery));
        effects
    }

    /// Whether the battery counts as charging: as reported, else while on USB unless it was full.
    pub fn is_keyboard_battery_effective_charging(&self) -> (r: bool)
        ensures
            r == (if self@.battery.keyboard_battery_pct is Some {
                self@.battery.keyboard_battery_charging
            } else {
                !self@.battery.keyboard_battery_last_known_full && (
                self@.link.is_usb_connected || self@.link.is_pogo_docked)
            }),
    {
        if self.state.battery.keyboard_battery_pct.is_some() {
            self.state.battery.keyboard_battery_charging
        } else if self.state.battery.keyboard_battery_last_known_full {
            false
        } else {
            self.state.link.is_usb_connected || self.state.link.is_pogo_docked
        }
    }

    // ── Bluetooth ────────────────────────────────────────────────────────────

    /// A Bluetooth keyboard session has begun. Called once per session, not once per device node.
    pub fn bluetooth_connection_started(&mut self, now: u64) -> (effects: Vec<StateEffect>)
        requires
            old(self)@.well_formed(),
        ensures
            final(self)@ == old(self)@.with_bluetooth_session(now),
            effects@ == when(
                old(self)@.link.bt_connected_count == 0,
                seq![
                    StateEffect::Publish(Publication::BluetoothConnected),
                    StateEffect::Publish(Publication::KeyboardConnection),
                    StateEffect::RestoreBattery,
                    StateEffect::RefreshBluetoothBattery,
                ],
            ),
            final(self)@.well_formed(),
    {
        let link = self.state.link;
        let was_connected = link.bt_connected_count > 0;
        let count: usize = if link.bt_connected_count == usize::MAX {
            usize::MAX
        } else {
            link.bt_connected_count + 1
        };
        let (updated, _grace) = (LinkState {
            bt_connected_count: count,
            ..link
        }).update_keyboard_connection_tracking(now);
        self.state.link = updated;
        let mut effects: Vec<StateEffect> = Vec::new();
        if !was_connected {
            effects.push(StateEffect::Publish(Publication::BluetoothConnected));
            effects.push(StateEffect::Publish(Publication::KeyboardConnection));
            effects.push(StateEffect::RestoreBattery);
            effects.push(StateEffect::RefreshBluetoothBattery);
        }
        effects
    }

    /// A Bluetooth keyboard session has ended. One call too many does nothing.
    pub fn bluetooth_connection_stopped(&mut self, now: u64) -> (effects: Vec<StateEffect>)
        requires
            old(self)@.well_formed(),
        ensures
            final(self)@ == old(self)@.without_bluetooth_session(now),
            effects@ == when(
                old(self)@.link.bt_connected_count == 1,
                seq![
                    StateEffect::Publish(Publication::BluetoothConnected),
                    StateEffect::Publish(Publication::KeyboardConnection),
                ],
            ) + when(
                old(self)@.fewer_sessions().grace_starts(),
                seq![StateEffect::ScheduleConnectionRefresh],
            ) + when(
                old(self)@.last_session_without_usb(),
                seq![StateEffect::Publish(Publication::KeyboardBattery)],
            ),
            final(self)@.well_formed(),
    {
        let link = self.state.link;
        let was_connected = link.bt_connected_count > 0;
        let count: usize = if link.bt_connected_count == 0 {
            0
        } else {
            link.bt_connected_count - 1
        };
        let is_connected = count > 0;
        let should_clear = was_connected && !is_connected && !link.is_usb_connected;
        if should_clear {
            self.state.battery = Self::without_level(self.state.battery);
        }
        let (updated, grace_started) = (LinkState {
            bt_connected_count: count,
            ..link
        }).update_keyboard_connection_tracking(now);
        self.state.link = updated;
        let mut effects: Vec<StateEffect> = Vec::new();
        if was_connected != is_connected {
            effects.push(StateEffect::Publish(Publication::BluetoothConnected));
            effects.push(StateEffect::Publish(Publication::KeyboardConnection));
        }
        push_if(&mut effects, grace_started, StateEffect::ScheduleConnectionRefresh);
        push_if(&mut effects, should_clear, StateEffect::Publish(Publication::KeyboardBattery));
        effects
    }

    // ── Displays ─────────────────────────────────────────────────────────────

    /// The lower panel is wanted or not; while the keyboard covers it, it stays off.
    pub fn set_secondary_display_tracked(&mut self, enabled: bool) -> (effects: Vec<StateEffect>)
        requires
            old(self)@.well_formed(),
        ensures
            final(self)@ == (InnerState {
                secondary: SecondaryState::wanted(enabled, old(self)@.link.is_pogo_docked),
                ..old(self)@
            }),
            effects@ == seq![
                StateEffect::StoreDisplay(DisplayStateChange::SecondaryEnabled(enabled)),
            ],
            final(self)@.well_formed(),
    {
        self.state.secondary = SecondaryState {
            desired_secondary_display_enabled: enabled,
            is_secondary_display_enabled: enabled && !self.state.link.is_pogo_docked,
        };
        let mut effects: Vec<StateEffect> = Vec::new();
        effects.push(StateEffect::StoreDisplay(DisplayStateChange::SecondaryEnabled(enabled)));
        effects
    }

    /// Tells the other tasks whether the lower panel is on.
    pub fn emit_secondary_display_state(&self) -> (effect: StateEffect)
        ensures
            effect == StateEffect::Emit(
                Event::SecondaryDisplay(self@.secondary.is_secondary_display_enabled),
            ),
    {
        StateEffect::Emit(
            Event::SecondaryDisplay(self.state.secondary.is_secondary_display_enabled),
        )
    }

    /// The panel that is to be primary. It is stored whether or not it can be applied now.
    pub fn set_desired_primary(&mut self, primary: String) -> (effects: Vec<StateEffect>)
        requires
            old(self)@.well_formed(),
        ensures
            final(self)@ == (InnerState { desired_primary: Some(primary), ..old(self)@ }),
            effects@ == seq![StateEffect::StoreDisplay(DisplayStateChange::Primary(primary))],
            final(self)@.well_formed(),
    {
        let mut effects: Vec<StateEffect> = Vec::new();
        effects.push(StateEffect::StoreDisplay(DisplayStateChange::Primary(primary.clone())));
        self.state.desired_primary = Some(primary);
        effects
    }

    /// The attachment and layout that the session has observed.
    pub fn persist_desired_display_mode(&mut self, attachment: String, layout: String) -> (effects:
        Vec<StateEffect>)
        requires
            old(self)@.well_formed(),
        ensures
            final(self)@ == (InnerState {
                desired_display_attachment: attachment,
                desired_display_layout: layout,
                ..old(self)@
            }),
            effects@ == seq![
                StateEffect::StoreDisplay(DisplayStateChange::Mode { attachment, layout }),
            ],
            final(self)@.well_formed(),
    {
        let mut effects: Vec<StateEffect> = Vec::new();
        effects.push(
            StateEffect::StoreDisplay(
                DisplayStateChange::Mode { attachment: attachment.clone(), layout: layout.clone() },
            ),
        );
        self.state.desired_display_attachment = attachment;
        self.state.desired_display_layout = layout;
        effects
    }

    /// A display brightness was stored; `changed` says that another one was stored before.
    pub fn set_display_brightness_value(&mut self, brightness: u32, changed: bool) -> (effects: Vec<
        StateEffect,
    >)
        requires
            old(self)@.well_formed(),
        ensures
            final(self)@ == (if changed {
                InnerState { display_brightness: Some(brightness), ..old(self)@ }
            } else {
                old(self)@
            }),
            effects@ == when(
                changed,
                seq![StateEffect::Publish(Publication::DisplayBrightness)],
            ),
            final(self)@.well_formed(),
    {
        let mut effects: Vec<StateEffect> = Vec::new();
        if changed {
            self.state.display_brightness = Some(brightness);
            effects.push(StateEffect::Publish(Publication::DisplayBrightness));
        }
        effects
    }

    /// The desktop's automatic brightness was turned on or off.
    pub fn set_ambient_light_enabled(&mut self, enabled: bool) -> (effects: Vec<StateEffect>)
        requires
            old(self)@.well_formed(),
        ensures
            final(self)@ == (InnerState { ambient_light_enabled: enabled, ..old(self)@ }),
            effects@ == seq![
                StateEffect::StoreDisplay(DisplayStateChange::AmbientLightEnabled(enabled)),
            ],
            final(self)@.well_formed(),
    {
        self.state.ambient_light_enabled = enabled;
        let mut effects: Vec<StateEffect> = Vec::new();
        effects.push(StateEffect::StoreDisplay(DisplayStateChange::AmbientLightEnabled(enabled)));
        effects
    }

    /// The displays have been turned.
    pub fn set_display_rotation(&mut self, rotation: String) -> (effects: Vec<StateEffect>)
        requires
            old(self)@.well_formed(),
        ensures
            final(self)@.display_rotation@ == rotation@,
            final(self)@ == (InnerState {
                display_rotation: final(self)@.display_rotation,
                ..old(self)@
            }),
            effects@ == when(
                old(self)@.display_rotation@ != rotation@,
                seq![StateEffect::Publish(Publication::DisplayRotation)],
            ),
            final(self)@.well_formed(),
    {
        let mut effects: Vec<StateEffect> = Vec::new();
        if !same(self.state.display_rotation.as_str(), rotation.as_str()) {
            self.state.display_rotation = rotation;
            effects.push(StateEffect::Publish(Publication::DisplayRotation));
        }
        effects
    }

    /// After how many seconds without typing the keyboard counts as idle.
    pub fn set_idle_timeout_seconds(&mut self, seconds: u64) -> (effects: Vec<StateEffect>)
        requires
            old(self)@.well_formed(),
        ensures
            final(self)@ == (InnerState { idle_timeout_seconds: seconds, ..old(self)@ }),
            effects@ == when(
                old(self)@.idle_timeout_seconds != seconds,
                seq![StateEffect::Publish(Publication::IdleTimeout)],
            ),
            final(self)@.well_formed(),
    {
        let mut effects: Vec<StateEffect> = Vec::new();
        if self.state.idle_timeout_seconds != seconds {
            self.state.idle_timeout_seconds = seconds;
            effects.push(StateEffect::Publish(Publication::IdleTimeout));
        }
        effects
    }

    // ── Pens ─────────────────────────────────────────────────────────────────

    /// Turns the mapping of the pens on or off.
    pub fn set_tablet_mapping_enabled(&mut self, enabled: bool) -> (effects: Vec<StateEffect>)
        requires
            old(self)@.well_formed(),
        ensures
            final(self)@ == (InnerState {
                tablet: (TabletState { tablet_mapping_enabled: enabled, ..old(self)@.tablet }),
                ..old(self)@
            }),
            effects@ == when(
                old(self)@.tablet.tablet_mapping_enabled != enabled,
                seq![
                    StateEffect::StoreDisplay(DisplayStateChange::TabletMappingEnabled(enabled)),
                    StateEffect::Publish(Publication::TabletMapping),
                ],
            ),
            final(self)@.well_formed(),
    {
        let mut effects: Vec<StateEffect> = Vec::new();
        let before = self.state.tablet;
        if before.tablet_mapping_enabled != enabled {
            self.state.tablet = TabletState { tablet_mapping_enabled: enabled, ..before };
            effects.push(
                StateEffect::StoreDisplay(DisplayStateChange::TabletMappingEnabled(enabled)),
            );
            effects.push(StateEffect::Publish(Publication::TabletMapping));
        }
        effects
    }

    /// Chooses the mapping of the pens.
    pub fn set_tablet_mapping_mode(&mut self, mode: TabletMapMode) -> (effects: Vec<StateEffect>)
        requires
            old(self)@.well_formed(),
        ensures
            final(self)@ == (InnerState {
                tablet: (TabletState { tablet_mapping_mode: mode, ..old(self)@.tablet }),
                ..old(self)@
            }),
            effects@ == mode_told(old(self)@.tablet, mode),
            final(self)@.well_formed(),
    {
        let mut effects: Vec<StateEffect> = Vec::new();
        let before = self.state.tablet;
        if before.tablet_mapping_mode != mode {
            self.state.tablet = TabletState { tablet_mapping_mode: mode, ..before };
            effects.push(StateEffect::StoreDisplay(DisplayStateChange::TabletMappingMode(mode)));
            effects.push(StateEffect::Publish(Publication::TabletMapping));
        }
        effects
    }

    /// Chooses the other mapping of the pens; does nothing while the mapping is off.
    pub fn toggle_tablet_mapping_mode(&mut self) -> (r: (Option<TabletMapMode>, Vec<StateEffect>))
        requires
            old(self)@.well_formed(),
        ensures
            !old(self)@.tablet.tablet_mapping_enabled ==> final(self)@ == old(self)@ && r.0 is None
                && r.1@ == Seq::<StateEffect>::empty(),
            old(self)@.tablet.tablet_mapping_enabled ==> ({
                let other = other_mode(old(self)@.tablet.tablet_mapping_mode);
                &&& final(self)@ == (InnerState {
                    tablet: (TabletState { tablet_mapping_mode: other, ..old(self)@.tablet }),
                    ..old(self)@
                })
                &&& r.0 == Some(other)
                &&& r.1@ == mode_told(old(self)@.tablet, other)
            }),
            final(self)@.well_formed(),
    {
        if !self.state.tablet.tablet_mapping_enabled {
            return (None, Vec::new());
        }
        let next = match self.state.tablet.tablet_mapping_mode {
            TabletMapMode::OneToOne => TabletMapMode::AllToPrimary,
            TabletMapMode::AllToPrimary => TabletMapMode::OneToOne,
        };
        let effects = self.set_tablet_mapping_mode(next);
        (Some(next), effects)
    }

    /// Asks the session to map the pens again; the counter wraps around.
    pub fn bump_tablet_mapping_apply_nonce(&mut self) -> (r: (u32, Vec<StateEffect>))
        requires
            old(self)@.well_formed(),
        ensures
            r.0 == (if old(self)@.tablet.tablet_mapping_apply_nonce == u32::MAX {
                0
            } else {
                old(self)@.tablet.tablet_mapping_apply_nonce + 1
            }),
            final(self)@ == (InnerState {
                tablet: (TabletState { tablet_mapping_apply_nonce: r.0, ..old(self)@.tablet }),
                ..old(self)@
            }),
            r.1@ == seq![StateEffect::Publish(Publication::TabletMappingApplyNonce)],
            final(self)@.well_formed(),
    {
        let before = self.state.tablet;
        let nonce: u32 = if before.tablet_mapping_apply_nonce == u32::MAX {
            0
        } else {
            before.tablet_mapping_apply_nonce + 1
        };
        self.state.tablet = TabletState { tablet_mapping_apply_nonce: nonce, ..before };
        let mut effects: Vec<StateEffect> = Vec::new();
        effects.push(StateEffect::Publish(Publication::TabletMappingApplyNonce));
        (nonce, effects)
    }
}

impl KeyboardStateManager {
    /// The mapping of the pens.
    pub fn get_tablet_mapping_config(&self) -> (r: TabletMappingConfig)
        ensures
            r == self@.tablet.config(),
    {
        TabletMappingConfig {
            enable: self.state.tablet.tablet_mapping_enabled,
            mode: self.state.tablet.tablet_mapping_mode,
        }
    }

    /// How often the session was asked to map the pens again.
    pub fn tablet_mapping_apply_nonce(&self) -> (r: u32)
        ensures
            r == self@.tablet.tablet_mapping_apply_nonce,
    {
        self.state.tablet.tablet_mapping_apply_nonce
    }

    /// The backlight that the user asked for.
    pub fn requested_keyboard_backlight(&self) -> (r: KeyboardBacklightState)
        ensures
            r == self@.light.backlight,
    {
        self.state.light.backlight
    }

    /// The backlight as shown.
    pub fn get_keyboard_backlight(&self) -> (r: KeyboardBacklightState)
        ensures
            r == self@.light.effective(),
    {
        Self::effective_light(&self.state.light)
    }

    /// Whether the keyboard is on USB, docked or not.
    pub fn is_usb_keyboard_connected(&self) -> (r: bool)
        ensures
            r == self@.link.is_usb_connected,
    {
        self.state.link.is_usb_connected
    }

    /// The battery level, if a source has reported one.
    pub fn keyboard_battery_percentage(&self) -> (r: Option<u8>)
        ensures
            r == self@.battery.keyboard_battery_pct,
    {
        self.state.battery.keyboard_battery_pct
    }

    /// The last battery level that any source has reported.
    pub fn keyboard_battery_last_known_percentage(&self) -> (r: Option<u8>)
        ensures
            r == self@.battery.keyboard_battery_last_known_pct,
    {
        self.state.battery.keyboard_battery_last_known_pct
    }

    /// Whether the battery is reported as charging.
    pub fn is_keyboard_battery_charging(&self) -> (r: bool)
        ensures
            r == self@.battery.keyboard_battery_charging,
    {
        self.state.battery.keyboard_battery_charging
    }

    /// Whether the battery is reported as full.
    pub fn is_keyboard_battery_full(&self) -> (r: bool)
        ensures
            r == self@.battery.keyboard_battery_full,
    {
        self.state.battery.keyboard_battery_full
    }

    /// Whether the keyboard lies on the dock of the lower panel.
    pub fn is_keyboard_pogo_docked(&self) -> (r: bool)
        ensures
            r == self@.link.is_pogo_docked,
    {
        self.state.link.is_pogo_docked
    }

    /// Whether the lower panel is on.
    pub fn is_secondary_display_enabled(&self) -> (r: bool)
        ensures
            r == self@.secondary.is_secondary_display_enabled,
    {
        self.state.secondary.is_secondary_display_enabled
    }

    /// Whether the lower panel is wanted.
    pub fn is_secondary_display_desired_enabled(&self) -> (r: bool)
        ensures
            r == self@.secondary.desired_secondary_display_enabled,
    {
        self.state.secondary.desired_secondary_display_enabled
    }

    /// Whether a Bluetooth keyboard session is on.
    pub fn is_bluetooth_connected(&self) -> (r: bool)
        ensures
            r == (self@.link.bt_connected_count > 0),
    {
        self.state.link.bt_connected_count > 0
    }

    /// The display brightness last stored.
    pub fn get_display_brightness_value(&self) -> (r: Option<u32>)
        ensures
            r == self@.display_brightness,
    {
        self.state.display_brightness
    }

    /// Whether the desktop's automatic brightness is on.
    pub fn get_ambient_light_enabled(&self) -> (r: bool)
        ensures
            r == self@.ambient_light_enabled,
    {
        self.state.ambient_light_enabled
    }

    /// Whether the backlight is raised in low light.
    pub fn ambient_keyboard_backlight_enabled(&self) -> (r: bool)
        ensures
            r == self@.light.ambient_keyboard_backlight_enabled,
    {
        self.state.light.ambient_keyboard_backlight_enabled
    }

    /// Whether there is a light sensor.
    pub fn ambient_light_available(&self) -> (r: bool)
        ensures
            r == self@.light.ambient_light_available,
    {
        self.state.light.ambient_light_available
    }

    /// After how many seconds without typing the keyboard counts as idle.
    pub fn idle_timeout_seconds(&self) -> (r: u64)
        ensures
            r == self@.idle_timeout_seconds,
    {
        self.state.idle_timeout_seconds
    }

    /// The connection as published.
    pub fn keyboard_connection_kind(&self, now: u64) -> (r: KeyboardConnectionKind)
        ensures
            r == self@.link.effective_kind(now),
    {
        self.state.link.effective_keyboard_connection_kind(now)
    }

    /// Whether the keyboard counts as connected.
    pub fn is_keyboard_connected(&self, now: u64) -> (r: bool)
        ensures
            r == (self@.link.effective_kind(now) != KeyboardConnectionKind::Detached),
    {
        self.state.link.effective_keyboard_connection_kind(now).is_connected()
    }

    /// The name of the mapping of the pens.
    pub fn tablet_mapping_mode_string(&self) -> (r: String)
        ensures
            r@ == crate::config::mode_text(self@.tablet.tablet_mapping_mode),
    {
        tablet_mode_to_str(self.state.tablet.tablet_mapping_mode).to_owned()
    }

    /// How the displays are turned.
    pub fn display_rotation(&self) -> (r: String)
        ensures
            r == self@.display_rotation,
    {
        self.state.display_rotation.clone()
    }

    /// The panel that is to be primary.
    pub fn get_desired_primary(&self) -> (r: Option<String>)
        ensures
            r == self@.desired_primary,
    {
        match &self.state.desired_primary {
            Some(p) => Some(p.clone()),
            None => None,
        }
    }

    /// The desired attachment and layout.
    pub fn get_desired_display_mode(&self) -> (r: (String, String))
        ensures
            r == (self@.desired_display_attachment, self@.desired_display_layout),
    {
        (
            self.state.desired_display_attachment.clone(),
            self.state.desired_display_layout.clone(),
        )
    }
}

// ── Laws ─────────────────────────────────────────────────────────────────────

/// While suspended or idle nothing is shown, but the request is kept: afterwards the backlight is
/// what it was.
pub proof fn law_backlight_survives_pause(light: LightState)
    requires
        !light.is_suspended,
        !light.is_idle,
    ensures
        ({
            let asleep = LightState { is_suspended: true, ..light };
            let idle = LightState { is_idle: true, ..light };
            &&& asleep.effective() == KeyboardBacklightState::Off
            &&& idle.effective() == KeyboardBacklightState::Off
            &&& asleep.backlight == light.backlight && idle.backlight == light.backlight
            &&& (LightState { is_suspended: false, ..asleep }).effective() == light.effective()
            &&& (LightState { is_idle: false, ..idle }).effective() == light.effective()
        }),
{
}

/// Low light never dims the keyboard, and raises it from off to low only.
pub proof fn law_low_light_raises_backlight(light: LightState)
    requires
        !light.is_suspended,
        !light.is_idle,
    ensures
        light.effective().rank() >= light.backlight.rank(),
        light.backlight != KeyboardBacklightState::Off ==> light.effective() == light.backlight,
        light.low_light() ==> light.effective() != KeyboardBacklightState::Off,
{
}

/// The panel that the keyboard covers is off; when the keyboard is taken off it again, the panel
/// is on exactly if it is wanted.
pub proof fn law_dock_switches_lower_panel(s: InnerState, usb: bool, t1: u64, t2: u64)
    requires
        s.well_formed(),
    ensures
        ({
            let docked = s.with_usb(true, true, t1);
            let undocked = docked.with_usb(usb, false, t2);
            &&& !docked.secondary.is_secondary_display_enabled
            &&& undocked.secondary.is_secondary_display_enabled
                == s.secondary.desired_secondary_display_enabled
            &&& docked.secondary.desired_secondary_display_enabled
                == s.secondary.desired_secondary_display_enabled
        }),
{
}

/// A second look that finds the same connection has no consequence.
pub proof fn law_repeated_connection_is_silent(s: InnerState, usb: bool, pogo: bool, now: u64)
    requires
        s.well_formed(),
    ensures
        connection_effects(usb_difference(s.with_usb(usb, pogo, now), usb, pogo)) == Seq::<
            StateEffect,
        >::empty(),
{
    let t = s.with_usb(usb, pogo, now);
    assert(t.link.with_usb(usb, pogo) == t.link);
    assert(connection_effects(usb_difference(t, usb, pogo)) =~= Seq::<StateEffect>::empty());
}

/// A Bluetooth session that ends leaves as many as before it began.
pub proof fn law_bluetooth_sessions_balance(s: InnerState, t1: u64, t2: u64)
    requires
        s.link.bt_connected_count < usize::MAX,
    ensures
        s.with_bluetooth_session(t1).without_bluetooth_session(t2).link.bt_connected_count
            == s.link.bt_connected_count,
{
}

/// Ending a Bluetooth session where there is none changes nothing.
pub proof fn law_extra_bluetooth_stop_is_harmless(s: InnerState, now: u64)
    requires
        s.well_formed(),
        s.link.bt_connected_count == 0,
    ensures
        s.without_bluetooth_session(now) == s,
{
}

/// A keyboard that leaves USB or the dock counts as connected as before for a second, and then as
/// detached.
pub proof fn law_disconnect_has_grace(s: InnerState, now: u64, later: u64)
    requires
        s.well_formed(),
        s.link.raw_kind() == KeyboardConnectionKind::Pogo || s.link.raw_kind()
            == KeyboardConnectionKind::Usb,
        s.link.bt_connected_count == 0,
        now <= later,
    ensures
        s.with_usb(false, false, now).link.effective_kind(later) == (if later < now + 1000 {
            s.link.raw_kind()
        } else {
            KeyboardConnectionKind::Detached
        }),
{
}

/// A keyboard whose last Bluetooth session ends counts as connected over Bluetooth for a second, and
/// then as detached.
pub proof fn law_bluetooth_disconnect_has_grace(s: InnerState, now: u64, later: u64)
    requires
        s.well_formed(),
        s.link.raw_kind() == KeyboardConnectionKind::Bluetooth,
        s.link.bt_connected_count == 1,
        now <= later,
    ensures
        s.without_bluetooth_session(now).link.effective_kind(later) == (if later < now + 1000 {
            KeyboardConnectionKind::Bluetooth
        } else {
            KeyboardConnectionKind::Detached
        }),
{
}

// ── Effects of single operations ─────────────────────────────────────────────

impl LinkState {
    /// USB or Bluetooth can tell the battery level.
    pub open spec fn has_battery_source(self) -> bool {
        self.is_usb_connected || self.bt_connected_count > 0
    }
}

impl InnerState {
    pub open spec fn with_bluetooth_session(self, now: u64) -> InnerState {
        let count = if self.link.bt_connected_count == usize::MAX {
            usize::MAX as int
        } else {
            self.link.bt_connected_count + 1
        };
        InnerState { link: self.link.with_bluetooth(count).remembered(now), ..self }
    }

    pub open spec fn fewer_sessions(self) -> LinkState {
        self.link.with_bluetooth(
            if self.link.bt_connected_count == 0 {
                0
            } else {
                self.link.bt_connected_count - 1
            },
        )
    }

    /// The only Bluetooth session ends while the keyboard is not on USB either.
    pub open spec fn last_session_without_usb(self) -> bool {
        self.link.bt_connected_count == 1 && !self.link.is_usb_connected
    }

    pub open spec fn without_bluetooth_session(self, now: u64) -> InnerState {
        InnerState {
            link: self.fewer_sessions().remembered(now),
            battery: if self.last_session_without_usb() {
                self.battery.unknown()
            } else {
                self.battery
            },
            ..self
        }
    }
}

/// A stored battery says something unless it is empty and not full.
pub open spec fn says_something(stored: Option<PersistedKeyboardBattery>) -> bool {
    stored matches Some(b) && (b.pct > 0 || b.full)
}

/// A battery level that differs from what is known is stored and published.
pub open spec fn level_told(before: BatteryState, pct: u8, charging: bool, full: bool) -> Seq<
    StateEffect,
> {
    when(
        before != BatteryState::level(pct, charging, full),
        seq![
            StateEffect::StoreBattery(PersistedKeyboardBattery { pct, charging, full }),
            StateEffect::Publish(Publication::KeyboardBattery),
        ],
    )
}

pub open spec fn other_mode(mode: TabletMapMode) -> TabletMapMode {
    match mode {
        TabletMapMode::OneToOne => TabletMapMode::AllToPrimary,
        TabletMapMode::AllToPrimary => TabletMapMode::OneToOne,
    }
}

/// Another mapping of the pens is stored and published.
pub open spec fn mode_told(before: TabletState, mode: TabletMapMode) -> Seq<StateEffect> {
    when(
        before.tablet_mapping_mode != mode,
        seq![
            StateEffect::StoreDisplay(DisplayStateChange::TabletMappingMode(mode)),
            StateEffect::Publish(Publication::TabletMapping),
        ],
    )
}

impl TabletState {
    pub open spec fn config(self) -> TabletMappingConfig {
        TabletMappingConfig {
            enable: self.tablet_mapping_enabled,
            mode: self.tablet_mapping_mode,
        }
    }
}

/// The battery at start: no level yet, and the stored one as last known if it says anything.
pub open spec fn stored_battery(battery: Option<PersistedKeyboardBattery>) -> BatteryState {
    BatteryState {
        keyboard_battery_pct: None,
        keyboard_battery_charging: false,
        keyboard_battery_full: false,
        keyboard_battery_last_known_pct: match battery {
            Some(b) => if b.pct > 0 || b.full {
                Some(b.pct)
            } else {
                None
            },
            None => None,
        },
        keyboard_battery_last_known_full: battery matches Some(b) && b.full,
    }
}

/// A change of the shown backlight is told and published.
pub open spec fn light_told(before: LightState, after: LightState) -> Seq<StateEffect> {
    if before.effective() != after.effective() {
        seq![
            StateEffect::Emit(Event::Backlight(after.effective())),
            StateEffect::Publish(
                Publication::KeyboardBacklight { requested: false, effective: true },
            ),
        ]
    } else {
        Seq::empty()
    }
}

/// A change of what the light sensor may do is published, besides what it does to the backlight.
pub open spec fn ambient_told(before: LightState, after: LightState) -> Seq<StateEffect> {
    let changed = before.effective() != after.effective();
    when(changed, seq![StateEffect::Emit(Event::Backlight(after.effective()))]) + seq![
        StateEffect::Publish(Publication::AmbientKeyboardBacklight),
    ] + backlight_published(false, changed)
}

/// A requested backlight is stored; it is told and published if it changes the request or what is
/// shown.
pub open spec fn backlight_requested(
    before: LightState,
    backlight: KeyboardBacklightState,
) -> Seq<StateEffect> {
    let after = LightState { backlight, ..before };
    let requested = before.backlight != backlight;
    let effective = before.effective() != after.effective();
    seq![StateEffect::StoreBacklight(backlight)] + when(
        requested || effective,
        seq![StateEffect::Emit(Event::Backlight(after.effective()))],
    ) + backlight_published(requested, effective)
}

pub open spec fn mic_led_told(s: InnerState, enabled: bool) -> Seq<StateEffect> {
    when(!s.light.is_suspended, seq![StateEffect::Emit(Event::MicMuteLed(enabled))]) + when(
        s.mic_mute_led != enabled,
        seq![StateEffect::Publish(Publication::MicMuteLed)],
    )
}

// ── What is told of each change ──────────────────────────────────────────────

/// A requested backlight is stored, and told to the keyboard as it is shown wherever the request or
/// what is shown has changed; then it is published with what has changed.
pub proof fn law_backlight_request_reaches_the_keyboard(
    before: LightState,
    backlight: KeyboardBacklightState,
)
    ensures
        ({
            let after = LightState { backlight, ..before };
            let effects = backlight_requested(before, backlight);
            &&& effects.contains(StateEffect::StoreBacklight(backlight))
            &&& before.effective() != after.effective() || before.backlight != backlight ==> {
                &&& effects.contains(StateEffect::Emit(Event::Backlight(after.effective())))
                &&& effects.contains(
                    StateEffect::Publish(
                        Publication::KeyboardBacklight {
                            requested: before.backlight != backlight,
                            effective: before.effective() != after.effective(),
                        },
                    ),
                )
            }
            &&& before.effective() == after.effective() && before.backlight == backlight
                ==> effects.len() == 1
        }),
{
    let after = LightState { backlight, ..before };
    let effects = backlight_requested(before, backlight);
    assert(effects[0] == StateEffect::StoreBacklight(backlight));
    if before.effective() != after.effective() || before.backlight != backlight {
        assert(effects[1] == StateEffect::Emit(Event::Backlight(after.effective())));
        assert(effects[2] == StateEffect::Publish(
            Publication::KeyboardBacklight {
                requested: before.backlight != backlight,
                effective: before.effective() != after.effective(),
            },
        ));
    }
}

/// A backlight that is shown otherwise than before is told to the keyboard and published, and one
/// that is shown as before is not.
pub proof fn law_shown_backlight_reaches_the_keyboard(before: LightState, after: LightState)
    ensures
        before.effective() != after.effective() ==> light_told(before, after).contains(
            StateEffect::Emit(Event::Backlight(after.effective())),
        ) && light_told(before, after).contains(
            StateEffect::Publish(
                Publication::KeyboardBacklight { requested: false, effective: true },
            ),
        ),
        before.effective() == after.effective() ==> light_told(before, after).len() == 0,
{
    if before.effective() != after.effective() {
        let told = light_told(before, after);
        assert(told[0] == StateEffect::Emit(Event::Backlight(after.effective())));
        assert(told[1] == StateEffect::Publish(
            Publication::KeyboardBacklight { requested: false, effective: true },
        ));
    }
}

/// A change of what the light sensor may do is published, and where it changes what is shown, that
/// is told to the keyboard and published too.
pub proof fn law_sensor_change_reaches_the_keyboard(before: LightState, after: LightState)
    ensures
        ({
            let told = ambient_told(before, after);
            &&& told.contains(StateEffect::Publish(Publication::AmbientKeyboardBacklight))
            &&& before.effective() != after.effective() ==> told.contains(
                StateEffect::Emit(Event::Backlight(after.effective())),
            ) && told.contains(
                StateEffect::Publish(
                    Publication::KeyboardBacklight { requested: false, effective: true },
                ),
            )
            &&& before.effective() == after.effective() ==> told.len() == 1
        }),
{
    let told = ambient_told(before, after);
    if before.effective() != after.effective() {
        assert(told[0] == StateEffect::Emit(Event::Backlight(after.effective())));
        assert(told[1] == StateEffect::Publish(Publication::AmbientKeyboardBacklight));
        assert(told[2] == StateEffect::Publish(
            Publication::KeyboardBacklight { requested: false, effective: true },
        ));
    } else {
        assert(told[0] == StateEffect::Publish(Publication::AmbientKeyboardBacklight));
    }
}

/// The backlight is off while suspended or idle; otherwise it is the one asked for, but low where
/// that is off and a sensor in use says that the light is low.
pub proof fn law_shown_backlight(light: LightState)
    ensures
        light.is_suspended ==> light.effective() == KeyboardBacklightState::Off,
        light.is_idle ==> light.effective() == KeyboardBacklightState::Off,
        !light.is_suspended && !light.is_idle ==> ({
            let raised = light.ambient_keyboard_backlight_enabled && light.ambient_light_available
                && light.ambient_light_low == Some(true);
            &&& light.backlight != KeyboardBacklightState::Off || !raised ==> light.effective()
                == light.backlight
            &&& light.backlight == KeyboardBacklightState::Off && raised ==> light.effective()
                == KeyboardBacklightState::Low
        }),
        light.low_light() <==> light.ambient_keyboard_backlight_enabled
            && light.ambient_light_available && light.ambient_light_low == Some(true),
{
}

/// The microphone LED is told to the keyboard unless the machine sleeps, and published where it has
/// changed. It shows what was asked for, and nothing while the machine sleeps.
pub proof fn law_microphone_led_reaches_the_keyboard(s: InnerState, enabled: bool)
    ensures
        ({
            let told = mic_led_told(s, enabled);
            &&& !s.light.is_suspended ==> told.contains(
                StateEffect::Emit(Event::MicMuteLed(enabled)),
            )
            &&& s.mic_mute_led != enabled ==> told.contains(
                StateEffect::Publish(Publication::MicMuteLed),
            )
            &&& s.light.is_suspended && s.mic_mute_led == enabled ==> told.len() == 0
            &&& s.light.is_suspended && s.mic_mute_led != enabled ==> told.len() == 1
            &&& !s.light.is_suspended && s.mic_mute_led == enabled ==> told.len() == 1
        }),
        s.light.is_suspended ==> !s.effective_mic_led(),
        !s.light.is_suspended ==> s.effective_mic_led() == s.mic_mute_led,
{
    let told = mic_led_told(s, enabled);
    if !s.light.is_suspended {
        assert(told[0] == StateEffect::Emit(Event::MicMuteLed(enabled)));
    }
    if s.mic_mute_led != enabled {
        assert(told.last() == StateEffect::Publish(Publication::MicMuteLed));
        assert(told[told.len() - 1] == StateEffect::Publish(Publication::MicMuteLed));
    }
}

/// The keyboard counts as docked before it counts as on USB, and as on USB before Bluetooth.
pub proof fn law_connection_precedence(link: LinkState)
    ensures
        link.raw_kind() == KeyboardConnectionKind::Pogo <==> link.is_pogo_docked,
        link.raw_kind() == KeyboardConnectionKind::Usb <==> !link.is_pogo_docked
            && link.is_usb_connected,
        link.raw_kind() == KeyboardConnectionKind::Bluetooth <==> !link.is_pogo_docked
            && !link.is_usb_connected && link.bt_connected_count > 0,
        link.raw_kind() == KeyboardConnectionKind::Detached <==> !link.is_pogo_docked
            && !link.is_usb_connected && link.bt_connected_count == 0,
        link.has_battery_source() <==> link.is_usb_connected || link.bt_connected_count > 0,
{
}

/// A connected keyboard is published as it is connected; a detached one as it was connected last, for
/// a second after it went; and then as detached.
pub proof fn law_published_connection(link: LinkState, now: u64)
    ensures
        link.raw_kind() != KeyboardConnectionKind::Detached ==> link.effective_kind(now)
            == link.raw_kind(),
        link.raw_kind() == KeyboardConnectionKind::Detached ==> match link.keyboard_disconnected_at {
            Some(at) => link.effective_kind(now) == (if now < at + 1000 {
                link.keyboard_last_connection_kind
            } else {
                KeyboardConnectionKind::Detached
            }),
            None => link.effective_kind(now) == KeyboardConnectionKind::Detached,
        },
{
}

/// A connected keyboard is remembered as it is connected; when it goes, the time is noted once.
pub proof fn law_memory_of_the_connection(link: LinkState, now: u64)
    ensures
        ({
            let t = link.remembered(now);
            &&& t.is_usb_connected == link.is_usb_connected
            &&& t.is_pogo_docked == link.is_pogo_docked
            &&& t.bt_connected_count == link.bt_connected_count
            &&& link.raw_kind() != KeyboardConnectionKind::Detached
                ==> t.keyboard_last_connection_kind == link.raw_kind() && t.keyboard_disconnected_at
                is None
            &&& link.raw_kind() == KeyboardConnectionKind::Detached
                ==> t.keyboard_last_connection_kind == link.keyboard_last_connection_kind
            &&& link.raw_kind() == KeyboardConnectionKind::Detached
                && link.keyboard_disconnected_at is Some ==> t.keyboard_disconnected_at
                == link.keyboard_disconnected_at
            &&& link.raw_kind() == KeyboardConnectionKind::Detached
                && link.keyboard_disconnected_at is None && link.keyboard_last_connection_kind
                != KeyboardConnectionKind::Detached ==> t.keyboard_disconnected_at == Some(now)
        }),
{
}

/// A look at the USB connection leaves the state as it was found: the connection and the dock as
/// given, the lower panel on exactly if it is wanted and not covered, no battery level without USB
/// but the last known one, and all else as before.
pub proof fn law_usb_connection_is_taken_over(s: InnerState, usb: bool, pogo: bool, now: u64)
    ensures
        ({
            let t = s.with_usb(usb, pogo, now);
            &&& t.link.is_usb_connected == usb
            &&& t.link.is_pogo_docked == pogo
            &&& t.link.bt_connected_count == s.link.bt_connected_count
            &&& t.secondary.desired_secondary_display_enabled
                == s.secondary.desired_secondary_display_enabled
            &&& t.secondary.is_secondary_display_enabled
                == (s.secondary.desired_secondary_display_enabled && !pogo)
            &&& usb ==> t.battery == s.battery
            &&& !usb ==> t.battery.keyboard_battery_pct is None
                && !t.battery.keyboard_battery_charging && !t.battery.keyboard_battery_full
            &&& t.battery.keyboard_battery_last_known_pct
                == s.battery.keyboard_battery_last_known_pct
            &&& t.battery.keyboard_battery_last_known_full
                == s.battery.keyboard_battery_last_known_full
            &&& t.light == s.light && t.mic_mute_led == s.mic_mute_led && t.tablet == s.tablet
            &&& t.ambient_light_enabled == s.ambient_light_enabled
            &&& t.idle_timeout_seconds == s.idle_timeout_seconds
            &&& t.desired_primary == s.desired_primary
            &&& t.desired_display_attachment == s.desired_display_attachment
            &&& t.desired_display_layout == s.desired_display_layout
            &&& t.display_rotation == s.display_rotation
            &&& t.display_brightness == s.display_brightness
        }),
{
}

proof fn lemma_connection_effects_hold(d: ConnectionDifference, x: StateEffect)
    ensures
        connection_effects(d).contains(x) <==> {
            ||| when(d.refresh_bluetooth, seq![StateEffect::RefreshBluetoothBattery]).contains(x)
            ||| when(d.restore_battery, seq![StateEffect::RestoreBattery]).contains(x)
            ||| when(d.usb_changed, usb_published()).contains(x)
            ||| when(d.dock_changed, dock_published(d.docked)).contains(x)
            ||| when(d.grace_started, seq![StateEffect::ScheduleConnectionRefresh]).contains(x)
            ||| when(
                d.secondary_changed,
                seq![StateEffect::Emit(Event::SecondaryDisplay(d.secondary))],
            ).contains(x)
        },
{
    let a = when(d.refresh_bluetooth, seq![StateEffect::RefreshBluetoothBattery]);
    let b = when(d.restore_battery, seq![StateEffect::RestoreBattery]);
    let c = when(d.usb_changed, usb_published());
    let e = when(d.dock_changed, dock_published(d.docked));
    let f = when(d.grace_started, seq![StateEffect::ScheduleConnectionRefresh]);
    let g = when(
        d.secondary_changed,
        seq![StateEffect::Emit(Event::SecondaryDisplay(d.secondary))],
    );
    crate::seqs::lemma_concat_contains(a, b, x);
    crate::seqs::lemma_concat_contains(a + b, c, x);
    crate::seqs::lemma_concat_contains(a + b + c, e, x);
    crate::seqs::lemma_concat_contains(a + b + c + e, f, x);
    crate::seqs::lemma_concat_contains(a + b + c + e + f, g, x);
}

/// A keyboard that comes to USB or leaves it is published as such, with its battery and connection;
/// the stored battery is read again when it comes, and Bluetooth is asked for the battery when it
/// leaves while connected there.
pub proof fn law_usb_change_is_told(s: InnerState, usb: bool, pogo: bool)
    requires
        s.link.is_usb_connected != usb,
    ensures
        ({
            let effects = connection_effects(usb_difference(s, usb, pogo));
            &&& effects.contains(StateEffect::Publish(Publication::KeyboardUsbConnected))
            &&& effects.contains(StateEffect::Publish(Publication::KeyboardBattery))
            &&& effects.contains(StateEffect::Publish(Publication::KeyboardConnection))
            &&& usb ==> effects.contains(StateEffect::RestoreBattery)
            &&& !usb && s.link.bt_connected_count > 0 ==> effects.contains(
                StateEffect::RefreshBluetoothBattery,
            )
        }),
{
    let d = usb_difference(s, usb, pogo);
    let published = usb_published();
    assert(published[0] == StateEffect::Publish(Publication::KeyboardUsbConnected));
    assert(published[1] == StateEffect::Publish(Publication::KeyboardBattery));
    assert(published[2] == StateEffect::Publish(Publication::KeyboardConnection));
    assert(seq![StateEffect::RestoreBattery][0] == StateEffect::RestoreBattery);
    assert(seq![StateEffect::RefreshBluetoothBattery][0] == StateEffect::RefreshBluetoothBattery);
    lemma_connection_effects_hold(d, StateEffect::Publish(Publication::KeyboardUsbConnected));
    lemma_connection_effects_hold(d, StateEffect::Publish(Publication::KeyboardBattery));
    lemma_connection_effects_hold(d, StateEffect::Publish(Publication::KeyboardConnection));
    lemma_connection_effects_hold(d, StateEffect::RestoreBattery);
    lemma_connection_effects_hold(d, StateEffect::RefreshBluetoothBattery);
}

/// A keyboard that is put on the dock or taken off it is told to the other tasks and published, with
/// its battery and connection.
pub proof fn law_dock_change_is_told(s: InnerState, usb: bool, pogo: bool)
    requires
        s.link.is_pogo_docked != pogo,
    ensures
        ({
            let effects = connection_effects(usb_difference(s, usb, pogo));
            &&& effects.contains(StateEffect::Emit(Event::KeyboardPogoDocked(pogo)))
            &&& effects.contains(StateEffect::Publish(Publication::KeyboardPogoDocked))
            &&& effects.contains(StateEffect::Publish(Publication::KeyboardBattery))
            &&& effects.contains(StateEffect::Publish(Publication::KeyboardConnection))
        }),
{
    let d = usb_difference(s, usb, pogo);
    let published = dock_published(pogo);
    assert(published[0] == StateEffect::Emit(Event::KeyboardPogoDocked(pogo)));
    assert(published[1] == StateEffect::Publish(Publication::KeyboardPogoDocked));
    assert(published[2] == StateEffect::Publish(Publication::KeyboardBattery));
    assert(published[3] == StateEffect::Publish(Publication::KeyboardConnection));
    lemma_connection_effects_hold(d, StateEffect::Emit(Event::KeyboardPogoDocked(pogo)));
    lemma_connection_effects_hold(d, StateEffect::Publish(Publication::KeyboardPogoDocked));
    lemma_connection_effects_hold(d, StateEffect::Publish(Publication::KeyboardBattery));
    lemma_connection_effects_hold(d, StateEffect::Publish(Publication::KeyboardConnection));
}

/// A lower panel that the dock turns on or off is told to the other tasks as it is then.
pub proof fn law_lower_panel_change_is_told(s: InnerState, usb: bool, pogo: bool)
    requires
        s.secondary.is_secondary_display_enabled != (s.secondary.desired_secondary_display_enabled
            && !pogo),
    ensures
        connection_effects(usb_difference(s, usb, pogo)).contains(
            StateEffect::Emit(
                Event::SecondaryDisplay(
                    s.secondary.desired_secondary_display_enabled && !pogo,
                ),
            ),
        ),
{
    let told = StateEffect::Emit(
        Event::SecondaryDisplay(s.secondary.desired_secondary_display_enabled && !pogo),
    );
    assert(seq![told][0] == told);
    lemma_connection_effects_hold(usb_difference(s, usb, pogo), told);
}

/// When the last connection is gone, the connection is published again after the grace period; while
/// any connection is left it is not.
pub proof fn law_grace_is_followed(s: InnerState, usb: bool, pogo: bool)
    requires
        s.well_formed(),
    ensures
        ({
            let effects = connection_effects(usb_difference(s, usb, pogo));
            &&& s.link.raw_kind() != KeyboardConnectionKind::Detached && !usb && !pogo
                && s.link.bt_connected_count == 0 ==> effects.contains(
                StateEffect::ScheduleConnectionRefresh,
            )
            &&& usb || pogo || s.link.bt_connected_count > 0 ==> !effects.contains(
                StateEffect::ScheduleConnectionRefresh,
            )
        }),
{
    let d = usb_difference(s, usb, pogo);
    assert(seq![StateEffect::ScheduleConnectionRefresh][0]
        == StateEffect::ScheduleConnectionRefresh);
    lemma_connection_effects_hold(d, StateEffect::ScheduleConnectionRefresh);
}

/// What has not changed is not told.
pub proof fn law_unchanged_connection_is_not_told(s: InnerState, usb: bool, pogo: bool)
    ensures
        ({
            let effects = connection_effects(usb_difference(s, usb, pogo));
            &&& s.link.is_usb_connected == usb ==> !effects.contains(
                StateEffect::Publish(Publication::KeyboardUsbConnected),
            ) && !effects.contains(StateEffect::RestoreBattery) && !effects.contains(
                StateEffect::RefreshBluetoothBattery,
            )
            &&& s.link.is_pogo_docked == pogo ==> !effects.contains(
                StateEffect::Publish(Publication::KeyboardPogoDocked),
            )
        }),
{
    let d = usb_difference(s, usb, pogo);
    lemma_connection_effects_hold(d, StateEffect::Publish(Publication::KeyboardUsbConnected));
    lemma_connection_effects_hold(d, StateEffect::RestoreBattery);
    lemma_connection_effects_hold(d, StateEffect::RefreshBluetoothBattery);
    lemma_connection_effects_hold(d, StateEffect::Publish(Publication::KeyboardPogoDocked));
}

/// A Bluetooth session is counted when it begins and when it ends; the end of the last one forgets
/// the battery level unless USB can tell it. The last known level and all else stay.
pub proof fn law_bluetooth_sessions_are_counted(s: InnerState, now: u64)
    ensures
        ({
            let t = s.with_bluetooth_session(now);
            &&& s.link.bt_connected_count < usize::MAX ==> t.link.bt_connected_count
                == s.link.bt_connected_count + 1
            &&& t.link.is_usb_connected == s.link.is_usb_connected
            &&& t.link.is_pogo_docked == s.link.is_pogo_docked
            &&& t.battery == s.battery && t.light == s.light && t.secondary == s.secondary
        }),
        ({
            let t = s.without_bluetooth_session(now);
            &&& s.link.bt_connected_count > 0 ==> t.link.bt_connected_count
                == s.link.bt_connected_count - 1
            &&& s.link.bt_connected_count == 0 ==> t.link.bt_connected_count == 0
            &&& t.link.is_usb_connected == s.link.is_usb_connected
            &&& t.link.is_pogo_docked == s.link.is_pogo_docked
            &&& s.link.bt_connected_count == 1 && !s.link.is_usb_connected
                ==> t.battery.keyboard_battery_pct is None && !t.battery.keyboard_battery_charging
                && !t.battery.keyboard_battery_full
            &&& s.link.bt_connected_count != 1 || s.link.is_usb_connected ==> t.battery
                == s.battery
            &&& t.battery.keyboard_battery_last_known_pct
                == s.battery.keyboard_battery_last_known_pct
            &&& t.battery.keyboard_battery_last_known_full
                == s.battery.keyboard_battery_last_known_full
            &&& t.light == s.light && t.secondary == s.secondary
        }),
        s.last_session_without_usb() <==> s.link.bt_connected_count == 1
            && !s.link.is_usb_connected,
        s.link.bt_connected_count > 0 ==> s.fewer_sessions().bt_connected_count
            == s.link.bt_connected_count - 1,
{
}

/// A battery level is kept with its status, also as the last known one; it is stored and published
/// exactly where it tells something new.
pub proof fn law_battery_level_is_kept_and_told(
    before: BatteryState,
    pct: u8,
    charging: bool,
    full: bool,
)
    ensures
        ({
            let level = BatteryState::level(pct, charging, full);
            &&& level.keyboard_battery_pct == Some(pct)
            &&& level.keyboard_battery_charging == charging
            &&& level.keyboard_battery_full == full
            &&& level.keyboard_battery_last_known_pct == Some(pct)
            &&& level.keyboard_battery_last_known_full == full
        }),
        ({
            let told = level_told(before, pct, charging, full);
            let new = before.keyboard_battery_pct != Some(pct) || before.keyboard_battery_charging
                != charging || before.keyboard_battery_full != full
                || before.keyboard_battery_last_known_pct != Some(pct)
                || before.keyboard_battery_last_known_full != full;
            &&& new ==> told.len() == 2 && told[0] == StateEffect::StoreBattery(
                PersistedKeyboardBattery { pct, charging, full },
            ) && told[1] == StateEffect::Publish(Publication::KeyboardBattery)
            &&& !new ==> told.len() == 0
        }),
{
}

/// Forgetting the level keeps the last known one; taking a last known one keeps the level.
pub proof fn law_last_known_battery(battery: BatteryState, pct: u8, full: bool)
    ensures
        battery.unknown().keyboard_battery_pct is None,
        !battery.unknown().keyboard_battery_charging,
        !battery.unknown().keyboard_battery_full,
        battery.unknown().keyboard_battery_last_known_pct
            == battery.keyboard_battery_last_known_pct,
        battery.unknown().keyboard_battery_last_known_full
            == battery.keyboard_battery_last_known_full,
        battery.last_known(pct, full).keyboard_battery_last_known_pct == Some(pct),
        battery.last_known(pct, full).keyboard_battery_last_known_full == full,
        battery.last_known(pct, full).keyboard_battery_pct == battery.keyboard_battery_pct,
        battery.last_known(pct, full).keyboard_battery_charging
            == battery.keyboard_battery_charging,
        battery.last_known(pct, full).keyboard_battery_full == battery.keyboard_battery_full,
{
}

/// A stored battery is the last known one at start, unless it is empty and not full; no level is
/// known then.
pub proof fn law_stored_battery_is_the_last_known(b: PersistedKeyboardBattery)
    ensures
        says_something(Some(b)) <==> b.pct > 0 || b.full,
        !says_something(None),
        stored_battery(Some(b)).keyboard_battery_last_known_full == b.full,
        b.pct > 0 || b.full ==> stored_battery(Some(b)).keyboard_battery_last_known_pct == Some(
            b.pct,
        ),
        b.pct == 0 && !b.full ==> stored_battery(Some(b)).keyboard_battery_last_known_pct is None,
        stored_battery(Some(b)).keyboard_battery_pct is None,
        !stored_battery(Some(b)).keyboard_battery_charging,
        !stored_battery(Some(b)).keyboard_battery_full,
        stored_battery(None).keyboard_battery_pct is None,
        stored_battery(None).keyboard_battery_last_known_pct is None,
        !stored_battery(None).keyboard_battery_last_known_full,
{
}

/// The lower panel is on exactly if it is wanted and not covered, and what is wanted is kept.
pub proof fn law_lower_panel(desired: bool, docked: bool)
    ensures
        SecondaryState::wanted(desired, docked).desired_secondary_display_enabled == desired,
        SecondaryState::wanted(desired, docked).is_secondary_display_enabled <==> desired
            && !docked,
{
}

/// The other mode is never the same one, and its other one is the first again; a mode that is new is
/// stored and published.
pub proof fn law_pen_modes(t: TabletState, mode: TabletMapMode)
    ensures
        other_mode(mode) != mode,
        other_mode(other_mode(mode)) == mode,
        t.tablet_mapping_mode == mode ==> mode_told(t, mode).len() == 0,
        t.tablet_mapping_mode != mode ==> mode_told(t, mode).len() == 2 && mode_told(t, mode)[0]
            == StateEffect::StoreDisplay(DisplayStateChange::TabletMappingMode(mode)) && mode_told(
            t,
            mode,
        )[1] == StateEffect::Publish(Publication::TabletMapping),
        t.config().enable == t.tablet_mapping_enabled,
        t.config().mode == t.tablet_mapping_mode,
{
}

/// What holds between any two operations: the memory of the connection agrees with it, a battery
/// without a level has no status, and the lower panel is on exactly if it is wanted and not covered.
pub proof fn law_state_between_operations(s: InnerState)
    ensures
        s.well_formed() ==> (s.link.raw_kind() != KeyboardConnectionKind::Detached
            ==> s.link.keyboard_last_connection_kind == s.link.raw_kind()
            && s.link.keyboard_disconnected_at is None),
        s.well_formed() ==> (s.battery.keyboard_battery_pct is None
            ==> !s.battery.keyboard_battery_charging && !s.battery.keyboard_battery_full),
        s.well_formed() ==> (s.secondary.is_secondary_display_enabled
            <==> s.secondary.desired_secondary_display_enabled && !s.link.is_pogo_docked),
{
}

} // verus!
