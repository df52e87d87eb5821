//! The keyboard on Bluetooth: its special keys, the readers of its device nodes, and the writes to
//! its vendor characteristic.
use vstd::prelude::*;

use crate::config::{special_key, SpecialKey};
use crate::events::Event;
use crate::state::KeyboardBacklightState;
use crate::text::{contains, starts_with};

verus! {

/// Name of the keyboard's device nodes.
pub const BT_KEYBOARD_NAME: &'static str = "ASUS Zenbook Duo Keyboard";

/// Two equal values within this time come from the two device nodes of one key press.
pub const TWIN_WINDOW_MS: u64 = 40;

/// Error number of the system for a device that is gone.
pub const ENODEV: i32 = 19;

// ── Special keys ─────────────────────────────────────────────────────────────

/// The last value that was not held back, with its time.
#[derive(Clone, Copy, Debug)]
pub struct TwinFilter {
    pub last: Option<(i32, u64)>,
}

impl TwinFilter {
    pub fn new() -> (r: Self)
        ensures
            r.last is None,
    {
        TwinFilter { last: None }
    }

    /// A value other than zero that came a moment ago already.
    pub open spec fn is_twin(self, value: i32, now: u64) -> bool {
        value != 0 && (self.last matches Some((v, t)) && v == value && now - t < TWIN_WINDOW_MS)
    }

    /// Zero is not remembered, nor a value that is held back.
    pub open spec fn after(self, value: i32, now: u64) -> TwinFilter {
        if value == 0 || self.is_twin(value, now) {
            self
        } else {
            TwinFilter { last: Some((value, now)) }
        }
    }
}

/// Whether a value is to be held back because the other device node has reported it.
pub fn suppress_twin_abs_misc_pulse(filter: &mut TwinFilter, value: i32, now: u64) -> (r: bool)
    ensures
        r == old(filter).is_twin(value, now),
        *final(filter) == old(filter).after(value, now),
{
    if value == 0 {
        return false;
    }
    let duplicate = match filter.last {
        Some((v, t)) => v == value && (now < t || now - t < TWIN_WINDOW_MS),
        None => false,
    };
    if !duplicate {
        filter.last = Some((value, now));
    }
    duplicate
}

/// Both nodes of the keyboard report a press: the second report is held back, a zero never is.
pub proof fn law_twin_is_suppressed_once(f: TwinFilter, value: i32, t1: u64, t2: u64)
    requires
        value != 0,
        t1 <= t2 < t1 + 40,
        !f.is_twin(value, t1),
    ensures
        f.after(value, t1).is_twin(value, t2),
        !f.after(value, t1).is_twin(0, t2),
{
}

/// What a value on the vendor axis says.
#[derive(Clone, Copy, Debug, PartialEq, Eq, Structural)]
pub enum BtKeyEvent {
    HeldBack,
    /// No special key is pressed, or none that is known.
    Released,
    Key(SpecialKey),
}

pub open spec fn bt_key_event(f: TwinFilter, value: i32, now: u64) -> BtKeyEvent {
    if f.is_twin(value, now) {
        BtKeyEvent::HeldBack
    } else {
        match crate::config::key_of_code(value as int) {
            Some(key) => BtKeyEvent::Key(key),
            None => BtKeyEvent::Released,
        }
    }
}

/// Reads a value on the vendor axis.
pub fn parse_keyboard_event(filter: &mut TwinFilter, value: i32, now: u64) -> (r: BtKeyEvent)
    ensures
        r == bt_key_event(*old(filter), value, now),
        *final(filter) == old(filter).after(value, now),
{
    if suppress_twin_abs_misc_pulse(filter, value, now) {
        return BtKeyEvent::HeldBack;
    }
    match special_key(value) {
        Some(key) => BtKeyEvent::Key(key),
        None => BtKeyEvent::Released,
    }
}

// ── Addresses ────────────────────────────────────────────────────────────────

/// An address as it stands in object paths: colons become underscores.
pub open spec fn underscored(s: Seq<char>) -> Seq<char> {
    s.map_values(
        |c: char|
            if c == ':' {
                '_'
            } else {
                c
            },
    )
}

/// The address in an upper-case text, if there is one.
pub fn mac_key(upper: &str) -> (r: Option<String>)
    ensures
        match r {
            Some(mac) => upper@.len() > 0 && mac@ == underscored(upper@),
            None => upper@.len() == 0,
        },
{
    let c = crate::text::chars_of(upper);
    if c.len() == 0 {
        return None;
    }
    let mut s = String::new();
    let mut i: usize = 0;
    while i < c.len()
        invariant
            i <= c@.len(),
            s@ =~= underscored(c@).take(i as int),
        decreases c@.len() - i,
    {
        if c[i] == ':' {
            crate::text::push_char(&mut s, '_');
        } else {
            crate::text::push_char(&mut s, c[i]);
        }
        i = i + 1;
    }
    proof {
        assert(s@ =~= underscored(upper@));
    }
    Some(s)
}

/// The address in the `uniq` attribute of a device node, if there is one.
pub fn mac_from_uniq(uniq: &str) -> (r: Option<String>)
    ensures
        ({
            let upper = crate::text::uppercase(crate::text::trimmed(uniq@));
            match r {
                Some(mac) => upper.len() > 0 && mac@ == underscored(upper),
                None => upper.len() == 0,
            }
        }),
{
    let t = crate::text::trim(uniq);
    let upper = crate::text::to_uppercase(t.as_str());
    mac_key(upper.as_str())
}

/// The key under which the readers of a keyboard are kept: its address, else the node's path.
pub fn reader_key(mac: Option<String>, path: &str) -> (r: String)
    ensures
        r@ == (match mac {
            Some(m) => m@,
            None => "no-uniq:"@ + path@,
        }),
{
    match mac {
        Some(m) => m,
        None => crate::text::join2("no-uniq:", path),
    }
}

/// The object path of a keyboard.
pub fn bluez_device_path(mac: &str) -> (r: String)
    ensures
        r@ == "/org/bluez/hci0/dev_"@ + mac@,
{
    crate::text::join2("/org/bluez/hci0/dev_", mac)
}

// ── The vendor characteristic ────────────────────────────────────────────────

pub const REPORT_CHAR_UUID: &'static str = "00002a4d-0000-1000-8000-00805f9b34fb";

pub const REPORT_REF_UUID: &'static str = "00002908-0000-1000-8000-00805f9b34fb";

/// An object of the Bluetooth daemon, with the texts of the UUIDs that it carries.
pub struct GattObject {
    pub path: String,
    pub characteristic_uuid: Option<String>,
    pub descriptor_uuid: Option<String>,
}

pub open spec fn mentions(uuid: Option<String>, wanted: Seq<char>) -> bool {
    uuid matches Some(u) && crate::text::contains_text(u@, wanted)
}

/// The object is a report characteristic of the device.
pub open spec fn is_report_char(o: GattObject, device_path: Seq<char>) -> bool {
    device_path.is_prefix_of(o.path@) && mentions(o.characteristic_uuid, REPORT_CHAR_UUID@)
}

/// The object is a report reference below the characteristic.
pub open spec fn is_report_ref(o: GattObject, char_path: Seq<char>) -> bool {
    char_path.is_prefix_of(o.path@) && o.path@.len() > char_path.len() && mentions(
        o.descriptor_uuid,
        REPORT_REF_UUID@,
    )
}

pub open spec fn paths(objects: Seq<GattObject>) -> Seq<Seq<char>> {
    objects.map_values(|o: GattObject| o.path@)
}

fn mentions_uuid(uuid: &Option<String>, wanted: &str) -> (r: bool)
    ensures
        r == mentions(*uuid, wanted@),
{
    match uuid {
        Some(u) => contains(u.as_str(), wanted),
        None => false,
    }
}

/// The order of texts by their characters.
pub open spec fn text_le(a: Seq<char>, b: Seq<char>) -> bool
    decreases a.len(),
{
    if a.len() == 0 {
        true
    } else if b.len() == 0 {
        false
    } else if a[0] != b[0] {
        a[0] < b[0]
    } else {
        text_le(a.drop_first(), b.drop_first())
    }
}

fn not_after(a: &str, b: &str) -> (r: bool)
    ensures
        r == text_le(a@, b@),
{
    let x = crate::text::chars_of(a);
    let y = crate::text::chars_of(b);
    let mut i: usize = 0;
    proof {
        assert(x@.skip(0) =~= x@);
        assert(y@.skip(0) =~= y@);
    }
    while i < x.len()
        invariant
            i <= x@.len(),
            i <= y@.len(),
            x@ == a@,
            y@ == b@,
            text_le(a@, b@) == text_le(x@.skip(i as int), y@.skip(i as int)),
        decreases x@.len() - i,
    {
        if i == y.len() {
            return false;
        }
        proof {
            assert(x@.skip(i as int)[0] == x@[i as int]);
            assert(y@.skip(i as int)[0] == y@[i as int]);
            assert(x@.skip(i as int).drop_first() =~= x@.skip(i as int + 1));
            assert(y@.skip(i as int).drop_first() =~= y@.skip(i as int + 1));
        }
        if x[i] != y[i] {
            return x[i] < y[i];
        }
        i = i + 1;
    }
    true
}

proof fn lemma_le_total(a: Seq<char>, b: Seq<char>)
    ensures
        text_le(a, b) || text_le(b, a),
    decreases a.len(),
{
    if a.len() > 0 && b.len() > 0 && a[0] == b[0] {
        lemma_le_total(a.drop_first(), b.drop_first());
    }
}

proof fn lemma_le_transitive(a: Seq<char>, b: Seq<char>, c: Seq<char>)
    requires
        text_le(a, b),
        text_le(b, c),
    ensures
        text_le(a, c),
    decreases a.len(),
{
    if a.len() > 0 && b.len() > 0 && c.len() > 0 && a[0] == b[0] && b[0] == c[0] {
        lemma_le_transitive(a.drop_first(), b.drop_first(), c.drop_first());
    }
}

pub open spec fn ascending(s: Seq<Seq<char>>) -> bool {
    forall|i: int, j: int| 0 <= i < j < s.len() ==> text_le(#[trigger] s[i], #[trigger] s[j])
}

/// Puts a text into an ascending list, before the first that must come after it.
fn insert_sorted(list: &mut Vec<String>, item: String)
    requires
        ascending(crate::text::texts(old(list)@)),
    ensures
        ascending(crate::text::texts(final(list)@)),
        crate::text::texts(final(list)@).to_multiset()
            == crate::text::texts(old(list)@).push(item@).to_multiset(),
{
    let ghost before = crate::text::texts(list@);
    let ghost x = item@;
    let mut at: usize = 0;
    while at < list.len() && not_after(list[at].as_str(), item.as_str())
        invariant
            at <= list@.len(),
            before == crate::text::texts(list@),
            x == item@,
            forall|k: int| 0 <= k < at ==> text_le(#[trigger] before[k], x),
        decreases list@.len() - at,
    {
        proof {
            assert(before[at as int] == list@[at as int]@);
        }
        at = at + 1;
    }
    list.insert(at, item);
    proof {
        let after = crate::text::texts(list@);
        assert(after =~= before.insert(at as int, x));
        before.insert_ensures(at as int, x);
        if at < before.len() {
            assert(!text_le(before[at as int], x));
            lemma_le_total(before[at as int], x);
        }
        assert forall|i: int, j: int| 0 <= i < j < after.len() implies text_le(
            #[trigger] after[i],
            #[trigger] after[j],
        ) by {
            let a = at as int;
            if j < a {
                assert(after[i] == before[i] && after[j] == before[j]);
            } else if j == a {
                assert(after[i] == before[i]);
            } else if i > a {
                assert(after[i] == before[i - 1] && after[j] == before[j - 1]);
            } else if i == a {
                assert(after[j] == before[j - 1]);
                if j - 1 > a {
                    assert(text_le(before[a], before[j - 1]));
                    lemma_le_transitive(x, before[a], before[j - 1]);
                }
            } else {
                assert(after[i] == before[i] && after[j] == before[j - 1]);
            }
        }
        before.to_multiset_ensures();
        lemma_insert_multiset(before, at as int, x);
    }
}

proof fn lemma_insert_multiset(s: Seq<Seq<char>>, at: int, x: Seq<char>)
    requires
        0 <= at <= s.len(),
    ensures
        s.insert(at, x).to_multiset() == s.push(x).to_multiset(),
{
    let l = s.take(at);
    let r = s.skip(at);
    vstd::seq_lib::lemma_multiset_commutative(l.push(x), r);
    vstd::seq_lib::lemma_multiset_commutative(l, r);
    l.to_multiset_ensures();
    s.to_multiset_ensures();
    assert(s.insert(at, x) =~= l.push(x) + r);
    assert(s =~= l + r);
    assert(l.push(x).to_multiset() =~= l.to_multiset().insert(x));
    assert(s.push(x).to_multiset() =~= s.to_multiset().insert(x));
    assert(s.insert(at, x).to_multiset() =~= s.push(x).to_multiset());
}

/// The report characteristics of a device, by path in ascending order.
pub fn vendor_char_candidates(objects: &Vec<GattObject>, device_path: &str) -> (r: Vec<String>)
    ensures
        ascending(crate::text::texts(r@)),
        crate::text::texts(r@).to_multiset() == paths(
            objects@.filter(|o: GattObject| is_report_char(o, device_path@)),
        ).to_multiset(),
{
    let ghost wanted = |o: GattObject| is_report_char(o, device_path@);
    let mut out: Vec<String> = Vec::new();
    let mut i: usize = 0;
    proof {
        reveal(Seq::filter);
        assert(crate::text::texts(out@) =~= paths(
            objects@.take(0).filter(wanted),
        ));
    }
    while i < objects.len()
        invariant
            i <= objects@.len(),
            wanted == (|o: GattObject| is_report_char(o, device_path@)),
            ascending(crate::text::texts(out@)),
            crate::text::texts(out@).to_multiset() == paths(
                objects@.take(i as int).filter(wanted),
            ).to_multiset(),
        decreases objects@.len() - i,
    {
        let o = &objects[i];
        let ghost seen = objects@.take(i as int).filter(wanted);
        let ghost before = crate::text::texts(out@);
        proof {
            reveal(Seq::filter);
            assert(objects@.take(i as int + 1).drop_last() =~= objects@.take(i as int));
            assert(objects@.take(i as int + 1).last() == objects@[i as int]);
        }
        if starts_with(o.path.as_str(), device_path) && mentions_uuid(
            &o.characteristic_uuid,
            REPORT_CHAR_UUID,
        ) {
            insert_sorted(&mut out, o.path.clone());
            proof {
                assert(paths(seen.push(*o)) =~= paths(seen).push(o.path@));
                before.to_multiset_ensures();
                paths(seen).to_multiset_ensures();
                assert(before.push(o.path@).to_multiset() =~= paths(seen).push(
                    o.path@,
                ).to_multiset());
            }
        }
        i = i + 1;
    }
    proof {
        assert(objects@.take(objects@.len() as int) =~= objects@);
    }
    out
}

/// The report references below a characteristic, in the order of the objects.
pub fn report_references(objects: &Vec<GattObject>, char_path: &str) -> (r: Vec<String>)
    ensures
        crate::text::texts(r@) == paths(
            objects@.filter(|o: GattObject| is_report_ref(o, char_path@)),
        ),
{
    let ghost wanted = |o: GattObject| is_report_ref(o, char_path@);
    let length: usize = char_path.unicode_len();
    let mut out: Vec<String> = Vec::new();
    let mut i: usize = 0;
    proof {
        reveal(Seq::filter);
        assert(crate::text::texts(out@) =~= paths(
            objects@.take(0).filter(wanted),
        ));
    }
    while i < objects.len()
        invariant
            i <= objects@.len(),
            length == char_path@.len(),
            wanted == (|o: GattObject| is_report_ref(o, char_path@)),
            crate::text::texts(out@) == paths(
                objects@.take(i as int).filter(wanted),
            ),
        decreases objects@.len() - i,
    {
        let o = &objects[i];
        let ghost seen = objects@.take(i as int).filter(wanted);
        let ghost before = out@;
        proof {
            reveal(Seq::filter);
            assert(objects@.take(i as int + 1).drop_last() =~= objects@.take(i as int));
            assert(objects@.take(i as int + 1).last() == objects@[i as int]);
        }
        if starts_with(o.path.as_str(), char_path) && o.path.as_str().unicode_len() > length
            && mentions_uuid(&o.descriptor_uuid, REPORT_REF_UUID) {
            out.push(o.path.clone());
            proof {
                assert(paths(seen.push(*o)) =~= paths(seen).push(o.path@));
                assert(crate::text::texts(out@)
                    =~= crate::text::texts(before).push(o.path@));
            }
        }
        i = i + 1;
    }
    proof {
        assert(objects@.take(objects@.len() as int) =~= objects@);
    }
    out
}

/// Whether the value of a report reference is that of the vendor feature report.
pub fn is_vendor_reference(value: &[u8]) -> (r: bool)
    ensures
        r == (value@ == seq![0x5au8, 0x03]),
{
    if value.len() == 2 && value[0] == 0x5a && value[1] == 0x03 {
        proof {
            assert(value@ =~= seq![0x5au8, 0x03]);
        }
        true
    } else {
        false
    }
}

// ── Writes ───────────────────────────────────────────────────────────────────

/// The value that sets the backlight.
pub fn bt_backlight_value(state: KeyboardBacklightState) -> (r: Vec<u8>)
    ensures
        r@ == seq![0xbau8, 0xc5, 0xc4, state.rank()],
{
    vec![0xba, 0xc5, 0xc4, state.level()]
}

/// The value that sets the microphone LED.
pub fn bt_mic_mute_value(muted: bool) -> (r: Vec<u8>)
    ensures
        r@ == seq![
            0xd0u8,
            0x7c,
            if muted {
                1u8
            } else {
                0u8
            },
        ],
{
    let value: u8 = if muted {
        1
    } else {
        0
    };
    vec![0xd0, 0x7c, value]
}

/// The value that sets the Fn lock.
pub fn bt_fn_lock_value(fn_lock: bool) -> (r: Vec<u8>)
    ensures
        r@ == seq![
            0xd0u8,
            0x4e,
            if fn_lock {
                0u8
            } else {
                1u8
            },
        ],
{
    let value: u8 = if fn_lock {
        0
    } else {
        1
    };
    vec![0xd0, 0x4e, value]
}

/// The value that an event of the daemon asks for, if any.
pub fn bt_control_value(event: Event) -> (r: Option<Vec<u8>>)
    ensures
        match event {
            Event::Backlight(state) => r matches Some(bytes) && bytes@ == seq![
                0xbau8,
                0xc5,
                0xc4,
                state.rank(),
            ],
            Event::MicMuteLed(on) => r matches Some(bytes) && bytes@ == seq![
                0xd0u8,
                0x7c,
                if on {
                    1u8
                } else {
                    0u8
                },
            ],
            _ => r is None,
        },
{
    match event {
        Event::Backlight(state) => Some(bt_backlight_value(state)),
        Event::MicMuteLed(on) => Some(bt_mic_mute_value(on)),
        _ => None,
    }
}

/// Both ways of writing set the same backlight: the USB report is the Bluetooth value behind the
/// report's number, filled up with zeros.
pub proof fn law_bluetooth_value_mirrors_usb(state: KeyboardBacklightState)
    ensures
        crate::keyboard_usb::padded(seq![0x5au8, 0xba, 0xc5, 0xc4, state.rank()]).subrange(1, 5)
            == seq![0xbau8, 0xc5, 0xc4, state.rank()],
{
    assert(crate::keyboard_usb::padded(
        seq![0x5au8, 0xba, 0xc5, 0xc4, state.rank()],
    ).subrange(1, 5) =~= seq![0xbau8, 0xc5, 0xc4, state.rank()]);
}

pub const RESTORE_ROUNDS: u32 = 4;

pub const RESTORE_PAUSE_MS: u64 = 450;

/// One round of setting up the keyboard: how long to wait, and what to write.
pub fn restore_round(
    round: u32,
    fn_lock: bool,
    backlight: KeyboardBacklightState,
    mic_mute_led: bool,
) -> (r: (u64, Vec<u8>, Vec<u8>, Vec<u8>))
    requires
        round < RESTORE_ROUNDS,
    ensures
        r.0 == (if round > 0 {
            RESTORE_PAUSE_MS
        } else {
            0
        }),
        r.1@ == seq![
            0xd0u8,
            0x4e,
            if fn_lock {
                0u8
            } else {
                1u8
            },
        ],
        r.2@ == seq![0xbau8, 0xc5, 0xc4, backlight.rank()],
        r.3@ == seq![
            0xd0u8,
            0x7c,
            if mic_mute_led {
                1u8
            } else {
                0u8
            },
        ],
{
    let pause: u64 = if round > 0 {
        RESTORE_PAUSE_MS
    } else {
        0
    };
    (
        pause,
        bt_fn_lock_value(fn_lock),
        bt_backlight_value(backlight),
        bt_mic_mute_value(mic_mute_led),
    )
}

pub const GATT_WRITE_ATTEMPTS: u32 = 12;

pub const GATT_FIRST_DELAY_MS: u64 = 45;

pub const GATT_MAX_DELAY_MS: u64 = 400;

/// A write in progress: the number of the attempt being made, from 1, and the next pause.
#[derive(Clone, Copy, Debug, PartialEq, Eq, Structural)]
pub struct GattWrite {
    pub attempt: u32,
    pub delay_ms: u64,
}

#[derive(Clone, Copy, Debug, PartialEq, Eq, Structural)]
pub enum GattWriteStep {
    RetryAfter { ms: u64 },
    GiveUp,
}

/// The Bluetooth daemon is still at another write.
pub open spec fn busy(lowered: Seq<char>) -> bool {
    crate::text::contains_text(lowered, "in progress"@) || crate::text::contains_text(
        lowered,
        "inprogress"@,
    ) || crate::text::contains_text(lowered, "busy"@)
}

impl GattWrite {
    pub open spec fn well_formed(self) -> bool {
        1 <= self.attempt <= GATT_WRITE_ATTEMPTS && self.delay_ms <= GATT_MAX_DELAY_MS
    }

    /// A write that failed because of another is repeated after a pause that doubles up to a
    /// limit; any other failure, and that of the last attempt, is final.
    pub open spec fn next(self, is_busy: bool) -> (GattWrite, GattWriteStep) {
        if is_busy && self.attempt < GATT_WRITE_ATTEMPTS {
            (
                GattWrite {
                    attempt: (self.attempt + 1) as u32,
                    delay_ms: if self.delay_ms * 2 <= GATT_MAX_DELAY_MS {
                        (self.delay_ms * 2) as u64
                    } else {
                        GATT_MAX_DELAY_MS
                    },
                },
                GattWriteStep::RetryAfter { ms: self.delay_ms },
            )
        } else {
            (self, GattWriteStep::GiveUp)
        }
    }

    /// The first attempt.
    pub fn new() -> (r: Self)
        ensures
            r.well_formed(),
            r == (GattWrite { attempt: 1, delay_ms: GATT_FIRST_DELAY_MS }),
    {
        GattWrite { attempt: 1, delay_ms: GATT_FIRST_DELAY_MS }
    }

    /// Takes a failure, as its text in lower case.
    pub fn failed_with(&mut self, lowered: &str) -> (r: GattWriteStep)
        requires
            old(self).well_formed(),
        ensures
            (*final(self), r) == old(self).next(busy(lowered@)),
            final(self).well_formed(),
    {
        let is_busy = contains(lowered, "in progress") || contains(lowered, "inprogress")
            || contains(lowered, "busy");
        if is_busy && self.attempt < GATT_WRITE_ATTEMPTS {
            let ms: u64 = self.delay_ms;
            self.attempt = self.attempt + 1;
            self.delay_ms = if ms * 2 <= GATT_MAX_DELAY_MS {
                ms * 2
            } else {
                GATT_MAX_DELAY_MS
            };
            GattWriteStep::RetryAfter { ms }
        } else {
            GattWriteStep::GiveUp
        }
    }

    /// Takes a failure, as its text.
    pub fn failed(&mut self, error: &str) -> (r: GattWriteStep)
        requires
            old(self).well_formed(),
        ensures
            (*final(self), r) == old(self).next(busy(crate::text::lowercase(error@))),
            final(self).well_formed(),
    {
        let lowered = crate::text::to_lowercase(error);
        self.failed_with(lowered.as_str())
    }
}

/// A write is attempted at most twelve times, with pauses that never shrink.
pub proof fn law_gatt_write_is_bounded(w: GattWrite, is_busy: bool)
    requires
        w.well_formed(),
    ensures
        w.next(is_busy).1 is RetryAfter ==> w.attempt < w.next(is_busy).0.attempt <= 12
            && w.delay_ms <= w.next(is_busy).0.delay_ms <= 400,
        w.attempt == 12 ==> w.next(is_busy).1 is GiveUp,
        !is_busy ==> w.next(is_busy).1 is GiveUp,
{
}

// ── What the values and writes mean ──────────────────────────────────────────

/// A value is held back only if it is not zero and the same one came less than 40 milliseconds ago;
/// what is not held back is remembered, but for zero.
pub proof fn law_twins_are_close_and_equal(f: TwinFilter, value: i32, now: u64, v: i32, t: u64)
    requires
        f.last == Some((v, t)),
    ensures
        f.is_twin(value, now) <==> value != 0 && value == v && now < t + 40,
        f.is_twin(value, now) || value == 0 ==> f.after(value, now).last == f.last,
        !f.is_twin(value, now) && value != 0 ==> f.after(value, now).last == Some((value, now)),
        !(TwinFilter { last: None }).is_twin(value, now),
        value != 0 ==> (TwinFilter { last: None }).after(value, now).last == Some((value, now)),
{
}

/// Each special key has its code on the vendor axis, the same as on the vendor channel; any other
/// value releases the keys.
pub proof fn law_axis_values_are_key_codes(f: TwinFilter, value: i32, now: u64)
    requires
        !f.is_twin(value, now),
    ensures
        ({
            let read = bt_key_event(f, value, now);
            &&& read == BtKeyEvent::Key(SpecialKey::KeyboardBacklight) <==> value == 199
            &&& read == BtKeyEvent::Key(SpecialKey::BrightnessDown) <==> value == 16
            &&& read == BtKeyEvent::Key(SpecialKey::BrightnessUp) <==> value == 32
            &&& read == BtKeyEvent::Key(SpecialKey::SwapUpDownDisplay) <==> value == 156
            &&& read == BtKeyEvent::Key(SpecialKey::MicrophoneMute) <==> value == 124
            &&& read == BtKeyEvent::Key(SpecialKey::EmojiPicker) <==> value == 126
            &&& read == BtKeyEvent::Key(SpecialKey::MyAsus) <==> value == 134
            &&& read == BtKeyEvent::Key(SpecialKey::ToggleSecondaryDisplay) <==> value == 106
            &&& read == BtKeyEvent::Released <==> !(value == 199 || value == 16 || value == 32
                || value == 156 || value == 124 || value == 126 || value == 134 || value == 106)
        }),
{
    crate::config::law_special_key_codes(value as int);
}

/// A value that is held back says nothing.
pub proof fn law_twins_say_nothing(f: TwinFilter, value: i32, now: u64)
    ensures
        bt_key_event(f, value, now) == BtKeyEvent::HeldBack <==> f.is_twin(value, now),
{
}

/// Every colon becomes an underscore and every other character stays.
pub proof fn law_addresses_in_paths(s: Seq<char>, i: int)
    requires
        0 <= i < s.len(),
    ensures
        underscored(s).len() == s.len(),
        s[i] == ':' ==> underscored(s)[i] == '_',
        s[i] != ':' ==> underscored(s)[i] == s[i],
{
}

/// A report characteristic lies at or below its device and carries the UUID of reports; a report
/// reference lies strictly below its characteristic and carries that of report references.
pub proof fn law_reports_by_uuid(o: GattObject, path: Seq<char>)
    ensures
        is_report_char(o, path) <==> path.is_prefix_of(o.path@) && o.characteristic_uuid is Some
            && crate::text::contains_text(
            o.characteristic_uuid->0@,
            "00002a4d-0000-1000-8000-00805f9b34fb"@,
        ),
        is_report_ref(o, path) <==> path.is_prefix_of(o.path@) && o.path@.len() > path.len()
            && o.descriptor_uuid is Some && crate::text::contains_text(
            o.descriptor_uuid->0@,
            "00002908-0000-1000-8000-00805f9b34fb"@,
        ),
{
}

/// The paths of objects, one each, in order.
pub proof fn law_paths_of_objects(objects: Seq<GattObject>, i: int)
    requires
        0 <= i < objects.len(),
    ensures
        paths(objects).len() == objects.len(),
        paths(objects)[i] == objects[i].path@,
{
}

/// Texts are ordered by the first character in which they differ, and a text comes before what it
/// begins.
pub proof fn law_texts_are_ordered_by_their_first_difference(
    common: Seq<char>,
    x: char,
    a: Seq<char>,
    y: char,
    b: Seq<char>,
)
    requires
        x < y,
    ensures
        text_le(common + seq![x] + a, common + seq![y] + b),
        !text_le(common + seq![y] + b, common + seq![x] + a),
        text_le(common, common + a),
        a.len() > 0 ==> !text_le(common + a, common),
    decreases common.len(),
{
    let left = common + seq![x] + a;
    let right = common + seq![y] + b;
    if common.len() == 0 {
        assert(left[0] == x && right[0] == y);
        assert(common + a =~= a);
    } else {
        let rest = common.drop_first();
        law_texts_are_ordered_by_their_first_difference(rest, x, a, y, b);
        assert(left.drop_first() =~= rest + seq![x] + a);
        assert(right.drop_first() =~= rest + seq![y] + b);
        assert((common + a).drop_first() =~= rest + a);
        assert(left[0] == common[0] && right[0] == common[0] && (common + a)[0] == common[0]);
    }
}

/// The order of texts is total and transitive.
pub proof fn law_order_of_texts(a: Seq<char>, b: Seq<char>, c: Seq<char>)
    ensures
        text_le(a, b) || text_le(b, a),
        text_le(a, b) && text_le(b, c) ==> text_le(a, c),
{
    lemma_le_total(a, b);
    if text_le(a, b) && text_le(b, c) {
        lemma_le_transitive(a, b, c);
    }
}

/// A list is ascending exactly if no text of it must come before an earlier one.
pub proof fn law_ascending_lists(s: Seq<Seq<char>>, i: int, j: int)
    requires
        ascending(s),
        0 <= i < j < s.len(),
    ensures
        text_le(s[i], s[j]),
{
}

/// A failure is that of a busy daemon exactly if its text says so in one of three ways.
pub proof fn law_busy_texts(lowered: Seq<char>)
    ensures
        busy(lowered) <==> crate::text::contains_text(lowered, "in progress"@)
            || crate::text::contains_text(lowered, "inprogress"@) || crate::text::contains_text(
            lowered,
            "busy"@,
        ),
{
}

/// A write that meets a busy daemon is repeated after the present pause, up to twelve attempts in
/// all; the pause doubles, up to 400 milliseconds. Any other failure is final.
pub proof fn law_busy_writes_are_repeated(w: GattWrite)
    requires
        w.well_formed(),
    ensures
        w.attempt < 12 ==> ({
            let (t, step) = w.next(true);
            &&& step == (GattWriteStep::RetryAfter { ms: w.delay_ms })
            &&& t.attempt == w.attempt + 1
            &&& w.delay_ms <= 200 ==> t.delay_ms == 2 * w.delay_ms
            &&& w.delay_ms >= 200 ==> t.delay_ms == 400
        }),
        w.attempt >= 12 ==> w.next(true).1 == GattWriteStep::GiveUp,
        w.next(false) == (w, GattWriteStep::GiveUp),
        GATT_FIRST_DELAY_MS == 45,
        GATT_WRITE_ATTEMPTS == 12,
        GATT_MAX_DELAY_MS == 400,
{
}

/// The keyboard is set up four times, 450 milliseconds apart; its nodes have its name, and 19 is the
/// number of the error for a device that is gone.
pub proof fn law_keyboard_constants()
    ensures
        RESTORE_ROUNDS == 4,
        RESTORE_PAUSE_MS == 450,
        TWIN_WINDOW_MS == 40,
        ENODEV == 19,
        BT_KEYBOARD_NAME@ == "ASUS Zenbook Duo Keyboard"@,
{
}

/// A write in progress is at one of twelve attempts, and pauses for 400 milliseconds at most.
pub proof fn law_writes_in_progress(w: GattWrite)
    ensures
        w.well_formed() <==> 1 <= w.attempt <= 12 && w.delay_ms <= 400,
{
}

} // verus!
