//! The virtual keyboard on which the special keys are pressed.
use vstd::prelude::*;

use crate::config::{Config, KeyFunction};

verus! {

#[derive(Clone, Copy, Debug, PartialEq, Eq, Structural)]
pub enum KeyEventType {
    Release,
    Press,
}

impl KeyEventType {
    /// The value of a key event.
    pub fn value(&self) -> (r: i32)
        ensures
            r == (match *self {
                KeyEventType::Release => 0i32,
                KeyEventType::Press => 1i32,
            }),
    {
        match self {
            KeyEventType::Release => 0,
            KeyEventType::Press => 1,
        }
    }
}

/// An event to write to the virtual device.
#[derive(Clone, Copy, Debug, PartialEq, Eq, Structural)]
pub enum KeyOutput {
    Key { code: u16, kind: KeyEventType },
    /// Ends a group of events.
    SynReport,
}

/// The keys that are pressed at the moment.
pub struct VirtualKeyboard {
    pressed_keys: Vec<u16>,
}

impl View for VirtualKeyboard {
    type V = Seq<u16>;

    closed spec fn view(&self) -> Seq<u16> {
        self.pressed_keys@
    }
}

pub open spec fn all_keys(keys: Seq<u16>, kind: KeyEventType) -> Seq<KeyOutput> {
    keys.map_values(|code: u16| KeyOutput::Key { code, kind })
}

/// The events that release all pressed keys; none if none is pressed.
pub open spec fn released(pressed: Seq<u16>) -> Seq<KeyOutput> {
    if pressed.len() > 0 {
        all_keys(pressed, KeyEventType::Release).push(KeyOutput::SynReport)
    } else {
        Seq::empty()
    }
}

fn push_keys(out: &mut Vec<KeyOutput>, keys: &Vec<u16>, kind: KeyEventType)
    ensures
        final(out)@ == old(out)@ + all_keys(keys@, kind),
{
    let mut i: usize = 0;
    let ghost before = out@;
    let ghost goal = all_keys(keys@, kind);
    while i < keys.len()
        invariant
            i <= keys@.len(),
            goal == all_keys(keys@, kind),
            out@ =~= before + goal.take(i as int),
        decreases keys@.len() - i,
    {
        out.push(KeyOutput::Key { code: keys[i], kind });
        i = i + 1;
    }
    proof {
        assert(goal.take(keys@.len() as int) =~= goal);
    }
}

impl VirtualKeyboard {
    /// A keyboard with no key pressed.
    pub fn new() -> (r: Self)
        ensures
            r@ == Seq::<u16>::empty(),
    {
        VirtualKeyboard { pressed_keys: Vec::new() }
    }

    /// Releases all pressed keys.
    pub fn release_all_keys(&mut self) -> (out: Vec<KeyOutput>)
        ensures
            final(self)@ == Seq::<u16>::empty(),
            out@ == released(old(self)@),
    {
        let mut out: Vec<KeyOutput> = Vec::new();
        if self.pressed_keys.len() > 0 {
            push_keys(&mut out, &self.pressed_keys, KeyEventType::Release);
            out.push(KeyOutput::SynReport);
            self.pressed_keys = Vec::new();
        }
        proof {
            assert(self@ =~= Seq::<u16>::empty());
            assert(out@ =~= released(old(self)@));
        }
        out
    }

    /// Releases what is pressed and presses the given keys.
    pub fn release_prev_and_press_keys(&mut self, keys: &Vec<u16>) -> (out: Vec<KeyOutput>)
        ensures
            final(self)@ == keys@,
            out@ == released(old(self)@) + all_keys(keys@, KeyEventType::Press) + seq![
                KeyOutput::SynReport,
            ],
    {
        let mut out = self.release_all_keys();
        push_keys(&mut out, keys, KeyEventType::Press);
        out.push(KeyOutput::SynReport);
        self.pressed_keys = crate::config::copy_keys(keys);
        proof {
            assert(out@ =~= released(old(self)@) + all_keys(keys@, KeyEventType::Press) + seq![
                KeyOutput::SynReport,
            ]);
        }
        out
    }
}

/// The keys that are pressed after a sequence of events, for a device on which `pressed` were.
pub open spec fn pressed_after(pressed: Set<u16>, events: Seq<KeyOutput>) -> Set<u16>
    decreases events.len(),
{
    if events.len() == 0 {
        pressed
    } else {
        let before = pressed_after(pressed, events.drop_last());
        match events.last() {
            KeyOutput::Key { code, kind } => match kind {
                KeyEventType::Release => before.remove(code),
                KeyEventType::Press => before.insert(code),
            },
            KeyOutput::SynReport => before,
        }
    }
}

proof fn lemma_pressed_concat(pressed: Set<u16>, a: Seq<KeyOutput>, b: Seq<KeyOutput>)
    ensures
        pressed_after(pressed, a + b) == pressed_after(pressed_after(pressed, a), b),
    decreases b.len(),
{
    if b.len() == 0 {
        assert(a + b =~= a);
    } else {
        assert((a + b).drop_last() =~= a + b.drop_last());
        lemma_pressed_concat(pressed, a, b.drop_last());
    }
}

proof fn lemma_released(pressed: Set<u16>, keys: Seq<u16>)
    ensures
        pressed_after(pressed, all_keys(keys, KeyEventType::Release)) == pressed.difference(
            keys.to_set(),
        ),
    decreases keys.len(),
{
    let events = all_keys(keys, KeyEventType::Release);
    if keys.len() == 0 {
        assert(pressed.difference(keys.to_set()) =~= pressed);
    } else {
        lemma_released(pressed, keys.drop_last());
        assert(events.drop_last() =~= all_keys(keys.drop_last(), KeyEventType::Release));
        assert(keys.to_set() =~= keys.drop_last().to_set().insert(keys.last())) by {
            lemma_to_set_last(keys);
        }
        assert(pressed.difference(keys.drop_last().to_set()).remove(keys.last())
            =~= pressed.difference(keys.to_set()));
    }
}

proof fn lemma_to_set_last(keys: Seq<u16>)
    requires
        keys.len() > 0,
    ensures
        keys.to_set() == keys.drop_last().to_set().insert(keys.last()),
{
    let front = keys.drop_last();
    assert forall|k: u16| keys.to_set().contains(k) <==> front.to_set().insert(
        keys.last(),
    ).contains(k) by {
        if keys.contains(k) {
            let i = choose|i: int| 0 <= i < keys.len() && keys[i] == k;
            if i < front.len() {
                assert(front[i] == k);
                assert(front.contains(k));
            }
        }
        if front.contains(k) {
            let i = choose|i: int| 0 <= i < front.len() && front[i] == k;
            assert(keys[i] == k);
        }
        assert(keys[keys.len() - 1] == keys.last());
    }
    assert(keys.to_set() =~= front.to_set().insert(keys.last()));
}

proof fn lemma_pressed(pressed: Set<u16>, keys: Seq<u16>)
    ensures
        pressed_after(pressed, all_keys(keys, KeyEventType::Press)) == pressed.union(keys.to_set()),
    decreases keys.len(),
{
    let events = all_keys(keys, KeyEventType::Press);
    if keys.len() == 0 {
        assert(pressed.union(keys.to_set()) =~= pressed);
    } else {
        lemma_pressed(pressed, keys.drop_last());
        assert(events.drop_last() =~= all_keys(keys.drop_last(), KeyEventType::Press));
        lemma_to_set_last(keys);
        assert(pressed.union(keys.drop_last().to_set()).insert(keys.last()) =~= pressed.union(
            keys.to_set(),
        ));
    }
}

/// A device on which exactly the remembered keys are pressed has none pressed after the release.
pub proof fn law_release_leaves_no_key(keys: Seq<u16>)
    ensures
        pressed_after(keys.to_set(), released(keys)) == Set::<u16>::empty(),
{
    if keys.len() > 0 {
        let events = all_keys(keys, KeyEventType::Release);
        assert(released(keys).drop_last() =~= events);
        lemma_released(keys.to_set(), keys);
        assert(keys.to_set().difference(keys.to_set()) =~= Set::<u16>::empty());
    } else {
        assert(keys.to_set() =~= Set::<u16>::empty());
    }
}

/// After keys were pressed, exactly these are pressed, whatever was before.
pub proof fn law_press_replaces_keys(before: Seq<u16>, keys: Seq<u16>)
    ensures
        pressed_after(
            before.to_set(),
            released(before) + all_keys(keys, KeyEventType::Press) + seq![KeyOutput::SynReport],
        ) == keys.to_set(),
{
    let a = released(before);
    let b = all_keys(keys, KeyEventType::Press);
    law_release_leaves_no_key(before);
    lemma_pressed_concat(before.to_set(), a, b);
    lemma_pressed(Set::<u16>::empty(), keys);
    assert(Set::<u16>::empty().union(keys.to_set()) =~= keys.to_set());
    assert((a + b + seq![KeyOutput::SynReport]).drop_last() =~= a + b);
}

/// Codes of the keys that the virtual keyboard must offer for one function.
pub open spec fn bound_keys(f: KeyFunction) -> Seq<u16> {
    match f {
        KeyFunction::KeyBind(keys) => keys@,
        _ => Seq::empty(),
    }
}

/// Codes of the keys that the virtual keyboard must offer.
pub open spec fn offered_keys(c: Config) -> Seq<u16> {
    bound_keys(c.keyboard_backlight_key) + bound_keys(c.brightness_down_key) + bound_keys(
        c.brightness_up_key,
    ) + bound_keys(c.swap_up_down_display_key) + bound_keys(c.microphone_mute_key) + bound_keys(
        c.emoji_picker_key,
    ) + bound_keys(c.myasus_key) + bound_keys(c.toggle_secondary_display_key)
}

fn push_bound_keys(out: &mut Vec<u16>, f: &KeyFunction)
    ensures
        final(out)@ == old(out)@ + bound_keys(*f),
{
    match f {
        KeyFunction::KeyBind(keys) => {
            let mut more = crate::config::copy_keys(keys);
            out.append(&mut more);
        },
        _ => {},
    }
}

/// The keys that the virtual keyboard must offer so that every special key can press its keys.
pub fn enabled_keys(config: &Config) -> (out: Vec<u16>)
    ensures
        out@ == offered_keys(*config),
{
    let mut out: Vec<u16> = Vec::new();
    push_bound_keys(&mut out, &config.keyboard_backlight_key);
    proof {
        assert(out@ =~= bound_keys(config.keyboard_backlight_key));
    }
    push_bound_keys(&mut out, &config.brightness_down_key);
    push_bound_keys(&mut out, &config.brightness_up_key);
    push_bound_keys(&mut out, &config.swap_up_down_display_key);
    push_bound_keys(&mut out, &config.microphone_mute_key);
    push_bound_keys(&mut out, &config.emoji_picker_key);
    push_bound_keys(&mut out, &config.myasus_key);
    push_bound_keys(&mut out, &config.toggle_secondary_display_key);
    out
}

/// One event for each key, in order; and a report ends the release of keys, which is empty without
/// any.
pub proof fn law_keys_are_written_in_order(keys: Seq<u16>, kind: KeyEventType, i: int)
    requires
        0 <= i < keys.len(),
    ensures
        all_keys(keys, kind).len() == keys.len(),
        all_keys(keys, kind)[i] == (KeyOutput::Key { code: keys[i], kind }),
        released(keys).len() == keys.len() + 1,
        released(keys)[i] == (KeyOutput::Key { code: keys[i], kind: KeyEventType::Release }),
        released(keys).last() == KeyOutput::SynReport,
        released(Seq::empty()).len() == 0,
{
}

/// A pressed key stays until it is released, and a report changes nothing.
pub proof fn law_keys_stay_pressed(pressed: Set<u16>, events: Seq<KeyOutput>, code: u16, other: u16)
    ensures
        pressed_after(pressed, Seq::empty()) == pressed,
        pressed_after(
            pressed,
            events.push(KeyOutput::Key { code, kind: KeyEventType::Press }),
        ).contains(code),
        !pressed_after(
            pressed,
            events.push(KeyOutput::Key { code, kind: KeyEventType::Release }),
        ).contains(code),
        pressed_after(pressed, events.push(KeyOutput::SynReport)) == pressed_after(pressed, events),
        other != code ==> (pressed_after(
            pressed,
            events.push(KeyOutput::Key { code, kind: KeyEventType::Press }),
        ).contains(other) <==> pressed_after(pressed, events).contains(other)),
{
    assert(events.push(KeyOutput::Key { code, kind: KeyEventType::Press }).drop_last() =~= events);
    assert(events.push(KeyOutput::Key { code, kind: KeyEventType::Release }).drop_last()
        =~= events);
    assert(events.push(KeyOutput::SynReport).drop_last() =~= events);
}

/// Only key bindings need keys, and they need exactly their own.
pub proof fn law_bindings_need_their_keys(keys: Vec<u16>, command: String, flag: bool)
    ensures
        bound_keys(KeyFunction::KeyBind(keys)) == keys@,
        bound_keys(KeyFunction::Command(command)).len() == 0,
        bound_keys(KeyFunction::KeyboardBacklight(flag)).len() == 0,
        bound_keys(KeyFunction::ToggleSecondaryDisplay(flag)).len() == 0,
        bound_keys(KeyFunction::SwapDisplays(flag)).len() == 0,
        bound_keys(KeyFunction::NoOp(flag)).len() == 0,
{
}

/// The virtual keyboard offers every key that a special key may press, and no other.
pub proof fn law_every_bound_key_is_offered(c: Config, code: u16)
    ensures
        offered_keys(c).contains(code) <==> {
            ||| bound_keys(c.keyboard_backlight_key).contains(code)
            ||| bound_keys(c.brightness_down_key).contains(code)
            ||| bound_keys(c.brightness_up_key).contains(code)
            ||| bound_keys(c.swap_up_down_display_key).contains(code)
            ||| bound_keys(c.microphone_mute_key).contains(code)
            ||| bound_keys(c.emoji_picker_key).contains(code)
            ||| bound_keys(c.myasus_key).contains(code)
            ||| bound_keys(c.toggle_secondary_display_key).contains(code)
        },
{
    let a = bound_keys(c.keyboard_backlight_key);
    let b = bound_keys(c.brightness_down_key);
    let d = bound_keys(c.brightness_up_key);
    let e = bound_keys(c.swap_up_down_display_key);
    let f = bound_keys(c.microphone_mute_key);
    let g = bound_keys(c.emoji_picker_key);
    let h = bound_keys(c.myasus_key);
    let k = bound_keys(c.toggle_secondary_display_key);
    crate::seqs::lemma_concat_contains(a, b, code);
    crate::seqs::lemma_concat_contains(a + b, d, code);
    crate::seqs::lemma_concat_contains(a + b + d, e, code);
    crate::seqs::lemma_concat_contains(a + b + d + e, f, code);
    crate::seqs::lemma_concat_contains(a + b + d + e + f, g, code);
    crate::seqs::lemma_concat_contains(a + b + d + e + f + g, h, code);
    crate::seqs::lemma_concat_contains(a + b + d + e + f + g + h, k, code);
}

} // verus!
