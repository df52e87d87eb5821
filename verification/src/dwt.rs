//! Disable-while-typing: the touchpad is proxied through a virtual device that receives nothing
//! for a while after each key press, and is brought up to date afterwards.
use vstd::prelude::*;

verus! {

/// How long after the last key press the touchpad stays suppressed.
pub const DWT_TIMEOUT_MS: u64 = 350;

/// How far away the timer is set while it has nothing to do.
pub const INACTIVE_MS: u64 = 3_600_000;

pub const MAX_SLOTS: usize = 5;

/// What a touchpad event is about.
#[derive(Clone, Copy, Debug, PartialEq, Eq, Structural)]
pub enum TouchCode {
    MtSlot,
    MtTrackingId,
    MtPositionX,
    MtPositionY,
    MtToolType,
    AbsX,
    AbsY,
    BtnTouch,
    BtnToolFinger,
    BtnToolDoubletap,
    BtnToolTripletap,
    BtnToolQuadtap,
    SynReport,
    Other,
}

#[derive(Clone, Copy, Debug, PartialEq, Eq, Structural)]
pub struct TouchEvent {
    pub code: TouchCode,
    pub value: i32,
}

/// One finger. A negative tracking id means that the slot is free.
#[derive(Clone, Copy, Debug, PartialEq, Eq, Structural)]
pub struct SlotState {
    pub tracking_id: i32,
    pub x: i32,
    pub y: i32,
    pub tool_type: i32,
}

impl Default for SlotState {
    fn default() -> (r: Self)
        ensures
            r == free_slot(),
    {
        SlotState { tracking_id: -1, x: 0, y: 0, tool_type: 0 }
    }
}

pub open spec fn free_slot() -> SlotState {
    SlotState { tracking_id: -1i32, x: 0, y: 0, tool_type: 0 }
}

/// State of a touchpad as its events tell it.
pub struct TouchState {
    current_slot: usize,
    slots: Vec<SlotState>,
    btn_touch: i32,
    btn_tool_finger: i32,
    btn_tool_doubletap: i32,
    btn_tool_tripletap: i32,
    btn_tool_quadtap: i32,
    abs_x: i32,
    abs_y: i32,
}

#[verifier::ext_equal]
pub struct TouchView {
    pub current_slot: int,
    pub slots: Seq<SlotState>,
    pub btn_touch: i32,
    pub btn_tool_finger: i32,
    pub btn_tool_doubletap: i32,
    pub btn_tool_tripletap: i32,
    pub btn_tool_quadtap: i32,
    pub abs_x: i32,
    pub abs_y: i32,
}

impl View for TouchState {
    type V = TouchView;

    closed spec fn view(&self) -> TouchView {
        TouchView {
            current_slot: self.current_slot as int,
            slots: self.slots@,
            btn_touch: self.btn_touch,
            btn_tool_finger: self.btn_tool_finger,
            btn_tool_doubletap: self.btn_tool_doubletap,
            btn_tool_tripletap: self.btn_tool_tripletap,
            btn_tool_quadtap: self.btn_tool_quadtap,
            abs_x: self.abs_x,
            abs_y: self.abs_y,
        }
    }
}

impl TouchView {
    pub open spec fn well_formed(self) -> bool {
        self.slots.len() == MAX_SLOTS && 0 <= self.current_slot < MAX_SLOTS
    }

    /// A touchpad that nothing touches.
    pub open spec fn untouched() -> TouchView {
        TouchView {
            current_slot: 0,
            slots: Seq::new(MAX_SLOTS as nat, |i: int| free_slot()),
            btn_touch: 0,
            btn_tool_finger: 0,
            btn_tool_doubletap: 0,
            btn_tool_tripletap: 0,
            btn_tool_quadtap: 0,
            abs_x: 0,
            abs_y: 0,
        }
    }

    pub open spec fn with_slot(self, slot: SlotState) -> TouchView {
        TouchView { slots: self.slots.update(self.current_slot, slot), ..self }
    }

    /// The state after an event. Slot events select the slot that later ones are about; a slot
    /// number out of range selects none.
    pub open spec fn after(self, ev: TouchEvent) -> TouchView {
        let slot = self.slots[self.current_slot];
        let value = ev.value;
        match ev.code {
            TouchCode::MtSlot => if 0 <= value < MAX_SLOTS {
                TouchView { current_slot: value as int, ..self }
            } else {
                self
            },
            TouchCode::MtTrackingId => self.with_slot(SlotState { tracking_id: value, ..slot }),
            TouchCode::MtPositionX => self.with_slot(SlotState { x: value, ..slot }),
            TouchCode::MtPositionY => self.with_slot(SlotState { y: value, ..slot }),
            TouchCode::MtToolType => self.with_slot(SlotState { tool_type: value, ..slot }),
            TouchCode::AbsX => TouchView { abs_x: value, ..self },
            TouchCode::AbsY => TouchView { abs_y: value, ..self },
            TouchCode::BtnTouch => TouchView { btn_touch: value, ..self },
            TouchCode::BtnToolFinger => TouchView { btn_tool_finger: value, ..self },
            TouchCode::BtnToolDoubletap => TouchView { btn_tool_doubletap: value, ..self },
            TouchCode::BtnToolTripletap => TouchView { btn_tool_tripletap: value, ..self },
            TouchCode::BtnToolQuadtap => TouchView { btn_tool_quadtap: value, ..self },
            TouchCode::SynReport => self,
            TouchCode::Other => self,
        }
    }

    /// The state after a sequence of events.
    pub open spec fn replay(self, events: Seq<TouchEvent>) -> TouchView
        decreases events.len(),
    {
        if events.len() == 0 {
            self
        } else {
            self.replay(events.drop_last()).after(events.last())
        }
    }
}

impl TouchState {
    /// A touchpad that nothing touches.
    pub fn new() -> (r: Self)
        ensures
            r@ == TouchView::untouched(),
            r@.well_formed(),
    {
        let mut slots: Vec<SlotState> = Vec::new();
        let mut i: usize = 0;
        while i < MAX_SLOTS
            invariant
                i <= MAX_SLOTS,
                slots@ =~= Seq::new(i as nat, |k: int| free_slot()),
            decreases MAX_SLOTS - i,
        {
            slots.push(SlotState { tracking_id: -1, x: 0, y: 0, tool_type: 0 });
            i = i + 1;
        }
        TouchState {
            current_slot: 0,
            slots,
            btn_touch: 0,
            btn_tool_finger: 0,
            btn_tool_doubletap: 0,
            btn_tool_tripletap: 0,
            btn_tool_quadtap: 0,
            abs_x: 0,
            abs_y: 0,
        }
    }

    fn set_slot(&mut self, slot: SlotState)
        requires
            old(self)@.well_formed(),
        ensures
            final(self)@ == old(self)@.with_slot(slot),
            final(self)@.well_formed(),
    {
        let current: usize = self.current_slot;
        self.slots.set(current, slot);
    }

    /// Follows one event.
    pub fn update(&mut self, ev: &TouchEvent)
        requires
            old(self)@.well_formed(),
        ensures
            final(self)@ == old(self)@.after(*ev),
            final(self)@.well_formed(),
    {
        let value: i32 = ev.value;
        let slot: SlotState = self.slots[self.current_slot];
        match ev.code {
            TouchCode::MtSlot => {
                if value >= 0 && value < 5 {
                    self.current_slot = value as usize;
                }
            },
            TouchCode::MtTrackingId => {
                self.set_slot(SlotState { tracking_id: value, ..slot });
            },
            TouchCode::MtPositionX => {
                self.set_slot(SlotState { x: value, ..slot });
            },
            TouchCode::MtPositionY => {
                self.set_slot(SlotState { y: value, ..slot });
            },
            TouchCode::MtToolType => {
                self.set_slot(SlotState { tool_type: value, ..slot });
            },
            TouchCode::AbsX => {
                self.abs_x = value;
            },
            TouchCode::AbsY => {
                self.abs_y = value;
            },
            TouchCode::BtnTouch => {
                self.btn_touch = value;
            },
            TouchCode::BtnToolFinger => {
                self.btn_tool_finger = value;
            },
            TouchCode::BtnToolDoubletap => {
                self.btn_tool_doubletap = value;
            },
            TouchCode::BtnToolTripletap => {
                self.btn_tool_tripletap = value;
            },
            TouchCode::BtnToolQuadtap => {
                self.btn_tool_quadtap = value;
            },
            TouchCode::SynReport => {},
            TouchCode::Other => {},
        }
    }

    /// An equal state.
    pub fn copy(&self) -> (r: Self)
        requires
            self@.well_formed(),
        ensures
            r@ == self@,
    {
        let mut slots: Vec<SlotState> = Vec::new();
        let mut i: usize = 0;
        while i < self.slots.len()
            invariant
                i <= self.slots@.len(),
                slots@ =~= self.slots@.take(i as int),
            decreases self.slots@.len() - i,
        {
            slots.push(self.slots[i]);
            i = i + 1;
        }
        proof {
            assert(slots@ =~= self.slots@);
        }
        TouchState {
            current_slot: self.current_slot,
            slots,
            btn_touch: self.btn_touch,
            btn_tool_finger: self.btn_tool_finger,
            btn_tool_doubletap: self.btn_tool_doubletap,
            btn_tool_tripletap: self.btn_tool_tripletap,
            btn_tool_quadtap: self.btn_tool_quadtap,
            abs_x: self.abs_x,
            abs_y: self.abs_y,
        }
    }
}

// ── Bringing the virtual device up to date ───────────────────────────────────

pub open spec fn event(code: TouchCode, value: int) -> TouchEvent {
    TouchEvent { code, value: value as i32 }
}

/// The events that bring slot `i` of the virtual device up to date: none if the same finger is on
/// it already, else its present finger is lifted and the real one, if any, is put down.
pub open spec fn slot_events(i: int, virt: SlotState, pad: SlotState) -> Seq<TouchEvent> {
    if virt.tracking_id == pad.tracking_id {
        Seq::empty()
    } else {
        let select = seq![event(TouchCode::MtSlot, i)];
        let lift = if virt.tracking_id >= 0 {
            seq![event(TouchCode::MtTrackingId, -1)]
        } else {
            Seq::empty()
        };
        let put = if pad.tracking_id >= 0 {
            seq![
                event(TouchCode::MtTrackingId, pad.tracking_id as int),
                event(TouchCode::MtPositionX, pad.x as int),
                event(TouchCode::MtPositionY, pad.y as int),
            ]
        } else {
            Seq::empty()
        };
        let tool = if pad.tracking_id >= 0 && pad.tool_type != 0 {
            seq![event(TouchCode::MtToolType, pad.tool_type as int)]
        } else {
            Seq::empty()
        };
        select + lift + put + tool
    }
}

/// The events for the first `n` slots.
pub open spec fn slots_events(virt: TouchView, pad: TouchView, n: nat) -> Seq<TouchEvent>
    decreases n,
{
    if n == 0 {
        Seq::empty()
    } else {
        slots_events(virt, pad, (n - 1) as nat) + slot_events(
            n - 1,
            virt.slots[n - 1],
            pad.slots[n - 1],
        )
    }
}

/// A button counts as pressed whether its last event was a press or a repeat.
pub open spec fn pressed(value: i32) -> int {
    if value >= 1 {
        1
    } else {
        0
    }
}

pub open spec fn button_events(code: TouchCode, virt: i32, pad: i32) -> Seq<TouchEvent> {
    if pressed(virt) != pressed(pad) {
        seq![event(code, pressed(pad))]
    } else {
        Seq::empty()
    }
}

pub open spec fn buttons_events(virt: TouchView, pad: TouchView) -> Seq<TouchEvent> {
    button_events(TouchCode::BtnTouch, virt.btn_touch, pad.btn_touch) + button_events(
        TouchCode::BtnToolFinger,
        virt.btn_tool_finger,
        pad.btn_tool_finger,
    ) + button_events(
        TouchCode::BtnToolDoubletap,
        virt.btn_tool_doubletap,
        pad.btn_tool_doubletap,
    ) + button_events(
        TouchCode::BtnToolTripletap,
        virt.btn_tool_tripletap,
        pad.btn_tool_tripletap,
    ) + button_events(TouchCode::BtnToolQuadtap, virt.btn_tool_quadtap, pad.btn_tool_quadtap)
}

/// The events that bring the virtual device up to date with the real one. If there are any, a
/// report ends them.
pub open spec fn reconcile_events(virt: TouchView, pad: TouchView) -> Seq<TouchEvent> {
    let changes = slots_events(virt, pad, MAX_SLOTS as nat) + buttons_events(virt, pad);
    if changes.len() > 0 {
        changes.push(event(TouchCode::SynReport, 0))
    } else {
        changes
    }
}

fn push_button(out: &mut Vec<TouchEvent>, code: TouchCode, virt: i32, pad: i32)
    ensures
        final(out)@ == old(out)@ + button_events(code, virt, pad),
{
    let nv: i32 = if virt >= 1 {
        1
    } else {
        0
    };
    let nr: i32 = if pad >= 1 {
        1
    } else {
        0
    };
    if nv != nr {
        out.push(TouchEvent { code, value: nr });
    }
}

fn push_slot(out: &mut Vec<TouchEvent>, i: usize, virt: SlotState, pad: SlotState)
    requires
        i < MAX_SLOTS,
    ensures
        final(out)@ == old(out)@ + slot_events(i as int, virt, pad),
{
    if virt.tracking_id == pad.tracking_id {
        return ;
    }
    out.push(TouchEvent { code: TouchCode::MtSlot, value: i as i32 });
    if virt.tracking_id >= 0 {
        out.push(TouchEvent { code: TouchCode::MtTrackingId, value: -1 });
    }
    if pad.tracking_id >= 0 {
        out.push(TouchEvent { code: TouchCode::MtTrackingId, value: pad.tracking_id });
        out.push(TouchEvent { code: TouchCode::MtPositionX, value: pad.x });
        out.push(TouchEvent { code: TouchCode::MtPositionY, value: pad.y });
        if pad.tool_type != 0 {
            out.push(TouchEvent { code: TouchCode::MtToolType, value: pad.tool_type });
        }
    }
    proof {
        assert(out@ =~= old(out)@ + slot_events(i as int, virt, pad));
    }
}

/// The events to write to the virtual device so that it follows the real one again. A finger that
/// the virtual device knows already is not announced again.
pub fn reconcile_virt_with_real(virt: &TouchState, pad: &TouchState) -> (out: Vec<TouchEvent>)
    requires
        virt@.well_formed(),
        pad@.well_formed(),
    ensures
        out@ == reconcile_events(virt@, pad@),
{
    let mut out: Vec<TouchEvent> = Vec::new();
    let mut i: usize = 0;
    while i < MAX_SLOTS
        invariant
            i <= MAX_SLOTS,
            virt@.well_formed(),
            pad@.well_formed(),
            out@ == slots_events(virt@, pad@, i as nat),
        decreases MAX_SLOTS - i,
    {
        push_slot(&mut out, i, virt.slots[i], pad.slots[i]);
        i = i + 1;
    }
    let ghost slots_part = out@;
    push_button(&mut out, TouchCode::BtnTouch, virt.btn_touch, pad.btn_touch);
    push_button(&mut out, TouchCode::BtnToolFinger, virt.btn_tool_finger, pad.btn_tool_finger);
    push_button(
        &mut out,
        TouchCode::BtnToolDoubletap,
        virt.btn_tool_doubletap,
        pad.btn_tool_doubletap,
    );
    push_button(
        &mut out,
        TouchCode::BtnToolTripletap,
        virt.btn_tool_tripletap,
        pad.btn_tool_tripletap,
    );
    push_button(&mut out, TouchCode::BtnToolQuadtap, virt.btn_tool_quadtap, pad.btn_tool_quadtap);
    proof {
        assert(out@ =~= slots_part + buttons_events(virt@, pad@));
    }
    if out.len() > 0 {
        out.push(TouchEvent { code: TouchCode::SynReport, value: 0 });
    }
    out
}

// ── Laws of the reconciliation ───────────────────────────────────────────────

/// The finger on a slot, if any.
pub open spec fn finger(slot: SlotState) -> Option<i32> {
    if slot.tracking_id >= 0 {
        Some(slot.tracking_id)
    } else {
        None
    }
}

proof fn lemma_replay_concat(s: TouchView, a: Seq<TouchEvent>, b: Seq<TouchEvent>)
    ensures
        s.replay(a + b) == s.replay(a).replay(b),
    decreases b.len(),
{
    if b.len() == 0 {
        assert(a + b =~= a);
    } else {
        assert((a + b).drop_last() =~= a + b.drop_last());
        assert((a + b).last() == b.last());
        lemma_replay_concat(s, a, b.drop_last());
    }
}

proof fn lemma_replay_one(s: TouchView, e: TouchEvent)
    ensures
        s.replay(seq![e]) == s.after(e),
{
    assert(seq![e].drop_last() =~= Seq::empty());
    assert(s.replay(Seq::empty()) == s);
}

proof fn lemma_replay_keeps_form(s: TouchView, events: Seq<TouchEvent>)
    requires
        s.well_formed(),
    ensures
        s.replay(events).well_formed(),
    decreases events.len(),
{
    if events.len() > 0 {
        lemma_replay_keeps_form(s, events.drop_last());
    }
}

pub open spec fn same_buttons(a: TouchView, b: TouchView) -> bool {
    &&& a.btn_touch == b.btn_touch
    &&& a.btn_tool_finger == b.btn_tool_finger
    &&& a.btn_tool_doubletap == b.btn_tool_doubletap
    &&& a.btn_tool_tripletap == b.btn_tool_tripletap
    &&& a.btn_tool_quadtap == b.btn_tool_quadtap
}

/// The slot holds the same finger as the real one, and where it was put down anew it is at the
/// real position; a slot that was up to date is as it was, and one whose finger was lifted has the
/// tracking id of a lifted finger.
pub open spec fn slot_synced(before: SlotState, pad: SlotState, now: SlotState) -> bool {
    &&& finger(now) == finger(pad)
    &&& before.tracking_id == pad.tracking_id ==> now == before
    &&& before.tracking_id != pad.tracking_id && pad.tracking_id >= 0 ==> now.x == pad.x && now.y
        == pad.y && (pad.tool_type != 0 ==> now.tool_type == pad.tool_type)
    &&& before.tracking_id >= 0 && pad.tracking_id < 0 ==> now.tracking_id == -1
}

proof fn lemma_slot_replay(s: TouchView, i: int, virt: SlotState, pad: SlotState)
    requires
        s.well_formed(),
        0 <= i < MAX_SLOTS,
        s.slots[i] == virt,
    ensures
        ({
            let t = s.replay(slot_events(i, virt, pad));
            &&& t.well_formed()
            &&& same_buttons(t, s)
            &&& slot_synced(virt, pad, t.slots[i])
            &&& forall|j: int| 0 <= j < MAX_SLOTS && j != i ==> #[trigger] t.slots[j] == s.slots[j]
        }),
{
    let events = slot_events(i, virt, pad);
    lemma_replay_keeps_form(s, events);
    if virt.tracking_id == pad.tracking_id {
        assert(s.replay(events) == s);
    } else {
        let select = event(TouchCode::MtSlot, i);
        let lift = event(TouchCode::MtTrackingId, -1);
        let id = event(TouchCode::MtTrackingId, pad.tracking_id as int);
        let x = event(TouchCode::MtPositionX, pad.x as int);
        let y = event(TouchCode::MtPositionY, pad.y as int);
        let tool = event(TouchCode::MtToolType, pad.tool_type as int);
        let s1 = s.after(select);
        let s2 = if virt.tracking_id >= 0 {
            s1.after(lift)
        } else {
            s1
        };
        let lifted = if virt.tracking_id >= 0 {
            seq![select, lift]
        } else {
            seq![select]
        };
        assert(s.replay(lifted) == s2) by {
            lemma_replay_one(s, select);
            lemma_replay_one(s1, lift);
            lemma_replay_concat(s, seq![select], seq![lift]);
            assert(seq![select] + seq![lift] =~= seq![select, lift]);
        }
        if pad.tracking_id >= 0 {
            let s3 = s2.after(id).after(x).after(y);
            let put = seq![id, x, y];
            assert(s2.replay(put) == s3) by {
                lemma_replay_one(s2, id);
                lemma_replay_one(s2.after(id), x);
                lemma_replay_one(s2.after(id).after(x), y);
                lemma_replay_concat(s2, seq![id], seq![x]);
                lemma_replay_concat(s2, seq![id] + seq![x], seq![y]);
                assert(seq![id] + seq![x] + seq![y] =~= put);
            }
            lemma_replay_concat(s, lifted, put);
            if pad.tool_type != 0 {
                lemma_replay_one(s3, tool);
                lemma_replay_concat(s, lifted + put, seq![tool]);
                assert(events =~= lifted + put + seq![tool]);
            } else {
                assert(events =~= lifted + put);
            }
        } else {
            assert(events =~= lifted);
        }
    }
}

proof fn lemma_slots_replay(virt: TouchView, pad: TouchView, n: nat)
    requires
        virt.well_formed(),
        pad.well_formed(),
        n <= MAX_SLOTS,
    ensures
        ({
            let t = virt.replay(slots_events(virt, pad, n));
            &&& t.well_formed()
            &&& same_buttons(t, virt)
            &&& forall|j: int|
                0 <= j < n ==> slot_synced(virt.slots[j], pad.slots[j], #[trigger] t.slots[j])
            &&& forall|j: int| n <= j < MAX_SLOTS ==> #[trigger] t.slots[j] == virt.slots[j]
        }),
    decreases n,
{
    if n > 0 {
        let m = (n - 1) as nat;
        lemma_slots_replay(virt, pad, m);
        let s = virt.replay(slots_events(virt, pad, m));
        assert(s.slots[m as int] == virt.slots[m as int]);
        lemma_slot_replay(s, m as int, virt.slots[m as int], pad.slots[m as int]);
        lemma_replay_concat(
            virt,
            slots_events(virt, pad, m),
            slot_events(m as int, virt.slots[m as int], pad.slots[m as int]),
        );
    }
}

proof fn lemma_button_replay(s: TouchView, code: TouchCode, virt: i32, pad: i32)
    ensures
        s.replay(button_events(code, virt, pad)) == (if pressed(virt) != pressed(pad) {
            s.after(event(code, pressed(pad)))
        } else {
            s
        }),
{
    if pressed(virt) != pressed(pad) {
        lemma_replay_one(s, event(code, pressed(pad)));
    }
}

/// Written to the virtual device, the events make it hold the same fingers and the same pressed
/// buttons as the real one.
pub proof fn law_reconcile_synchronises(virt: TouchView, pad: TouchView)
    requires
        virt.well_formed(),
        pad.well_formed(),
    ensures
        ({
            let t = virt.replay(reconcile_events(virt, pad));
            &&& forall|j: int|
                0 <= j < MAX_SLOTS ==> slot_synced(
                    virt.slots[j],
                    pad.slots[j],
                    #[trigger] t.slots[j],
                )
            &&& pressed(t.btn_touch) == pressed(pad.btn_touch)
            &&& pressed(t.btn_tool_finger) == pressed(pad.btn_tool_finger)
            &&& pressed(t.btn_tool_doubletap) == pressed(pad.btn_tool_doubletap)
            &&& pressed(t.btn_tool_tripletap) == pressed(pad.btn_tool_tripletap)
            &&& pressed(t.btn_tool_quadtap) == pressed(pad.btn_tool_quadtap)
        }),
{
    let slots = slots_events(virt, pad, MAX_SLOTS as nat);
    lemma_slots_replay(virt, pad, MAX_SLOTS as nat);
    let s0 = virt.replay(slots);
    let b1 = button_events(TouchCode::BtnTouch, virt.btn_touch, pad.btn_touch);
    let b2 = button_events(TouchCode::BtnToolFinger, virt.btn_tool_finger, pad.btn_tool_finger);
    let b3 = button_events(
        TouchCode::BtnToolDoubletap,
        virt.btn_tool_doubletap,
        pad.btn_tool_doubletap,
    );
    let b4 = button_events(
        TouchCode::BtnToolTripletap,
        virt.btn_tool_tripletap,
        pad.btn_tool_tripletap,
    );
    let b5 = button_events(TouchCode::BtnToolQuadtap, virt.btn_tool_quadtap, pad.btn_tool_quadtap);
    lemma_button_replay(s0, TouchCode::BtnTouch, virt.btn_touch, pad.btn_touch);
    let s1 = s0.replay(b1);
    lemma_button_replay(s1, TouchCode::BtnToolFinger, virt.btn_tool_finger, pad.btn_tool_finger);
    let s2 = s1.replay(b2);
    lemma_button_replay(
        s2,
        TouchCode::BtnToolDoubletap,
        virt.btn_tool_doubletap,
        pad.btn_tool_doubletap,
    );
    let s3 = s2.replay(b3);
    lemma_button_replay(
        s3,
        TouchCode::BtnToolTripletap,
        virt.btn_tool_tripletap,
        pad.btn_tool_tripletap,
    );
    let s4 = s3.replay(b4);
    lemma_button_replay(
        s4,
        TouchCode::BtnToolQuadtap,
        virt.btn_tool_quadtap,
        pad.btn_tool_quadtap,
    );
    let s5 = s4.replay(b5);
    lemma_replay_concat(s0, b1, b2);
    lemma_replay_concat(s0, b1 + b2, b3);
    lemma_replay_concat(s0, b1 + b2 + b3, b4);
    lemma_replay_concat(s0, b1 + b2 + b3 + b4, b5);
    lemma_replay_concat(virt, slots, buttons_events(virt, pad));
    let changes = slots + buttons_events(virt, pad);
    assert(virt.replay(changes) == s5);
    if changes.len() > 0 {
        assert(changes.push(event(TouchCode::SynReport, 0)).drop_last() =~= changes);
    }
}

/// Where -1 is the only tracking id without a finger, the virtual device has exactly the real
/// tracking id in every slot afterwards.
pub proof fn law_reconcile_copies_tracking_ids(virt: TouchView, pad: TouchView, j: int)
    requires
        virt.well_formed(),
        pad.well_formed(),
        0 <= j < MAX_SLOTS,
        virt.slots[j].tracking_id >= -1,
        pad.slots[j].tracking_id >= -1,
    ensures
        virt.replay(reconcile_events(virt, pad)).slots[j].tracking_id == pad.slots[j].tracking_id,
{
    law_reconcile_synchronises(virt, pad);
    let t = virt.replay(reconcile_events(virt, pad));
    assert(slot_synced(virt.slots[j], pad.slots[j], t.slots[j]));
}

proof fn lemma_slots_quiet(virt: TouchView, pad: TouchView, n: nat)
    requires
        n <= MAX_SLOTS,
        virt.well_formed(),
        pad.well_formed(),
        forall|j: int|
            0 <= j < MAX_SLOTS ==> (#[trigger] virt.slots[j]).tracking_id
                == pad.slots[j].tracking_id,
    ensures
        slots_events(virt, pad, n) == Seq::<TouchEvent>::empty(),
    decreases n,
{
    if n > 0 {
        lemma_slots_quiet(virt, pad, (n - 1) as nat);
        assert(virt.slots[n - 1].tracking_id == pad.slots[n - 1].tracking_id);
        assert(slots_events(virt, pad, n) =~= Seq::<TouchEvent>::empty());
    }
}

/// A virtual device that is up to date receives nothing, so no finger is announced twice.
pub proof fn law_reconcile_is_quiet_when_in_sync(state: TouchView)
    requires
        state.well_formed(),
    ensures
        reconcile_events(state, state) == Seq::<TouchEvent>::empty(),
{
    lemma_slots_quiet(state, state, MAX_SLOTS as nat);
    assert(buttons_events(state, state) =~= Seq::<TouchEvent>::empty());
    assert(reconcile_events(state, state) =~= Seq::<TouchEvent>::empty());
}

// ── The session ──────────────────────────────────────────────────────────────

/// Why a session ended.
#[derive(Clone, Copy, Debug, PartialEq, Eq, Structural)]
pub enum InnerExit {
    DeviceGone,
    UsbAttached,
    Shutdown,
}

pub enum DwtEvent {
    /// The touchpad reports an event.
    Touch(TouchEvent),
    /// An event that was to be forwarded has been written to the virtual device.
    Written(TouchEvent),
    /// A key was pressed.
    Key,
    /// The timer has run out.
    Timer,
    /// The keyboard was put on the dock, or taken off it.
    KeyboardDocked(bool),
    /// The touchpad is gone.
    TouchpadGone,
    /// The keyboard is gone.
    KeyboardGone,
    /// The daemon is going down.
    Closed,
}

pub enum DwtAction {
    Nothing,
    /// Write the event to the virtual device.
    Forward(TouchEvent),
    /// Write the events to the virtual device, in order.
    Reconcile(Vec<TouchEvent>),
    Exit(InnerExit),
}

pub enum DwtActionView {
    Nothing,
    Forward(TouchEvent),
    Reconcile(Seq<TouchEvent>),
    Exit(InnerExit),
}

impl View for DwtAction {
    type V = DwtActionView;

    open spec fn view(&self) -> DwtActionView {
        match self {
            DwtAction::Nothing => DwtActionView::Nothing,
            DwtAction::Forward(e) => DwtActionView::Forward(*e),
            DwtAction::Reconcile(v) => DwtActionView::Reconcile(v@),
            DwtAction::Exit(e) => DwtActionView::Exit(*e),
        }
    }
}

/// A disable-while-typing session. Times are milliseconds of a clock that never runs backwards.
pub struct DwtSession {
    suppressed: bool,
    touch: TouchState,
    virt: TouchState,
    timer: u64,
}

pub struct DwtView {
    pub suppressed: bool,
    /// What the real device has reported.
    pub touch: TouchView,
    /// What the virtual device has been told.
    pub virt: TouchView,
    /// When the timer runs out.
    pub timer: u64,
}

impl View for DwtSession {
    type V = DwtView;

    closed spec fn view(&self) -> DwtView {
        DwtView {
            suppressed: self.suppressed,
            touch: self.touch@,
            virt: self.virt@,
            timer: self.timer,
        }
    }
}

impl DwtView {
    pub open spec fn well_formed(self) -> bool {
        self.touch.well_formed() && self.virt.well_formed()
    }

    /// The event announces a finger that the virtual device has on that slot already.
    pub open spec fn repeats_finger(self, ev: TouchEvent) -> bool {
        ev.code == TouchCode::MtTrackingId && ev.value >= 0
            && self.virt.slots[self.touch.current_slot].tracking_id == ev.value
    }

    /// What an event does to the session, and what is to be done. A timer that fires before its
    /// time has no effect.
    pub open spec fn next(self, event: DwtEvent, now: u64) -> (DwtView, DwtActionView) {
        match event {
            DwtEvent::Touch(ev) => {
                let s = DwtView { touch: self.touch.after(ev), ..self };
                if s.suppressed || s.repeats_finger(ev) {
                    (s, DwtActionView::Nothing)
                } else {
                    (s, DwtActionView::Forward(ev))
                }
            },
            DwtEvent::Written(ev) => (
                DwtView { virt: self.virt.after(ev), ..self },
                DwtActionView::Nothing,
            ),
            DwtEvent::Key => (
                DwtView { suppressed: true, timer: (now + DWT_TIMEOUT_MS) as u64, ..self },
                DwtActionView::Nothing,
            ),
            DwtEvent::Timer => if now < self.timer {
                (self, DwtActionView::Nothing)
            } else if self.suppressed {
                (
                    DwtView {
                        suppressed: false,
                        virt: self.touch,
                        timer: (now + INACTIVE_MS) as u64,
                        ..self
                    },
                    DwtActionView::Reconcile(reconcile_events(self.virt, self.touch)),
                )
            } else {
                (
                    DwtView { timer: (now + INACTIVE_MS) as u64, ..self },
                    DwtActionView::Nothing,
                )
            },
            DwtEvent::KeyboardDocked(docked) => if docked {
                (self, DwtActionView::Exit(InnerExit::UsbAttached))
            } else {
                (self, DwtActionView::Nothing)
            },
            DwtEvent::TouchpadGone => (self, DwtActionView::Exit(InnerExit::DeviceGone)),
            DwtEvent::KeyboardGone => (self, DwtActionView::Exit(InnerExit::DeviceGone)),
            DwtEvent::Closed => (self, DwtActionView::Exit(InnerExit::Shutdown)),
        }
    }
}

impl DwtSession {
    /// A session in which nothing has happened yet.
    pub fn new(now: u64) -> (r: Self)
        requires
            now + INACTIVE_MS <= u64::MAX,
        ensures
            r@.well_formed(),
            r@ == (DwtView {
                suppressed: false,
                touch: TouchView::untouched(),
                virt: TouchView::untouched(),
                timer: (now + INACTIVE_MS) as u64,
            }),
    {
        DwtSession {
            suppressed: false,
            touch: TouchState::new(),
            virt: TouchState::new(),
            timer: now + INACTIVE_MS,
        }
    }

    /// When the timer runs out.
    pub fn timer(&self) -> (r: u64)
        ensures
            r == self@.timer,
    {
        self.timer
    }

    /// Takes an event at the given time and says what to do.
    pub fn step(&mut self, event: DwtEvent, now: u64) -> (r: DwtAction)
        requires
            old(self)@.well_formed(),
            now + INACTIVE_MS <= u64::MAX,
        ensures
            (final(self)@, r@) == old(self)@.next(event, now),
            final(self)@.well_formed(),
    {
        match event {
            DwtEvent::Touch(ev) => {
                self.touch.update(&ev);
                if self.suppressed {
                    return DwtAction::Nothing;
                }
                let repeats = ev.code == TouchCode::MtTrackingId && ev.value >= 0
                    && self.virt.slots[self.touch.current_slot].tracking_id == ev.value;
                if repeats {
                    DwtAction::Nothing
                } else {
                    DwtAction::Forward(ev)
                }
            },
            DwtEvent::Written(ev) => {
                self.virt.update(&ev);
                DwtAction::Nothing
            },
            DwtEvent::Key => {
                self.suppressed = true;
                self.timer = now + DWT_TIMEOUT_MS;
                DwtAction::Nothing
            },
            DwtEvent::Timer => {
                if now < self.timer {
                    return DwtAction::Nothing;
                }
                self.timer = now + INACTIVE_MS;
                if self.suppressed {
                    self.suppressed = false;
                    let events = reconcile_virt_with_real(&self.virt, &self.touch);
                    self.virt = self.touch.copy();
                    DwtAction::Reconcile(events)
                } else {
                    DwtAction::Nothing
                }
            },
            DwtEvent::KeyboardDocked(docked) => if docked {
                DwtAction::Exit(InnerExit::UsbAttached)
            } else {
                DwtAction::Nothing
            },
            DwtEvent::TouchpadGone => DwtAction::Exit(InnerExit::DeviceGone),
            DwtEvent::KeyboardGone => DwtAction::Exit(InnerExit::DeviceGone),
            DwtEvent::Closed => DwtAction::Exit(InnerExit::Shutdown),
        }
    }
}

/// From a key press until the timer runs out, nothing that the touchpad reports is forwarded, but
/// all of it is tracked; and the timer runs out no sooner than the timeout after the press.
pub proof fn law_typing_suppresses_touch(s: DwtView, now: u64, ev: TouchEvent, later: u64)
    requires
        now + INACTIVE_MS <= u64::MAX,
    ensures
        ({
            let typing = s.next(DwtEvent::Key, now).0;
            &&& typing.timer == now + 350
            &&& typing.next(DwtEvent::Touch(ev), later).1 == DwtActionView::Nothing
            &&& typing.next(DwtEvent::Touch(ev), later).0.suppressed
            &&& typing.next(DwtEvent::Touch(ev), later).0.touch == s.touch.after(ev)
            &&& later < now + 350 ==> typing.next(DwtEvent::Timer, later).0 == typing
            &&& now + 350 <= later ==> !typing.next(DwtEvent::Timer, later).0.suppressed
        }),
{
}

/// A second timeout with no event between them has nothing left to bring up to date.
pub proof fn law_unsuppressed_device_is_in_sync(s: DwtView, now: u64)
    requires
        s.well_formed(),
        s.suppressed,
        s.timer <= now,
    ensures
        ({
            let t = s.next(DwtEvent::Timer, now).0;
            !t.suppressed && reconcile_events(t.virt, t.touch) == Seq::<TouchEvent>::empty()
        }),
{
    law_reconcile_is_quiet_when_in_sync(s.touch);
}

/// While every forwarded event is written, the virtual device holds the fingers that the real one
/// has; an event that is held back announces one of these.
pub proof fn law_forwarding_keeps_sync(s: DwtView, ev: TouchEvent, now: u64)
    requires
        s.well_formed(),
        !s.suppressed,
        s.virt == s.touch,
    ensures
        ({
            let (t, action) = s.next(DwtEvent::Touch(ev), now);
            match action {
                DwtActionView::Forward(e) => t.next(DwtEvent::Written(e), now).0.virt == t.touch,
                _ => t.virt == t.touch,
            }
        }),
{
    if s.next(DwtEvent::Touch(ev), now).1 is Nothing {
        let t = s.next(DwtEvent::Touch(ev), now).0;
        assert(t.virt.slots =~= t.touch.slots);
    }
}

// ── Finding the devices ──────────────────────────────────────────────────────

/// The bus number of devices connected by Bluetooth.
pub const BUS_BLUETOOTH: u16 = 5;

/// What is known of an input device.
pub struct InputDeviceInfo {
    pub name: String,
    pub bus: u16,
    pub has_keys: bool,
}

/// The Bluetooth keyboard itself, not the touchpad or mouse that come with it.
pub open spec fn is_bt_keyboard(d: InputDeviceInfo) -> bool {
    &&& d.bus == BUS_BLUETOOTH
    &&& crate::text::contains_text(d.name@, "ASUS Zenbook Duo Keyboard"@)
    &&& !crate::text::contains_text(d.name@, "Touchpad"@)
    &&& !crate::text::contains_text(d.name@, "Mouse"@)
    &&& d.has_keys
}

/// The touchpad of the Bluetooth keyboard.
pub open spec fn is_bt_touchpad(d: InputDeviceInfo) -> bool {
    d.bus == BUS_BLUETOOTH && crate::text::contains_text(
        d.name@,
        "ASUS Zenbook Duo Keyboard Touchpad"@,
    )
}

/// Whether a device is the Bluetooth keyboard.
pub fn check_bt_keyboard(d: &InputDeviceInfo) -> (r: bool)
    ensures
        r == is_bt_keyboard(*d),
{
    d.bus == BUS_BLUETOOTH && crate::text::contains(d.name.as_str(), "ASUS Zenbook Duo Keyboard")
        && !crate::text::contains(d.name.as_str(), "Touchpad") && !crate::text::contains(
        d.name.as_str(),
        "Mouse",
    ) && d.has_keys
}

/// Whether a device is the touchpad of the Bluetooth keyboard.
pub fn check_bt_touchpad(d: &InputDeviceInfo) -> (r: bool)
    ensures
        r == is_bt_touchpad(*d),
{
    d.bus == BUS_BLUETOOTH && crate::text::contains(
        d.name.as_str(),
        "ASUS Zenbook Duo Keyboard Touchpad",
    )
}

/// Whether a file below the input directory is an event device.
pub fn is_event_node(file_name: &str) -> (r: bool)
    ensures
        r == "event"@.is_prefix_of(file_name@),
{
    crate::text::starts_with(file_name, "event")
}

/// The devices that a session waits for.
pub struct BtDevices {
    pub keyboard: Option<String>,
    pub touchpad: Option<String>,
}

impl BtDevices {
    /// Offers a device: it fills the places that are still free and that it fits.
    pub fn offer(&mut self, path: &String, d: &InputDeviceInfo)
        ensures
            final(self).keyboard == (if old(self).keyboard is None && is_bt_keyboard(*d) {
                Some(*path)
            } else {
                old(self).keyboard
            }),
            final(self).touchpad == (if old(self).touchpad is None && is_bt_touchpad(*d) {
                Some(*path)
            } else {
                old(self).touchpad
            }),
    {
        if self.keyboard.is_none() && check_bt_keyboard(d) {
            self.keyboard = Some(path.clone());
        }
        if self.touchpad.is_none() && check_bt_touchpad(d) {
            self.touchpad = Some(path.clone());
        }
    }

    /// Whether both devices have been found.
    pub fn complete(&self) -> (r: bool)
        ensures
            r == (self.keyboard is Some && self.touchpad is Some),
    {
        self.keyboard.is_some() && self.touchpad.is_some()
    }
}

/// No device is both the keyboard and its touchpad.
pub proof fn law_keyboard_is_no_touchpad(d: InputDeviceInfo)
    ensures
        !(is_bt_keyboard(d) && is_bt_touchpad(d)),
{
    reveal_strlit("ASUS Zenbook Duo Keyboard Touchpad");
    reveal_strlit("Touchpad");
    let long = "ASUS Zenbook Duo Keyboard Touchpad"@;
    let short = "Touchpad"@;
    if is_bt_touchpad(d) {
        let i = choose|i: int| crate::text::stands_at(d.name@, long, i);
        assert(long.subrange(26, 34) =~= short);
        assert(d.name@.subrange(i + 26, i + 34) =~= d.name@.subrange(i, i + 34).subrange(26, 34));
        assert(crate::text::stands_at(d.name@, short, i + 26));
    }
}

// ── Modes ────────────────────────────────────────────────────────────────────

/// Whether disable-while-typing waits for the keyboard to leave the dock or for its devices.
#[derive(Clone, Copy, Debug, PartialEq, Eq, Structural)]
pub enum DwtMode {
    Docked,
    Bluetooth,
    Ended,
}

/// The mode at start: the keyboard is in use over Bluetooth unless it is attached by USB.
pub fn initial_mode(initial_usb_attached: bool) -> (r: DwtMode)
    ensures
        r == (if initial_usb_attached {
            DwtMode::Docked
        } else {
            DwtMode::Bluetooth
        }),
{
    if initial_usb_attached {
        DwtMode::Docked
    } else {
        DwtMode::Bluetooth
    }
}

/// The mode after the keyboard was put on the dock or taken off it. Taking it off the dock starts
/// the wait for its devices; putting it on ends that wait.
pub fn mode_after_dock_event(mode: DwtMode, docked: bool) -> (r: DwtMode)
    ensures
        r == (if mode == DwtMode::Ended {
            DwtMode::Ended
        } else if docked {
            DwtMode::Docked
        } else {
            DwtMode::Bluetooth
        }),
{
    match mode {
        DwtMode::Ended => DwtMode::Ended,
        _ => if docked {
            DwtMode::Docked
        } else {
            DwtMode::Bluetooth
        },
    }
}

/// The mode after a session, and how many seconds to wait before the devices are looked for again.
pub fn mode_after_session(exit: InnerExit) -> (r: (DwtMode, u64))
    ensures
        r == (match exit {
            InnerExit::DeviceGone => (DwtMode::Bluetooth, 1u64),
            InnerExit::UsbAttached => (DwtMode::Docked, 0u64),
            InnerExit::Shutdown => (DwtMode::Ended, 0u64),
        }),
{
    match exit {
        InnerExit::DeviceGone => (DwtMode::Bluetooth, 1),
        InnerExit::UsbAttached => (DwtMode::Docked, 0),
        InnerExit::Shutdown => (DwtMode::Ended, 0),
    }
}

/// Whether an event of the keyboard counts as typing: a pressed key, or a pressed vendor key.
pub fn counts_as_typing(is_key: bool, is_abs_misc: bool, value: i32) -> (r: bool)
    ensures
        r == ((is_key || is_abs_misc) && value > 0),
{
    (is_key || is_abs_misc) && value > 0
}

// ── What a session does with each event ──────────────────────────────────────

/// While nobody types, every event of the touchpad is forwarded as it is, but for one that puts
/// down a finger which the virtual device has on that slot already.
pub proof fn law_touch_is_forwarded(s: DwtView, ev: TouchEvent, now: u64)
    requires
        !s.suppressed,
        !(ev.code == TouchCode::MtTrackingId && ev.value >= 0
            && s.virt.slots[s.touch.current_slot].tracking_id == ev.value),
    ensures
        s.next(DwtEvent::Touch(ev), now).1 == DwtActionView::Forward(ev),
        !s.next(DwtEvent::Touch(ev), now).0.suppressed,
{
}

/// A finger that the virtual device has on its slot already is not put down twice, and its lifting
/// is never held back.
pub proof fn law_fingers_are_put_down_once(s: DwtView, ev: TouchEvent, now: u64)
    requires
        !s.suppressed,
        ev.code == TouchCode::MtTrackingId,
    ensures
        ev.value >= 0 && s.virt.slots[s.touch.current_slot].tracking_id == ev.value ==> s.next(
            DwtEvent::Touch(ev),
            now,
        ).1 == DwtActionView::Nothing,
        ev.value < 0 ==> s.next(DwtEvent::Touch(ev), now).1 == DwtActionView::Forward(ev),
{
}

/// What the touchpad reports is tracked whether or not it is forwarded, and what was written is
/// tracked of the virtual device; neither changes the other, nor the timer.
pub proof fn law_devices_are_tracked_apart(s: DwtView, ev: TouchEvent, now: u64)
    ensures
        ({
            let t = s.next(DwtEvent::Touch(ev), now).0;
            t.touch == s.touch.after(ev) && t.virt == s.virt && t.suppressed == s.suppressed
                && t.timer == s.timer
        }),
        ({
            let (t, action) = s.next(DwtEvent::Written(ev), now);
            t.virt == s.virt.after(ev) && t.touch == s.touch && t.suppressed == s.suppressed
                && t.timer == s.timer && action == DwtActionView::Nothing
        }),
{
}

/// A key suppresses the touchpad and sets the timer 350 milliseconds ahead; a timer that runs out
/// while suppressed lets the touchpad through again and tells the virtual device what it missed; it
/// is an hour away then.
pub proof fn law_typing_and_its_end(s: DwtView, now: u64)
    requires
        now + 3_600_000 <= u64::MAX,
    ensures
        ({
            let (t, action) = s.next(DwtEvent::Key, now);
            t.suppressed && t.timer == now + 350 && t.touch == s.touch && t.virt == s.virt && action
                == DwtActionView::Nothing
        }),
        now < s.timer ==> s.next(DwtEvent::Timer, now) == (s, DwtActionView::Nothing),
        s.timer <= now ==> ({
            let (t, action) = s.next(DwtEvent::Timer, now);
            &&& !t.suppressed
            &&& t.timer == now + 3_600_000
            &&& t.touch == s.touch
            &&& s.suppressed ==> t.virt == s.touch && action == DwtActionView::Reconcile(
                reconcile_events(s.virt, s.touch),
            )
            &&& !s.suppressed ==> t.virt == s.virt && action == DwtActionView::Nothing
        }),
{
}

/// A session ends when the keyboard is put on the dock, when either device is gone and when the
/// daemon goes down, and each time says which; taking the keyboard off the dock does not end it.
pub proof fn law_session_ends(s: DwtView, now: u64)
    ensures
        s.next(DwtEvent::KeyboardDocked(true), now).1 == DwtActionView::Exit(
            InnerExit::UsbAttached,
        ),
        s.next(DwtEvent::KeyboardDocked(false), now) == (s, DwtActionView::Nothing),
        s.next(DwtEvent::TouchpadGone, now).1 == DwtActionView::Exit(InnerExit::DeviceGone),
        s.next(DwtEvent::KeyboardGone, now).1 == DwtActionView::Exit(InnerExit::DeviceGone),
        s.next(DwtEvent::Closed, now).1 == DwtActionView::Exit(InnerExit::Shutdown),
{
}

/// An event changes exactly what it is about: the selected slot, one field of that slot, a button or
/// a coordinate.
pub proof fn law_events_change_what_they_are_about(s: TouchView, ev: TouchEvent)
    requires
        s.slots.len() == 5,
        0 <= s.current_slot < 5,
    ensures
        ({
            let t = s.after(ev);
            let k = s.current_slot;
            &&& t.slots.len() == 5
            &&& t.current_slot == (if ev.code == TouchCode::MtSlot && 0 <= ev.value < 5 {
                ev.value as int
            } else {
                k
            })
            &&& t.slots[k].tracking_id == (if ev.code == TouchCode::MtTrackingId {
                ev.value
            } else {
                s.slots[k].tracking_id
            })
            &&& t.slots[k].x == (if ev.code == TouchCode::MtPositionX {
                ev.value
            } else {
                s.slots[k].x
            })
            &&& t.slots[k].y == (if ev.code == TouchCode::MtPositionY {
                ev.value
            } else {
                s.slots[k].y
            })
            &&& t.slots[k].tool_type == (if ev.code == TouchCode::MtToolType {
                ev.value
            } else {
                s.slots[k].tool_type
            })
            &&& forall|j: int| 0 <= j < 5 && j != k ==> #[trigger] t.slots[j] == s.slots[j]
        }),
{
}

/// An event of a button or of a single coordinate changes exactly that.
pub proof fn law_events_change_their_button(s: TouchView, ev: TouchEvent)
    ensures
        ({
            let t = s.after(ev);
            &&& t.btn_touch == (if ev.code == TouchCode::BtnTouch {
                ev.value
            } else {
                s.btn_touch
            })
            &&& t.btn_tool_finger == (if ev.code == TouchCode::BtnToolFinger {
                ev.value
            } else {
                s.btn_tool_finger
            })
            &&& t.btn_tool_doubletap == (if ev.code == TouchCode::BtnToolDoubletap {
                ev.value
            } else {
                s.btn_tool_doubletap
            })
            &&& t.btn_tool_tripletap == (if ev.code == TouchCode::BtnToolTripletap {
                ev.value
            } else {
                s.btn_tool_tripletap
            })
            &&& t.btn_tool_quadtap == (if ev.code == TouchCode::BtnToolQuadtap {
                ev.value
            } else {
                s.btn_tool_quadtap
            })
            &&& t.abs_x == (if ev.code == TouchCode::AbsX {
                ev.value
            } else {
                s.abs_x
            })
            &&& t.abs_y == (if ev.code == TouchCode::AbsY {
                ev.value
            } else {
                s.abs_y
            })
        }),
{
}

/// Events are taken one after the other, in order.
pub proof fn law_events_are_replayed_in_order(s: TouchView, events: Seq<TouchEvent>, ev: TouchEvent)
    ensures
        s.replay(Seq::empty()) == s,
        s.replay(events.push(ev)) == s.replay(events).after(ev),
{
    assert(events.push(ev).drop_last() =~= events);
}

/// Nothing touches a touchpad at first: five free slots, no button and no coordinate.
pub proof fn law_untouched_touchpad(j: int)
    requires
        0 <= j < 5,
    ensures
        ({
            let s = TouchView::untouched();
            &&& s.slots.len() == 5
            &&& s.slots[j].tracking_id == -1
            &&& s.slots[j].x == 0 && s.slots[j].y == 0 && s.slots[j].tool_type == 0
            &&& s.current_slot == 0
            &&& s.btn_touch == 0 && s.btn_tool_finger == 0 && s.btn_tool_doubletap == 0
            &&& s.btn_tool_tripletap == 0 && s.btn_tool_quadtap == 0
            &&& s.abs_x == 0 && s.abs_y == 0
        }),
{
}

/// What the virtual device was told last makes it agree with the touchpad: in every slot a finger is
/// down on both or on neither, with the same id; one that was put down anew is where the real one is
/// and has its tool; and every button is pressed on both or on neither.
pub proof fn law_reconciled_devices_agree(virt: TouchView, pad: TouchView, j: int)
    requires
        virt.slots.len() == 5,
        pad.slots.len() == 5,
        0 <= virt.current_slot < 5,
        0 <= pad.current_slot < 5,
        0 <= j < 5,
    ensures
        ({
            let t = virt.replay(reconcile_events(virt, pad));
            let (was, down, now) = (virt.slots[j], pad.slots[j], t.slots[j]);
            &&& (now.tracking_id >= 0 <==> down.tracking_id >= 0)
            &&& down.tracking_id >= 0 ==> now.tracking_id == down.tracking_id
            &&& down.tracking_id >= 0 && was.tracking_id != down.tracking_id ==> now.x == down.x
                && now.y == down.y && (down.tool_type != 0 ==> now.tool_type == down.tool_type)
            &&& was.tracking_id == down.tracking_id ==> now == was
            &&& (t.btn_touch >= 1 <==> pad.btn_touch >= 1)
            &&& (t.btn_tool_finger >= 1 <==> pad.btn_tool_finger >= 1)
            &&& (t.btn_tool_doubletap >= 1 <==> pad.btn_tool_doubletap >= 1)
            &&& (t.btn_tool_tripletap >= 1 <==> pad.btn_tool_tripletap >= 1)
            &&& (t.btn_tool_quadtap >= 1 <==> pad.btn_tool_quadtap >= 1)
        }),
{
    law_reconcile_synchronises(virt, pad);
    let t = virt.replay(reconcile_events(virt, pad));
    assert(slot_synced(virt.slots[j], pad.slots[j], t.slots[j]));
}

/// Whatever the virtual device is told at once ends with a report.
pub proof fn law_reconciliation_ends_with_a_report(virt: TouchView, pad: TouchView)
    ensures
        ({
            let events = reconcile_events(virt, pad);
            events.len() > 0 ==> events.len() > 1 && events.last().code == TouchCode::SynReport
                && events.last().value == 0
        }),
{
}

proof fn lemma_slots_told(virt: TouchView, pad: TouchView, n: nat, j: int)
    requires
        0 <= j < n,
        virt.slots[j].tracking_id != pad.slots[j].tracking_id,
    ensures
        slots_events(virt, pad, n).len() > 0,
    decreases n,
{
    if j < n - 1 {
        lemma_slots_told(virt, pad, (n - 1) as nat, j);
    }
}

/// The virtual device is told something wherever a slot's finger or a button's state differs.
pub proof fn law_differences_are_told(virt: TouchView, pad: TouchView, j: int)
    requires
        0 <= j < 5,
        virt.slots[j].tracking_id != pad.slots[j].tracking_id || (virt.btn_touch >= 1) != (
        pad.btn_touch >= 1),
    ensures
        reconcile_events(virt, pad).len() > 0,
{
    if virt.slots[j].tracking_id != pad.slots[j].tracking_id {
        lemma_slots_told(virt, pad, 5, j);
    }
}

/// The keyboard and its touchpad are Bluetooth devices known by their names; the keyboard has keys
/// and is no touchpad or mouse.
pub proof fn law_bluetooth_devices_by_name(d: InputDeviceInfo)
    ensures
        is_bt_keyboard(d) <==> d.bus == 5 && d.has_keys && crate::text::contains_text(
            d.name@,
            "ASUS Zenbook Duo Keyboard"@,
        ) && !crate::text::contains_text(d.name@, "Touchpad"@) && !crate::text::contains_text(
            d.name@,
            "Mouse"@,
        ),
        is_bt_touchpad(d) <==> d.bus == 5 && crate::text::contains_text(
            d.name@,
            "ASUS Zenbook Duo Keyboard Touchpad"@,
        ),
{
}

/// A button that differs is told once, as pressed or released; one that does not is not told.
pub proof fn law_buttons_are_told(code: TouchCode, virt: i32, pad: i32)
    ensures
        (virt >= 1) == (pad >= 1) ==> button_events(code, virt, pad).len() == 0,
        virt < 1 && pad >= 1 ==> button_events(code, virt, pad) =~= seq![
            TouchEvent { code, value: 1 },
        ],
        virt >= 1 && pad < 1 ==> button_events(code, virt, pad) =~= seq![
            TouchEvent { code, value: 0 },
        ],
{
}

/// A slot that differs is selected, freed with -1 if a finger is on it, and given the finger of the
/// touchpad with its place and, where it has one, its tool.
pub proof fn law_slots_are_told(i: int, virt: SlotState, pad: SlotState)
    requires
        0 <= i < 5,
        virt.tracking_id != pad.tracking_id,
    ensures
        ({
            let told = slot_events(i, virt, pad);
            &&& told[0].code == TouchCode::MtSlot && told[0].value == i
            &&& virt.tracking_id >= 0 ==> told[1].code == TouchCode::MtTrackingId && told[1].value
                == -1
            &&& virt.tracking_id < 0 && pad.tracking_id >= 0 ==> told[1].code
                == TouchCode::MtTrackingId && told[1].value == pad.tracking_id
            &&& told.len() == 1 + (if virt.tracking_id >= 0 {
                1int
            } else {
                0int
            }) + (if pad.tracking_id >= 0 {
                if pad.tool_type != 0 {
                    4int
                } else {
                    3int
                }
            } else {
                0int
            })
        }),
        slot_events(i, pad, pad).len() == 0,
{
}

/// Actions are seen as they are.
pub proof fn law_session_actions_are_seen_as_they_are(
    ev: TouchEvent,
    events: Vec<TouchEvent>,
    exit: InnerExit,
)
    ensures
        DwtAction::Nothing@ is Nothing,
        DwtAction::Forward(ev)@ == DwtActionView::Forward(ev),
        DwtAction::Reconcile(events)@ == DwtActionView::Reconcile(events@),
        DwtAction::Exit(exit)@ == DwtActionView::Exit(exit),
{
}

} // verus!
