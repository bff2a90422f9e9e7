//! The multi-touch state machine: per-slot contact state, and one event per
//! slot and device frame that says what became of the contact.

use std::collections::VecDeque;
use vstd::prelude::*;

use crate::input::{queue_view, Event as InputEvent, EventView, RawEvent, EV_ABS};
use crate::types::pos2::Pos2;
use crate::FB_HEIGHT;

verus! {

/// Axis code: selects the slot that the following events speak of.
pub const ABS_MT_SLOT: u16 = 0x2f;

/// Axis code: major axis of the contact ellipse.
pub const ABS_MT_TOUCH_MAJOR: u16 = 0x30;

/// Axis code: minor axis of the contact ellipse.
pub const ABS_MT_TOUCH_MINOR: u16 = 0x31;

/// Axis code: orientation of the contact ellipse.
pub const ABS_MT_ORIENTATION: u16 = 0x34;

/// Axis code: x position of the contact.
pub const ABS_MT_POSITION_X: u16 = 0x35;

/// Axis code: y position of the contact.
pub const ABS_MT_POSITION_Y: u16 = 0x36;

/// Axis code: identity of the contact; the value -1 ends it.
pub const ABS_MT_TRACKING_ID: u16 = 0x39;

/// Axis code: pressure of the contact.
pub const ABS_MT_PRESSURE: u16 = 0x3a;

/// Number of slots of the touchscreen.
pub const SLOT_COUNT: usize = 32;

/// What became of a contact within one device frame.
#[derive(Debug, Clone, Copy, PartialEq, Eq, Structural)]
pub struct Event {
    pub touch_id: Id,
    pub phase: Phase,
}

/// The identity of a contact for as long as it lasts: the number of its slot,
/// below `SLOT_COUNT`.
#[derive(Debug, Clone, Copy, PartialEq, Eq, Structural, Hash)]
pub struct Id(pub u8);

#[derive(Debug, Clone, Copy, PartialEq, Eq, Structural, Hash)]
pub enum Phase {
    Start,
    Change,
    End,
}

/// What is known of one contact, in device units.
#[derive(Debug, Clone, Copy, PartialEq, Eq, Structural)]
pub struct TouchState {
    pub x: u16,
    pub y: u16,
    pub pressure: u8,
    pub touch_major: u8,
    pub touch_minor: u8,
    pub orientation: i8,
}

impl Default for TouchState {
    fn default() -> (state: TouchState)
        ensures
            state == TouchState::spec_default(),
    {
        TouchState { x: 0, y: 0, pressure: 0, touch_major: 0, touch_minor: 0, orientation: 0 }
    }
}

impl TouchState {
    /// The state of a contact of which nothing has been reported yet.
    pub open spec fn spec_default() -> TouchState {
        TouchState { x: 0, y: 0, pressure: 0, touch_major: 0, touch_minor: 0, orientation: 0 }
    }

    /// The position on the framebuffer. The device's y axis runs opposite to
    /// that of the display, so y is mirrored in the framebuffer's height.
    #[inline]
    #[must_use]
    pub fn position(&self) -> (p: Pos2)
        ensures
            p.x == self.x,
            p.y == FB_HEIGHT - self.y,
    {
        // The Y is mirrored relative to the framebuffer.
        let y = FB_HEIGHT - (self.y as i32);
        Pos2 { x: self.x as i32, y }
    }

    #[inline]
    #[must_use]
    pub fn pressure(&self) -> (v: u8)
        ensures
            v == self.pressure,
    {
        self.pressure
    }

    #[inline]
    #[must_use]
    pub fn touch_major(&self) -> (v: u8)
        ensures
            v == self.touch_major,
    {
        self.touch_major
    }

    #[inline]
    #[must_use]
    pub fn touch_minor(&self) -> (v: u8)
        ensures
            v == self.touch_minor,
    {
        self.touch_minor
    }

    #[inline]
    #[must_use]
    pub fn orientation(&self) -> (v: i8)
        ensures
            v == self.orientation,
    {
        self.orientation
    }

    /// The state with the field that `input` reports set to its value.
    pub open spec fn spec_with(self, input: TouchInput) -> TouchState {
        match input {
            TouchInput::PositionX(v) => TouchState { x: v, ..self },
            TouchInput::PositionY(v) => TouchState { y: v, ..self },
            TouchInput::Pressure(v) => TouchState { pressure: v, ..self },
            TouchInput::TouchMajor(v) => TouchState { touch_major: v, ..self },
            TouchInput::TouchMinor(v) => TouchState { touch_minor: v, ..self },
            TouchInput::Orientation(v) => TouchState { orientation: v, ..self },
            _ => self,
        }
    }

    fn with(self, input: TouchInput) -> (state: TouchState)
        ensures
            state == self.spec_with(input),
    {
        let mut state = self;
        match input {
            TouchInput::PositionX(v) => {
                state.x = v;
            },
            TouchInput::PositionY(v) => {
                state.y = v;
            },
            TouchInput::Pressure(v) => {
                state.pressure = v;
            },
            TouchInput::TouchMajor(v) => {
                state.touch_major = v;
            },
            TouchInput::TouchMinor(v) => {
                state.touch_minor = v;
            },
            TouchInput::Orientation(v) => {
                state.orientation = v;
            },
            _ => {},
        }
        state
    }
}

/// The part of a raw event that the touch state machine reads.
#[derive(Debug, Clone, Copy, PartialEq, Eq, Structural)]
pub enum TouchInput {
    Slot(u8),
    TouchEnd,
    PositionX(u16),
    PositionY(u16),
    Pressure(u8),
    TouchMajor(u8),
    TouchMinor(u8),
    Orientation(i8),
}

/// Whether the value of a raw event fits the field that its axis sets. Events
/// that the state machine does not read are well formed whatever they hold.
pub open spec fn spec_well_formed(raw: RawEvent) -> bool {
    raw.kind == EV_ABS ==> {
        if raw.code == ABS_MT_SLOT || raw.code == ABS_MT_PRESSURE || raw.code
            == ABS_MT_TOUCH_MAJOR || raw.code == ABS_MT_TOUCH_MINOR {
            0 <= raw.value <= u8::MAX
        } else if raw.code == ABS_MT_POSITION_X || raw.code == ABS_MT_POSITION_Y {
            0 <= raw.value <= u16::MAX
        } else if raw.code == ABS_MT_ORIENTATION {
            i8::MIN <= raw.value <= i8::MAX
        } else {
            true
        }
    }
}

/// Whether every raw event of a frame is well formed.
pub open spec fn spec_all_well_formed(events: Seq<RawEvent>) -> bool {
    forall|i: int| 0 <= i < events.len() ==> spec_well_formed(#[trigger] events[i])
}

/// What a raw event means to the touch state machine. Events of other
/// classes, other axes, and tracking ids other than -1 mean nothing to it.
pub open spec fn spec_decode(raw: RawEvent) -> Option<TouchInput> {
    if raw.kind != EV_ABS {
        None
    } else if raw.code == ABS_MT_SLOT {
        Some(TouchInput::Slot(raw.value as u8))
    } else if raw.code == ABS_MT_TRACKING_ID {
        if raw.value == -1 {
            Some(TouchInput::TouchEnd)
        } else {
            None
        }
    } else if raw.code == ABS_MT_POSITION_X {
        Some(TouchInput::PositionX(raw.value as u16))
    } else if raw.code == ABS_MT_POSITION_Y {
        Some(TouchInput::PositionY(raw.value as u16))
    } else if raw.code == ABS_MT_PRESSURE {
        Some(TouchInput::Pressure(raw.value as u8))
    } else if raw.code == ABS_MT_TOUCH_MAJOR {
        Some(TouchInput::TouchMajor(raw.value as u8))
    } else if raw.code == ABS_MT_TOUCH_MINOR {
        Some(TouchInput::TouchMinor(raw.value as u8))
    } else if raw.code == ABS_MT_ORIENTATION {
        Some(TouchInput::Orientation(raw.value as i8))
    } else {
        None
    }
}

/// Whether the value of `raw` fits the field that its axis sets.
pub fn is_well_formed(raw: RawEvent) -> (b: bool)
    ensures
        b == spec_well_formed(raw),
{
    if raw.kind != EV_ABS {
        true
    } else if raw.code == ABS_MT_SLOT || raw.code == ABS_MT_PRESSURE || raw.code
        == ABS_MT_TOUCH_MAJOR || raw.code == ABS_MT_TOUCH_MINOR {
        0 <= raw.value && raw.value <= 255
    } else if raw.code == ABS_MT_POSITION_X || raw.code == ABS_MT_POSITION_Y {
        0 <= raw.value && raw.value <= 65535
    } else if raw.code == ABS_MT_ORIENTATION {
        -128 <= raw.value && raw.value <= 127
    } else {
        true
    }
}

/// Whether every raw event of the frame is well formed.
pub fn all_well_formed(events: &[RawEvent]) -> (b: bool)
    ensures
        b == spec_all_well_formed(events@),
{
    let mut i: usize = 0;
    while i < events.len()
        invariant
            i <= events.len(),
            forall|k: int| 0 <= k < i ==> spec_well_formed(#[trigger] events@[k]),
        decreases events.len() - i,
    {
        if !is_well_formed(events[i]) {
            return false;
        }
        i = i + 1;
    }
    true
}

/// Decodes a raw event.
pub fn decode(raw: RawEvent) -> (input: Option<TouchInput>)
    requires
        spec_well_formed(raw),
    ensures
        input == spec_decode(raw),
{
    if raw.kind != EV_ABS {
        None
    } else if raw.code == ABS_MT_SLOT {
        Some(TouchInput::Slot(raw.value as u8))
    } else if raw.code == ABS_MT_TRACKING_ID {
        if raw.value == -1 {
            Some(TouchInput::TouchEnd)
        } else {
            None
        }
    } else if raw.code == ABS_MT_POSITION_X {
        Some(TouchInput::PositionX(raw.value as u16))
    } else if raw.code == ABS_MT_POSITION_Y {
        Some(TouchInput::PositionY(raw.value as u16))
    } else if raw.code == ABS_MT_PRESSURE {
        Some(TouchInput::Pressure(raw.value as u8))
    } else if raw.code == ABS_MT_TOUCH_MAJOR {
        Some(TouchInput::TouchMajor(raw.value as u8))
    } else if raw.code == ABS_MT_TOUCH_MINOR {
        Some(TouchInput::TouchMinor(raw.value as u8))
    } else if raw.code == ABS_MT_ORIENTATION {
        Some(TouchInput::Orientation(raw.value as i8))
    } else {
        // Although the touchscreen does report a distance, it seems to always
        // be zero, so we ignore it.
        None
    }
}

/// The state of the touch state machine in the middle of a frame.
pub struct FrameView {
    /// The slot that axis events speak of.
    pub slot: u8,
    /// The state of each slot's contact, if it has one.
    pub states: Seq<Option<TouchState>>,
    /// What happened to each slot in this frame so far.
    pub changes: Seq<Option<Phase>>,
}

/// The frame after one more input. `entry` holds the slot states at the
/// start of the frame.
///
/// A slot number selects the slot. While the selected slot is not one of the
/// touchscreen's, everything else is skipped. The end of a contact clears the
/// slot's state if it has one; the frame's change for the slot becomes `End`,
/// unless it was `Start`: then the contact began and ended within the frame
/// and nothing remains to report. An axis update creates the state if there
/// is none and sets the field; the change becomes `Start` if the slot was
/// empty when the frame began, else `Change`.
pub open spec fn spec_apply(entry: Seq<Option<TouchState>>, frame: FrameView, input: TouchInput) -> FrameView {
    let slot = frame.slot as int;
    match input {
        TouchInput::Slot(v) => FrameView { slot: v, ..frame },
        _ => if slot >= SLOT_COUNT {
            frame
        } else {
            match input {
                TouchInput::TouchEnd => if frame.states[slot].is_some() {
                    FrameView {
                        slot: frame.slot,
                        states: frame.states.update(slot, None),
                        changes: frame.changes.update(
                            slot,
                            if frame.changes[slot] == Some(Phase::Start) {
                                None
                            } else {
                                Some(Phase::End)
                            },
                        ),
                    }
                } else {
                    frame
                },
                _ => FrameView {
                    slot: frame.slot,
                    states: frame.states.update(
                        slot,
                        Some(
                            (match frame.states[slot] {
                                Some(state) => state,
                                None => TouchState::spec_default(),
                            }).spec_with(input),
                        ),
                    ),
                    changes: frame.changes.update(
                        slot,
                        Some(
                            if entry[slot].is_none() || frame.changes[slot] == Some(Phase::Start) {
                                Phase::Start
                            } else {
                                Phase::Change
                            },
                        ),
                    ),
                },
            }
        },
    }
}

/// The frame after the raw events of `events`, in order; with no change for
/// any slot at its start.
pub open spec fn spec_frame(state: TouchView, events: Seq<RawEvent>) -> FrameView
    decreases events.len(),
{
    if events.len() == 0 {
        FrameView {
            slot: state.slot,
            states: state.states,
            changes: Seq::new(SLOT_COUNT as nat, |i: int| None::<Phase>),
        }
    } else {
        let before = spec_frame(state, events.drop_last());
        match spec_decode(events.last()) {
            None => before,
            Some(input) => spec_apply(state.states, before, input),
        }
    }
}

/// The events of the first `n` slots at the end of a frame: one for each slot
/// with a change, in slot order.
pub open spec fn spec_emit(changes: Seq<Option<Phase>>, n: int) -> Seq<EventView>
    decreases n,
{
    if n <= 0 {
        Seq::empty()
    } else {
        match changes[n - 1] {
            Some(phase) => spec_emit(changes, n - 1).push(
                EventView::Touch(Event { touch_id: Id((n - 1) as u8), phase }),
            ),
            None => spec_emit(changes, n - 1),
        }
    }
}

/// What the touch state machine remembers between frames.
pub struct TouchView {
    pub slot: u8,
    pub states: Seq<Option<TouchState>>,
}

/// What a frame did to a slot, told from the slot's state before and after:
/// a contact that exists only after the frame started; one that exists only
/// before it ended; one that began and ended within the frame, or never was,
/// leaves no trace; one that exists before and after either changed or was
/// not spoken of.
pub proof fn lemma_frame_summary(state: TouchView, events: Seq<RawEvent>, slot: int)
    requires
        state.states.len() == SLOT_COUNT,
        0 <= slot < SLOT_COUNT,
    ensures
        spec_frame(state, events).states.len() == SLOT_COUNT,
        spec_frame(state, events).changes.len() == SLOT_COUNT,
        ({
            let frame = spec_frame(state, events);
            let before = state.states[slot];
            let after = frame.states[slot];
            let change = frame.changes[slot];
            &&& before.is_none() && after.is_none() ==> change.is_none()
            &&& before.is_none() && after.is_some() ==> change == Some(Phase::Start)
            &&& before.is_some() && after.is_none() ==> change == Some(Phase::End)
            &&& before.is_some() && after.is_some() ==> change.is_none() || change == Some(
                Phase::Change,
            )
            &&& change.is_none() && before.is_some() ==> after == before
        }),
    decreases events.len(),
{
    if events.len() > 0 {
        lemma_frame_summary(state, events.drop_last(), slot);
    }
}

/// An event is among those of the first `n` slots exactly if it is the event
/// of one of these slots and that slot has a change.
pub proof fn lemma_emit_member(changes: Seq<Option<Phase>>, n: int, event: EventView)
    requires
        changes.len() == SLOT_COUNT,
        0 <= n <= SLOT_COUNT,
    ensures
        spec_emit(changes, n).contains(event) <==> exists|slot: int|
            0 <= slot < n && #[trigger] changes[slot].is_some() && event == EventView::Touch(
                Event { touch_id: Id(slot as u8), phase: changes[slot].unwrap() },
            ),
    decreases n,
{
    if n > 0 {
        lemma_emit_member(changes, n - 1, event);
        let rest = spec_emit(changes, n - 1);
        match changes[n - 1] {
            Some(phase) => {
                let last = EventView::Touch(Event { touch_id: Id((n - 1) as u8), phase });
                assert(rest.push(last).contains(event) <==> rest.contains(event) || event == last)
                    by {
                    if rest.contains(event) {
                        let k = choose|k: int| 0 <= k < rest.len() && rest[k] == event;
                        assert(rest.push(last)[k] == event);
                    }
                    if event == last {
                        assert(rest.push(last)[rest.len() as int] == event);
                    }
                }
            },
            None => {},
        }
    }
}

/// Where only one slot has a change, its event is the only one.
pub proof fn lemma_emit_single(changes: Seq<Option<Phase>>, n: int, slot: int, phase: Phase)
    requires
        changes.len() == SLOT_COUNT,
        0 <= n <= SLOT_COUNT,
        0 <= slot < SLOT_COUNT,
        changes[slot] == Some(phase),
        forall|k: int| 0 <= k < SLOT_COUNT && k != slot ==> changes[k].is_none(),
    ensures
        spec_emit(changes, n) == (if slot < n {
            seq![EventView::Touch(Event { touch_id: Id(slot as u8), phase })]
        } else {
            Seq::empty()
        }),
    decreases n,
{
    if n > 0 {
        lemma_emit_single(changes, n - 1, slot, phase);
        if n - 1 == slot {
            assert(Seq::<EventView>::empty().push(
                EventView::Touch(Event { touch_id: Id(slot as u8), phase }),
            ) =~= seq![EventView::Touch(Event { touch_id: Id(slot as u8), phase })]);
        }
    }
}

/// A frame that does nothing but select an occupied slot and end its contact
/// produces exactly one event: the end of that contact.
pub proof fn lemma_end_of_contact(state: TouchView, slot: u8)
    requires
        state.states.len() == SLOT_COUNT,
        slot < SLOT_COUNT,
        state.states[slot as int].is_some(),
    ensures
        ({
            let events = seq![
                RawEvent { kind: EV_ABS, code: ABS_MT_SLOT, value: slot as i32 },
                RawEvent { kind: EV_ABS, code: ABS_MT_TRACKING_ID, value: -1i32 },
            ];
            spec_emit(spec_frame(state, events).changes, SLOT_COUNT as int) == seq![
                EventView::Touch(Event { touch_id: Id(slot), phase: Phase::End }),
            ]
        }),
{
    let select = RawEvent { kind: EV_ABS, code: ABS_MT_SLOT, value: slot as i32 };
    let end = RawEvent { kind: EV_ABS, code: ABS_MT_TRACKING_ID, value: -1i32 };
    let events = seq![select, end];
    reveal_with_fuel(spec_frame, 3);
    let f0 = spec_frame(state, Seq::<RawEvent>::empty());
    let f1 = spec_frame(state, seq![select]);
    let f2 = spec_frame(state, events);
    lemma_emit_single(f2.changes, SLOT_COUNT as int, slot as int, Phase::End);
}

/// A contact that begins and ends within one frame leaves no trace: where a
/// slot is empty before the frame and after it, the frame produces no event
/// for that slot.
pub proof fn lemma_no_trace_of_transient_contact(
    state: TouchView,
    events: Seq<RawEvent>,
    slot: u8,
    phase: Phase,
)
    requires
        state.states.len() == SLOT_COUNT,
        slot < SLOT_COUNT,
        state.states[slot as int].is_none(),
        spec_frame(state, events).states[slot as int].is_none(),
    ensures
        !spec_emit(spec_frame(state, events).changes, SLOT_COUNT as int).contains(
            EventView::Touch(Event { touch_id: Id(slot), phase }),
        ),
{
    let changes = spec_frame(state, events).changes;
    let event = EventView::Touch(Event { touch_id: Id(slot), phase });
    lemma_frame_summary(state, events, slot as int);
    lemma_emit_member(changes, SLOT_COUNT as int, event);
    if spec_emit(changes, SLOT_COUNT as int).contains(event) {
        let k = choose|k: int|
            0 <= k < SLOT_COUNT && #[trigger] changes[k].is_some() && event == EventView::Touch(
                Event { touch_id: Id(k as u8), phase: changes[k].unwrap() },
            );
    }
}

/// Of the events of a frame, a `Start` is for a slot that was empty when the
/// frame began and an `End` for a slot that was occupied.
pub proof fn lemma_phase_matches_entry(state: TouchView, events: Seq<RawEvent>, slot: u8, phase: Phase)
    requires
        state.states.len() == SLOT_COUNT,
        slot < SLOT_COUNT,
        spec_emit(spec_frame(state, events).changes, SLOT_COUNT as int).contains(
            EventView::Touch(Event { touch_id: Id(slot), phase }),
        ),
    ensures
        phase == Phase::Start ==> state.states[slot as int].is_none(),
        phase == Phase::End ==> state.states[slot as int].is_some(),
        phase == Phase::Start || phase == Phase::Change ==> spec_frame(
            state,
            events,
        ).states[slot as int].is_some(),
        phase == Phase::End ==> spec_frame(state, events).states[slot as int].is_none(),
{
    let changes = spec_frame(state, events).changes;
    let event = EventView::Touch(Event { touch_id: Id(slot), phase });
    lemma_frame_summary(state, events, slot as int);
    lemma_emit_member(changes, SLOT_COUNT as int, event);
    let k = choose|k: int|
        0 <= k < SLOT_COUNT && #[trigger] changes[k].is_some() && event == EventView::Touch(
            Event { touch_id: Id(k as u8), phase: changes[k].unwrap() },
        );
}

/// A raw event that means nothing to the touch state machine is ignored.
pub proof fn lemma_unknown_event_ignored(state: TouchView, events: Seq<RawEvent>, unknown: RawEvent)
    requires
        spec_decode(unknown).is_none(),
    ensures
        spec_frame(state, events.push(unknown)) == spec_frame(state, events),
{
    assert(events.push(unknown).drop_last() =~= events);
}

/// The touch state machine.
#[derive(Debug)]
pub struct State {
    /// The slot that axis events speak of. It may be out of range: events for
    /// such a slot are skipped.
    slot: u8,
    states: [Option<TouchState>; 32],
}

impl View for State {
    type V = TouchView;

    closed spec fn view(&self) -> TouchView {
        TouchView { slot: self.slot, states: self.states@ }
    }
}

impl Default for State {
    fn default() -> (state: State)
        ensures
            state@.slot == 0,
            state@.states.len() == SLOT_COUNT,
            forall|i: int| 0 <= i < SLOT_COUNT ==> state@.states[i] == None::<TouchState>,
    {
        State { slot: 0, states: [None;32] }
    }
}

impl State {
    /// The view always has one entry per slot.
    pub proof fn lemma_states_len(&self)
        ensures
            self@.states.len() == SLOT_COUNT,
    {
    }

    /// The state of the contact in the slot `slot`, if the slot is one of the
    /// touchscreen's and has a contact.
    #[inline]
    #[must_use]
    pub fn get(&self, slot: u8) -> (state: Option<TouchState>)
        ensures
            state == (if slot < SLOT_COUNT {
                self@.states[slot as int]
            } else {
                None
            }),
    {
        if (slot as usize) < SLOT_COUNT {
            self.states[slot as usize]
        } else {
            None
        }
    }

    /// Feeds the raw events of one device frame to the state machine and
    /// appends one event to `queue` for each slot that the frame changed, in
    /// slot order.
    ///
    /// Of the events appended, a `Start` is for a slot that was empty before
    /// the frame and an `End` for one that was occupied.
    pub fn handle_events(&mut self, events: &[RawEvent], queue: &mut VecDeque<InputEvent>)
        requires
            spec_all_well_formed(events@),
        ensures
            final(self)@.slot == spec_frame(old(self)@, events@).slot,
            final(self)@.states == spec_frame(old(self)@, events@).states,
            queue_view(final(queue)@) == queue_view(old(queue)@) + spec_emit(
                spec_frame(old(self)@, events@).changes,
                SLOT_COUNT as int,
            ),
    {
        let ghost start = self@;
        let entry = self.states;
        let mut changes: [Option<Phase>; 32] = [None;32];
        let mut i: usize = 0;
        while i < events.len()
            invariant
                i <= events.len(),
                spec_all_well_formed(events@),
                entry@ == start.states,
                self.slot == spec_frame(start, events@.take(i as int)).slot,
                self.states@ == spec_frame(start, events@.take(i as int)).states,
                changes@ == spec_frame(start, events@.take(i as int)).changes,
            decreases events.len() - i,
        {
            proof {
                assert(events@.take(i + 1).drop_last() =~= events@.take(i as int));
            }
            if let Some(input) = decode(events[i]) {
                match input {
                    TouchInput::Slot(v) => {
                        self.slot = v;
                    },
                    TouchInput::TouchEnd => {
                        let slot = self.slot as usize;
                        if slot < SLOT_COUNT {
                            if self.states[slot].is_some() {
                                self.states[slot] = None;
                                changes[slot] = match changes[slot] {
                                    Some(Phase::Start) => None,
                                    _ => Some(Phase::End),
                                };
                            }
                        }
                    },
                    _ => {
                        let slot = self.slot as usize;
                        if slot < SLOT_COUNT {
                            let started = match changes[slot] {
                                Some(Phase::Start) => true,
                                _ => false,
                            };
                            changes[slot] = if entry[slot].is_none() || started {
                                Some(Phase::Start)
                            } else {
                                Some(Phase::Change)
                            };
                            let state = match self.states[slot] {
                                Some(state) => state,
                                None => TouchState::default(),
                            };
                            self.states[slot] = Some(state.with(input));
                        }
                    },
                }
            }
            i = i + 1;
        }
        proof {
            assert(events@.take(i as int) =~= events@);
        }
        let ghost q0 = queue_view(queue@);
        let mut slot: usize = 0;
        while slot < SLOT_COUNT
            invariant
                slot <= SLOT_COUNT,
                queue_view(queue@) == q0 + spec_emit(changes@, slot as int),
            decreases SLOT_COUNT - slot,
        {
            let ghost q1 = queue_view(queue@);
            if let Some(phase) = changes[slot] {
                // The slot serves as the id: it does not change for the
                // duration of the contact.
                let event = Event { touch_id: Id(slot as u8), phase };
                queue.push_back(InputEvent::Touch(event));
                proof {
                    assert(q0 + spec_emit(changes@, slot as int).push(EventView::Touch(event))
                        =~= q1 + seq![EventView::Touch(event)]);
                }
            }
            slot = slot + 1;
        }
    }
}

} // verus!
