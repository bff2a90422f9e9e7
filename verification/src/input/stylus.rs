//! The stylus state machine: the tool in range and what it reports, and one
//! event per device frame that says how the contact changed.

use std::collections::VecDeque;
use vstd::prelude::*;

use crate::input::{queue_view, Event as InputEvent, EventView, RawEvent, EV_ABS, EV_KEY};
use crate::types::pos2::Pos2;

verus! {

/// Axis code: x position.
pub const ABS_X: u16 = 0x00;

/// Axis code: y position.
pub const ABS_Y: u16 = 0x01;

/// Axis code: pressure of the tip.
pub const ABS_PRESSURE: u16 = 0x18;

/// Axis code: distance of the tip from the surface.
pub const ABS_DISTANCE: u16 = 0x19;

/// Axis code: tilt along the x axis.
pub const ABS_TILT_X: u16 = 0x1a;

/// Axis code: tilt along the y axis.
pub const ABS_TILT_Y: u16 = 0x1b;

/// Key code: the pen end of the stylus is in range.
pub const BTN_TOOL_PEN: u16 = 0x140;

/// Key code: the eraser end of the stylus is in range.
pub const BTN_TOOL_RUBBER: u16 = 0x141;

/// Key code: the tip touches the surface.
pub const BTN_TOUCH: u16 = 0x14a;

/// Key code: the button on the barrel, which marks a device as a stylus.
pub const BTN_STYLUS: u16 = 0x14b;

/// How the stylus contact changed within one device frame.
#[derive(Debug, Clone, Copy, PartialEq, Eq, Structural)]
pub struct Event {
    pub phase: Phase,
}

#[derive(Debug, Clone, Copy, PartialEq, Eq, Structural)]
pub enum Phase {
    /// The tool came into range without touching.
    Hover,
    /// The tool began to touch.
    Touch,
    /// The tool reported new values and neither began nor ceased to touch.
    Change,
    /// The tool ceased to touch.
    Lift,
    /// The tool left the range without having touched.
    Leave,
}

#[derive(Debug, Clone, Copy, PartialEq, Eq, Structural)]
pub enum Tool {
    Pen,
    Rubber,
}

impl Tool {
    /// The tool that a key code denotes.
    pub open spec fn spec_from_code(code: u16) -> Option<Tool> {
        if code == BTN_TOOL_PEN {
            Some(Tool::Pen)
        } else if code == BTN_TOOL_RUBBER {
            Some(Tool::Rubber)
        } else {
            None
        }
    }

    /// Decodes the key code of a tool.
    #[must_use]
    pub fn from_evdev(code: u16) -> (tool: Option<Tool>)
        ensures
            tool == Tool::spec_from_code(code),
    {
        if code == BTN_TOOL_PEN {
            Some(Tool::Pen)
        } else if code == BTN_TOOL_RUBBER {
            Some(Tool::Rubber)
        } else {
            None
        }
    }
}

/// What is known of the tool in range, in device units.
#[derive(Debug, Clone, Copy, PartialEq, Eq, Structural)]
pub struct StylusState {
    pub tool: Tool,
    pub touching: bool,
    pub x: u16,
    pub y: u16,
    pub pressure: u16,
    pub distance: u8,
    pub tilt_x: i16,
    pub tilt_y: i16,
}

impl StylusState {
    /// The state of a tool that has just come into range.
    pub open spec fn spec_fresh(tool: Tool) -> StylusState {
        StylusState {
            tool,
            touching: false,
            x: 0,
            y: 0,
            pressure: 0,
            distance: 0,
            tilt_x: 0,
            tilt_y: 0,
        }
    }

    #[inline]
    #[must_use]
    pub fn tool(self) -> (v: Tool)
        ensures
            v == self.tool,
    {
        self.tool
    }

    #[inline]
    #[must_use]
    pub fn touching(self) -> (v: bool)
        ensures
            v == self.touching,
    {
        self.touching
    }

    #[inline]
    #[must_use]
    pub fn pressure(self) -> (v: u16)
        ensures
            v == self.pressure,
    {
        self.pressure
    }

    #[inline]
    #[must_use]
    pub fn distance(self) -> (v: u8)
        ensures
            v == self.distance,
    {
        self.distance
    }

    /// The tilt along both axes, as a point.
    #[inline]
    #[must_use]
    pub fn tilt(self) -> (p: Pos2)
        ensures
            p.x == self.tilt_x,
            p.y == self.tilt_y,
    {
        Pos2 { x: self.tilt_x as i32, y: self.tilt_y as i32 }
    }
}

/// The part of a raw event that the stylus state machine reads.
#[derive(Debug, Clone, Copy, PartialEq, Eq, Structural)]
pub enum StylusInput {
    Tool(Option<Tool>),
    Touch(bool),
    PositionX(u16),
    PositionY(u16),
    Pressure(u16),
    Distance(u8),
    TiltX(i16),
    TiltY(i16),
}

/// Whether the value of a raw event fits the field that its axis sets. Events
/// that the state machine does not read are well formed whatever they hold.
pub open spec fn spec_well_formed(raw: RawEvent) -> bool {
    raw.kind == EV_ABS ==> {
        if raw.code == ABS_X || raw.code == ABS_Y || raw.code == ABS_PRESSURE {
            0 <= raw.value <= u16::MAX
        } else if raw.code == ABS_DISTANCE {
            0 <= raw.value <= u8::MAX
        } else if raw.code == ABS_TILT_X || raw.code == ABS_TILT_Y {
            i16::MIN <= raw.value <= i16::MAX
        } else {
            true
        }
    }
}

/// Whether every raw event of a frame is well formed.
pub open spec fn spec_all_well_formed(events: Seq<RawEvent>) -> bool {
    forall|i: int| 0 <= i < events.len() ==> spec_well_formed(#[trigger] events[i])
}

/// What a raw event means to the stylus state machine: an axis value, a tool
/// that comes into range (value 1) or leaves it, or the tip that touches
/// (value 1) or not. Other events mean nothing to it.
pub open spec fn spec_decode(raw: RawEvent) -> Option<StylusInput> {
    if raw.kind == EV_ABS {
        if raw.code == ABS_X {
            Some(StylusInput::PositionX(raw.value as u16))
        } else if raw.code == ABS_Y {
            Some(StylusInput::PositionY(raw.value as u16))
        } else if raw.code == ABS_PRESSURE {
            Some(StylusInput::Pressure(raw.value as u16))
        } else if raw.code == ABS_DISTANCE {
            Some(StylusInput::Distance(raw.value as u8))
        } else if raw.code == ABS_TILT_X {
            Some(StylusInput::TiltX(raw.value as i16))
        } else if raw.code == ABS_TILT_Y {
            Some(StylusInput::TiltY(raw.value as i16))
        } else {
            None
        }
    } else if raw.kind == EV_KEY {
        if Tool::spec_from_code(raw.code).is_some() {
            Some(
                StylusInput::Tool(
                    if raw.value == 1 {
                        Tool::spec_from_code(raw.code)
                    } else {
                        None
                    },
                ),
            )
        } else if raw.code == BTN_TOUCH {
            Some(StylusInput::Touch(raw.value == 1))
        } else {
            None
        }
    } else {
        None
    }
}

/// Whether the value of `raw` fits the field that its axis sets.
pub fn is_well_formed(raw: RawEvent) -> (b: bool)
    ensures
        b == spec_well_formed(raw),
{
    if raw.kind != EV_ABS {
        true
    } else if raw.code == ABS_X || raw.code == ABS_Y || raw.code == ABS_PRESSURE {
        0 <= raw.value && raw.value <= 65535
    } else if raw.code == ABS_DISTANCE {
        0 <= raw.value && raw.value <= 255
    } else if raw.code == ABS_TILT_X || raw.code == ABS_TILT_Y {
        -32768 <= raw.value && raw.value <= 32767
    } else {
        true
    }
}

/// Whether every raw event of the frame is well formed.
pub fn all_well_formed(events: &[RawEvent]) -> (b: bool)
    ensures
        b == spec_all_well_formed(events@),
{
    let mut i: usize = 0;
    while i < events.len()
        invariant
            i <= events.len(),
            forall|k: int| 0 <= k < i ==> spec_well_formed(#[trigger] events@[k]),
        decreases events.len() - i,
    {
        if !is_well_formed(events[i]) {
            return false;
        }
        i = i + 1;
    }
    true
}

/// Decodes a raw event.
pub fn decode(raw: RawEvent) -> (input: Option<StylusInput>)
    requires
        spec_well_formed(raw),
    ensures
        input == spec_decode(raw),
{
    if raw.kind == EV_ABS {
        if raw.code == ABS_X {
            Some(StylusInput::PositionX(raw.value as u16))
        } else if raw.code == ABS_Y {
            Some(StylusInput::PositionY(raw.value as u16))
        } else if raw.code == ABS_PRESSURE {
            Some(StylusInput::Pressure(raw.value as u16))
        } else if raw.code == ABS_DISTANCE {
            Some(StylusInput::Distance(raw.value as u8))
        } else if raw.code == ABS_TILT_X {
            Some(StylusInput::TiltX(raw.value as i16))
        } else if raw.code == ABS_TILT_Y {
            Some(StylusInput::TiltY(raw.value as i16))
        } else {
            None
        }
    } else if raw.kind == EV_KEY {
        let press = raw.value == 1;
        if let Some(tool) = Tool::from_evdev(raw.code) {
            Some(
                StylusInput::Tool(
                    if press {
                        Some(tool)
                    } else {
                        None
                    },
                ),
            )
        } else if raw.code == BTN_TOUCH {
            Some(StylusInput::Touch(press))
        } else {
            None
        }
    } else {
        None
    }
}

/// The stylus state: the tool in range, if any, and what it reports.
pub type State = Option<StylusState>;

/// The state after one more input. A tool that comes into range starts from
/// a fresh state; a tool that leaves clears the state. Every other input sets
/// its field if there is a state, and is skipped if there is none.
pub open spec fn spec_apply(state: Option<StylusState>, input: StylusInput) -> Option<StylusState> {
    match input {
        StylusInput::Tool(Some(tool)) => Some(StylusState::spec_fresh(tool)),
        StylusInput::Tool(None) => None,
        _ => match state {
            None => None,
            Some(s) => Some(
                match input {
                    StylusInput::Touch(v) => StylusState { touching: v, ..s },
                    StylusInput::PositionX(v) => StylusState { x: v, ..s },
                    StylusInput::PositionY(v) => StylusState { y: v, ..s },
                    StylusInput::Pressure(v) => StylusState { pressure: v, ..s },
                    StylusInput::Distance(v) => StylusState { distance: v, ..s },
                    StylusInput::TiltX(v) => StylusState { tilt_x: v, ..s },
                    StylusInput::TiltY(v) => StylusState { tilt_y: v, ..s },
                    StylusInput::Tool(_) => s,
                },
            ),
        },
    }
}

/// The state after the raw events of `events`, in order.
pub open spec fn spec_frame(state: Option<StylusState>, events: Seq<RawEvent>) -> Option<StylusState>
    decreases events.len(),
{
    if events.len() == 0 {
        state
    } else {
        let before = spec_frame(state, events.drop_last());
        match spec_decode(events.last()) {
            None => before,
            Some(input) => spec_apply(before, input),
        }
    }
}

/// The phase of a frame, told from whether the tool touched before and after
/// it; a tool out of range is `None`. No tool before and none after is the
/// one case without an event.
pub open spec fn spec_phase(before: Option<bool>, after: Option<bool>) -> Option<Phase> {
    match (before, after) {
        (None, None) => None,
        (None, Some(true)) => Some(Phase::Touch),
        (None, Some(false)) => Some(Phase::Hover),
        (Some(true), None) => Some(Phase::Lift),
        (Some(false), None) => Some(Phase::Leave),
        (Some(false), Some(false)) | (Some(true), Some(true)) => Some(Phase::Change),
        (Some(true), Some(false)) => Some(Phase::Lift),
        (Some(false), Some(true)) => Some(Phase::Touch),
    }
}

/// Whether the tool of `state` touches; `None` without a tool.
pub open spec fn spec_touching(state: Option<StylusState>) -> Option<bool> {
    match state {
        Some(s) => Some(s.touching),
        None => None,
    }
}

/// The event of a frame, if it has one.
pub open spec fn spec_emit(before: Option<StylusState>, after: Option<StylusState>) -> Seq<EventView> {
    match spec_phase(spec_touching(before), spec_touching(after)) {
        Some(phase) => seq![EventView::Stylus(Event { phase })],
        None => Seq::empty(),
    }
}

/// A raw event that means nothing to the stylus state machine is ignored.
pub proof fn lemma_unknown_event_ignored(
    state: Option<StylusState>,
    events: Seq<RawEvent>,
    unknown: RawEvent,
)
    requires
        spec_decode(unknown).is_none(),
    ensures
        spec_frame(state, events.push(unknown)) == spec_frame(state, events),
{
    assert(events.push(unknown).drop_last() =~= events);
}

/// The state after one input.
fn apply(state: Option<StylusState>, input: StylusInput) -> (after: Option<StylusState>)
    ensures
        after == spec_apply(state, input),
{
    match input {
        StylusInput::Tool(Some(tool)) => Some(
            StylusState {
                tool,
                touching: false,
                x: 0,
                y: 0,
                pressure: 0,
                distance: 0,
                tilt_x: 0,
                tilt_y: 0,
            },
        ),
        StylusInput::Tool(None) => None,
        _ => match state {
            None => None,
            Some(s) => {
                let mut s = s;
                match input {
                    StylusInput::Touch(v) => {
                        s.touching = v;
                    },
                    StylusInput::PositionX(v) => {
                        s.x = v;
                    },
                    StylusInput::PositionY(v) => {
                        s.y = v;
                    },
                    StylusInput::Pressure(v) => {
                        s.pressure = v;
                    },
                    StylusInput::Distance(v) => {
                        s.distance = v;
                    },
                    StylusInput::TiltX(v) => {
                        s.tilt_x = v;
                    },
                    StylusInput::TiltY(v) => {
                        s.tilt_y = v;
                    },
                    StylusInput::Tool(_) => {},
                }
                Some(s)
            },
        },
    }
}

/// Feeds the raw events of one device frame to the state machine and appends
/// the frame's event to `queue`: exactly one, unless there is no tool in
/// range before the frame and none after it.
pub fn handle_events(state: &mut Option<StylusState>, events: &[RawEvent], queue: &mut VecDeque<InputEvent>)
    requires
        spec_all_well_formed(events@),
    ensures
        *final(state) == spec_frame(*old(state), events@),
        queue_view(final(queue)@) == queue_view(old(queue)@) + spec_emit(
            *old(state),
            *final(state),
        ),
{
    let prev_touching = match *state {
        Some(s) => Some(s.touching),
        None => None,
    };
    let ghost start = *state;
    let mut i: usize = 0;
    while i < events.len()
        invariant
            i <= events.len(),
            spec_all_well_formed(events@),
            *state == spec_frame(start, events@.take(i as int)),
        decreases events.len() - i,
    {
        proof {
            assert(events@.take(i + 1).drop_last() =~= events@.take(i as int));
        }
        if let Some(input) = decode(events[i]) {
            *state = apply(*state, input);
        }
        i = i + 1;
    }
    proof {
        assert(events@.take(i as int) =~= events@);
    }
    let now_touching = match *state {
        Some(s) => Some(s.touching),
        None => None,
    };
    let phase = match (prev_touching, now_touching) {
        (None, None) => {
            return ;
        },
        (None, Some(true)) => Phase::Touch,
        (None, Some(false)) => Phase::Hover,
        (Some(true), None) => Phase::Lift,
        (Some(false), None) => Phase::Leave,
        (Some(false), Some(false)) | (Some(true), Some(true)) => Phase::Change,
        (Some(true), Some(false)) => Phase::Lift,
        (Some(false), Some(true)) => Phase::Touch,
    };
    queue.push_back(InputEvent::Stylus(Event { phase }));
}

} // verus!
