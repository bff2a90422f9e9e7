//! Input normalisation: raw device events in, semantic events out.
//!
//! Each device class has a state machine of its own that consumes the raw
//! events of one device frame and appends semantic events to a shared queue.

use std::collections::VecDeque;
use vstd::prelude::*;

pub mod devices;
pub mod keyboard;
pub mod stylus;
pub mod touch;

use crate::input::keyboard::{ButtonEvent, KeyEvent, KeyboardLayout, Modifiers, PressedKeys};
use crate::input::stylus::StylusState;
use crate::input::touch::TouchState;

verus! {

/// Event class of key and button events.
pub const EV_KEY: u16 = 1;

/// Event class of absolute axis events.
pub const EV_ABS: u16 = 3;

/// One event as a device reports it: its class, a code within the class and a
/// value.
#[derive(Debug, Clone, Copy, PartialEq, Eq, Structural, Hash)]
pub struct RawEvent {
    pub kind: u16,
    pub code: u16,
    pub value: i32,
}

/// The classes of devices that the engine reads.
#[derive(Debug, Clone, Copy, PartialEq, Eq, Structural, Hash)]
#[non_exhaustive]
pub enum SupportedDeviceType {
    Stylus,
    Buttons,
    Touchscreen,
    Keyboard,
}

/// A semantic input event.
#[derive(Debug, Clone, PartialEq, Eq)]
pub enum Event {
    Key(KeyEvent),
    Text(String),
    Button(ButtonEvent),
    Touch(touch::Event),
    Stylus(stylus::Event),
    DevicePresence(SupportedDeviceType),
}

/// `Event` with text as a sequence of characters.
pub enum EventView {
    Key(KeyEvent),
    Text(Seq<char>),
    Button(ButtonEvent),
    Touch(touch::Event),
    Stylus(stylus::Event),
    DevicePresence(SupportedDeviceType),
}

impl View for Event {
    type V = EventView;

    open spec fn view(&self) -> EventView {
        match self {
            Event::Key(event) => EventView::Key(*event),
            Event::Text(text) => EventView::Text(text@),
            Event::Button(event) => EventView::Button(*event),
            Event::Touch(event) => EventView::Touch(*event),
            Event::Stylus(event) => EventView::Stylus(*event),
            Event::DevicePresence(device) => EventView::DevicePresence(*device),
        }
    }
}

/// The views of the events of a queue, in order.
pub open spec fn queue_view(queue: Seq<Event>) -> Seq<EventView> {
    queue.map_values(|event: Event| event@)
}

/// The state machines of all device classes and the queue of events that
/// they feed.
#[derive(Debug)]
pub struct InputState<L: KeyboardLayout> {
    out_queue: VecDeque<Event>,
    keyboard: keyboard::State<L>,
    touch: touch::State,
    stylus: stylus::State,
}

/// What `InputState` holds.
pub struct InputView {
    /// The events not yet handed out, oldest first.
    pub queue: Seq<EventView>,
    pub keyboard: keyboard::KeyboardView,
    pub touch: touch::TouchView,
    pub stylus: Option<StylusState>,
}

impl<L: KeyboardLayout> View for InputState<L> {
    type V = InputView;

    closed spec fn view(&self) -> InputView {
        InputView {
            queue: queue_view(self.out_queue@),
            keyboard: self.keyboard@,
            touch: self.touch@,
            stylus: self.stylus,
        }
    }
}

/// Whether the values of the raw events fit what the state machine of the
/// device class reads from them. Key events have no such condition.
pub open spec fn spec_frame_well_formed(device: SupportedDeviceType, events: Seq<RawEvent>) -> bool {
    match device {
        SupportedDeviceType::Touchscreen => touch::spec_all_well_formed(events),
        SupportedDeviceType::Stylus => stylus::spec_all_well_formed(events),
        _ => true,
    }
}

/// Whether the values of the raw events fit what the state machine of the
/// device class reads from them.
pub fn frame_well_formed(device: SupportedDeviceType, events: &[RawEvent]) -> (b: bool)
    ensures
        b == spec_frame_well_formed(device, events@),
{
    match device {
        SupportedDeviceType::Touchscreen => touch::all_well_formed(events),
        SupportedDeviceType::Stylus => stylus::all_well_formed(events),
        _ => true,
    }
}

impl<L: KeyboardLayout> InputState<L> {
    /// The layout of the keyboard state machine.
    pub closed spec fn layout(&self) -> &L {
        self.keyboard.layout()
    }

    /// An empty queue, no key held, no contact and no tool.
    pub fn new(keyboard_layout: L) -> (state: InputState<L>)
        ensures
            state.layout() == &keyboard_layout,
            state@.queue.len() == 0,
            state@.keyboard.modifiers == Modifiers::spec_none(),
            state@.keyboard.held_keys.len() == keyboard::key::SCANCODE_COUNT,
            forall|i: int|
                0 <= i < keyboard::key::SCANCODE_COUNT ==> state@.keyboard.held_keys[i]
                    == None::<keyboard::Key>,
            state@.touch.slot == 0,
            state@.touch.states.len() == touch::SLOT_COUNT,
            forall|i: int|
                0 <= i < touch::SLOT_COUNT ==> state@.touch.states[i] == None::<TouchState>,
            state@.stylus.is_none(),
    {
        InputState {
            out_queue: VecDeque::new(),
            keyboard: keyboard::State::new(keyboard_layout),
            touch: touch::State::default(),
            stylus: None,
        }
    }

    /// Appends an event to the queue.
    pub fn enqueue(&mut self, event: Event)
        ensures
            final(self).layout() == old(self).layout(),
            final(self)@ == (InputView { queue: old(self)@.queue.push(event@), ..old(self)@ }),
    {
        let ghost q0 = queue_view(self.out_queue@);
        self.out_queue.push_back(event);
        proof {
            assert(queue_view(self.out_queue@) =~= q0.push(event@));
        }
    }

    /// Takes the oldest event off the queue, if there is one.
    pub fn next_event(&mut self) -> (event: Option<Event>)
        ensures
            final(self).layout() == old(self).layout(),
            match event {
                Some(event) => old(self)@.queue.len() > 0 && event@ == old(self)@.queue[0]
                    && final(self)@ == (InputView {
                    queue: old(self)@.queue.skip(1),
                    ..old(self)@
                }),
                None => old(self)@.queue.len() == 0 && final(self)@ == old(self)@,
            },
    {
        let ghost q0 = queue_view(self.out_queue@);
        let event = self.out_queue.pop_front();
        proof {
            if event.is_some() {
                assert(queue_view(self.out_queue@) =~= q0.skip(1));
            }
        }
        event
    }

    /// Feeds the raw events of one frame of a device of class `device` to the
    /// state machine of that class, which appends its events to the queue.
    /// Keyboard and buttons share the keyboard state machine.
    pub fn handle_events(&mut self, device: SupportedDeviceType, events: &[RawEvent])
        requires
            spec_frame_well_formed(device, events@),
        ensures
            final(self).layout() == old(self).layout(),
            final(self)@ == (match device {
                SupportedDeviceType::Keyboard | SupportedDeviceType::Buttons => InputView {
                    keyboard: keyboard::spec_handle_events(
                        old(self).layout(),
                        old(self)@.keyboard,
                        events@,
                    ).0,
                    queue: old(self)@.queue + keyboard::spec_handle_events(
                        old(self).layout(),
                        old(self)@.keyboard,
                        events@,
                    ).1,
                    ..old(self)@
                },
                SupportedDeviceType::Touchscreen => InputView {
                    touch: touch::TouchView {
                        slot: touch::spec_frame(old(self)@.touch, events@).slot,
                        states: touch::spec_frame(old(self)@.touch, events@).states,
                    },
                    queue: old(self)@.queue + touch::spec_emit(
                        touch::spec_frame(old(self)@.touch, events@).changes,
                        touch::SLOT_COUNT as int,
                    ),
                    ..old(self)@
                },
                SupportedDeviceType::Stylus => InputView {
                    stylus: stylus::spec_frame(old(self)@.stylus, events@),
                    queue: old(self)@.queue + stylus::spec_emit(
                        old(self)@.stylus,
                        stylus::spec_frame(old(self)@.stylus, events@),
                    ),
                    ..old(self)@
                },
            }),
    {
        match device {
            SupportedDeviceType::Keyboard | SupportedDeviceType::Buttons => {
                self.keyboard.handle_events(events, &mut self.out_queue);
            },
            SupportedDeviceType::Touchscreen => {
                self.touch.handle_events(events, &mut self.out_queue);
            },
            SupportedDeviceType::Stylus => {
                stylus::handle_events(&mut self.stylus, events, &mut self.out_queue);
            },
        }
    }

    /// Takes note of what polling the device of `device` gave; a device that
    /// is gone leaves its slot, and the queue gets the event that says so.
    pub fn poll_outcome(
        &mut self,
        devices: &mut devices::Devices,
        device: SupportedDeviceType,
        outcome: devices::PollOutcome,
    ) -> (decision: devices::PollDecision)
        requires
            old(devices).wf(),
        ensures
            final(devices).wf(),
            final(self).layout() == old(self).layout(),
            final(devices)@.next == old(devices)@.next,
            match outcome {
                devices::PollOutcome::Frame => decision == devices::PollDecision::Done && final(devices)@ == old(devices)@ && final(self)@ == old(self)@,
                devices::PollOutcome::Pending => decision == devices::PollDecision::Next && final(devices)@ == old(devices)@ && final(self)@ == old(self)@,
                devices::PollOutcome::Failed(os_error) => if devices::spec_is_disconnect(os_error) {
                    &&& decision == devices::PollDecision::Next
                    &&& final(devices)@.present == old(devices)@.present.update(
                        device.spec_index(),
                        false,
                    )
                    &&& final(self)@ == (InputView {
                        queue: old(self)@.queue.push(EventView::DevicePresence(device)),
                        ..old(self)@
                    })
                } else {
                    decision == devices::PollDecision::Fatal && final(devices)@ == old(devices)@
                        && final(self)@ == old(self)@
                },
            },
    {
        devices.poll_outcome(device, outcome, &mut self.out_queue)
    }

    /// The persistent modifier set.
    #[inline]
    #[must_use]
    pub fn modifiers(&self) -> (m: Modifiers)
        ensures
            m == self@.keyboard.modifiers,
    {
        self.keyboard.modifiers()
    }

    /// The keys that are held, in scancode order.
    #[inline]
    #[must_use]
    pub fn pressed_keys(&self) -> (keys: PressedKeys)
        ensures
            keys.held_keys() == self@.keyboard.held_keys,
            keys.position() == 0,
    {
        self.keyboard.pressed_keys()
    }

    /// The state of the contact with the given id, if there is one.
    #[inline]
    #[must_use]
    pub fn touch_state(&self, id: touch::Id) -> (state: Option<TouchState>)
        ensures
            state == (if id.0 < touch::SLOT_COUNT {
                self@.touch.states[id.0 as int]
            } else {
                None
            }),
    {
        self.touch.get(id.0)
    }

    /// The touch state machine.
    #[inline]
    #[must_use]
    pub fn touch(&self) -> (state: &touch::State)
        ensures
            state@ == self@.touch,
    {
        &self.touch
    }

    /// The state of the tool in range, if there is one.
    #[inline]
    #[must_use]
    pub fn stylus_state(&self) -> (state: Option<StylusState>)
        ensures
            state == self@.stylus,
    {
        self.stylus
    }
}

} // verus!
