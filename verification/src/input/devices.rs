//! Device categories: which category a device belongs to, one slot per
//! category, and the rotation that decides which slot is polled next.

use std::collections::VecDeque;
use vstd::prelude::*;

use crate::input::{queue_view, Event, EventView, SupportedDeviceType};

verus! {

/// Number of device categories.
pub const DEVICE_TYPE_COUNT: usize = 4;

/// The error number with which a read fails once the device is gone.
pub const ENODEV: i32 = 19;

impl SupportedDeviceType {
    /// Position of the category in the order in which the slots are polled.
    pub open spec fn spec_index(self) -> int {
        match self {
            SupportedDeviceType::Stylus => 0,
            SupportedDeviceType::Buttons => 1,
            SupportedDeviceType::Touchscreen => 2,
            SupportedDeviceType::Keyboard => 3,
        }
    }

    /// The category at position `i` (modulo the number of categories).
    pub open spec fn spec_at(i: int) -> SupportedDeviceType {
        let k = i % 4;
        if k == 0 {
            SupportedDeviceType::Stylus
        } else if k == 1 {
            SupportedDeviceType::Buttons
        } else if k == 2 {
            SupportedDeviceType::Touchscreen
        } else {
            SupportedDeviceType::Keyboard
        }
    }

    /// Position of the category in the order in which the slots are polled.
    #[inline]
    #[must_use]
    pub fn index(self) -> (i: usize)
        ensures
            i == self.spec_index(),
            i < DEVICE_TYPE_COUNT,
            SupportedDeviceType::spec_at(i as int) == self,
    {
        match self {
            SupportedDeviceType::Stylus => 0,
            SupportedDeviceType::Buttons => 1,
            SupportedDeviceType::Touchscreen => 2,
            SupportedDeviceType::Keyboard => 3,
        }
    }

    /// The category at position `i`.
    #[inline]
    #[must_use]
    pub fn at(i: usize) -> (device: SupportedDeviceType)
        requires
            i < DEVICE_TYPE_COUNT,
        ensures
            device == SupportedDeviceType::spec_at(i as int),
            device.spec_index() == i,
    {
        if i == 0 {
            SupportedDeviceType::Stylus
        } else if i == 1 {
            SupportedDeviceType::Buttons
        } else if i == 2 {
            SupportedDeviceType::Touchscreen
        } else {
            SupportedDeviceType::Keyboard
        }
    }
}

/// The keys of a device that decide its category.
#[derive(Debug, Clone, Copy, PartialEq, Eq, Structural)]
pub struct KeyCapabilities {
    /// The device has the barrel button of a stylus.
    pub stylus_button: bool,
    /// The device has a power key.
    pub power_key: bool,
}

/// What a device says of itself, as far as its category depends on it.
#[derive(Debug, Clone, Copy, PartialEq, Eq, Structural)]
pub struct DeviceCapabilities {
    /// The device has absolute axes and the multi-touch slot axis is among
    /// them.
    pub slot_axis: bool,
    /// The keys of the device, if it has any.
    pub keys: Option<KeyCapabilities>,
    /// The device reports absolute axis events.
    pub absolute_events: bool,
}

/// The category of a device: a touchscreen if it has the slot axis;
/// otherwise, if it has keys, a stylus if it has the stylus button and
/// reports absolute axes, else the buttons if it has a power key, else a
/// keyboard. A device with neither is of no category.
pub open spec fn spec_detect_device_type(device: DeviceCapabilities) -> Option<SupportedDeviceType> {
    if device.slot_axis {
        Some(SupportedDeviceType::Touchscreen)
    } else {
        match device.keys {
            Some(keys) => if keys.stylus_button && device.absolute_events {
                Some(SupportedDeviceType::Stylus)
            } else if keys.power_key {
                Some(SupportedDeviceType::Buttons)
            } else {
                Some(SupportedDeviceType::Keyboard)
            },
            None => None,
        }
    }
}

/// Decides the category of a device from what it says of itself.
pub fn detect_device_type(device: &DeviceCapabilities) -> (detected: Option<SupportedDeviceType>)
    ensures
        detected == spec_detect_device_type(*device),
{
    if device.slot_axis {
        return Some(SupportedDeviceType::Touchscreen);
    }
    if let Some(keys) = device.keys {
        let ty = if keys.stylus_button && device.absolute_events {
            SupportedDeviceType::Stylus
        } else if keys.power_key {
            SupportedDeviceType::Buttons
        } else {
            SupportedDeviceType::Keyboard
        };
        return Some(ty);
    }
    None
}

/// Whether a read error means that the device was disconnected.
pub open spec fn spec_is_disconnect(os_error: Option<i32>) -> bool {
    os_error == Some(ENODEV)
}

/// What the engine does after a device was polled.
#[derive(Debug, Clone, Copy, PartialEq, Eq, Structural)]
pub enum PollDecision {
    /// The device delivered a frame: stop polling for this round.
    Done,
    /// Nothing to report from this device: go on to the next.
    Next,
    /// The read failed for a reason other than a disconnect: report the
    /// error to the caller.
    Fatal,
}

/// What polling a device gave.
#[derive(Debug, Clone, Copy, PartialEq, Eq, Structural)]
pub enum PollOutcome {
    /// A frame was read and handled.
    Frame,
    /// The device has nothing to report yet.
    Pending,
    /// The read failed, with this error number if the system gave one.
    Failed(Option<i32>),
}

/// One slot per device category, and the position of the rotation.
#[derive(Debug, Clone, Copy)]
pub struct Devices {
    present: [bool; 4],
    last_polled_device: u8,
}

/// What `Devices` holds.
pub struct DevicesView {
    /// Whether the slot of each category is occupied, by the category's
    /// index.
    pub present: Seq<bool>,
    /// The index of the category that is polled next.
    pub next: int,
}

impl View for Devices {
    type V = DevicesView;

    closed spec fn view(&self) -> DevicesView {
        DevicesView { present: self.present@, next: self.last_polled_device as int }
    }
}

impl Devices {
    /// The rotation points at one of the categories.
    pub closed spec fn wf(&self) -> bool {
        self.last_polled_device < DEVICE_TYPE_COUNT
    }

    /// What well-formedness means for the view.
    pub proof fn lemma_wf(&self)
        requires
            self.wf(),
        ensures
            self@.present.len() == DEVICE_TYPE_COUNT,
            0 <= self@.next < DEVICE_TYPE_COUNT,
    {
    }

    /// No device connected; the rotation starts with the first category.
    pub fn new() -> (devices: Devices)
        ensures
            devices.wf(),
            devices@.next == 0,
            devices@.present.len() == DEVICE_TYPE_COUNT,
            forall|i: int| 0 <= i < DEVICE_TYPE_COUNT ==> !devices@.present[i],
    {
        Devices { present: [false;4], last_polled_device: 0 }
    }

    /// Whether a device of the category is connected.
    #[inline]
    #[must_use]
    pub fn device_present(&self, device: SupportedDeviceType) -> (b: bool)
        ensures
            b == self@.present[device.spec_index()],
    {
        self.present[device.index()]
    }

    /// Takes a newly found device into the slot of its category. A device of
    /// no category, and one whose category already has a device, is ignored:
    /// the result is the category if the device was taken.
    pub fn autodetect_device(&mut self, detected: Option<SupportedDeviceType>) -> (connected: Option<
        SupportedDeviceType,
    >)
        requires
            old(self).wf(),
        ensures
            final(self).wf(),
            final(self)@.next == old(self)@.next,
            match detected {
                Some(device) if !old(self)@.present[device.spec_index()] => connected == detected
                    && final(self)@.present == old(self)@.present.update(
                    device.spec_index(),
                    true,
                ),
                _ => connected.is_none() && final(self)@ == old(self)@,
            },
    {
        let Some(device) = detected else {
            return None;
        };
        let index = device.index();
        if self.present[index] {
            // A duplicate device for the category: the new one is ignored.
            return None;
        }
        self.present[index] = true;
        Some(device)
    }

    /// The category whose turn it is, and whether its slot is occupied; the
    /// rotation moves on by one, so that no device can starve the others.
    pub fn advance(&mut self) -> (turn: (SupportedDeviceType, bool))
        requires
            old(self).wf(),
        ensures
            final(self).wf(),
            final(self)@.present == old(self)@.present,
            turn.0 == SupportedDeviceType::spec_at(old(self)@.next),
            turn.1 == old(self)@.present[old(self)@.next],
            final(self)@.next == (old(self)@.next + 1) % 4,
    {
        let i = self.last_polled_device as usize;
        self.last_polled_device = (self.last_polled_device + 1) % 4;
        (SupportedDeviceType::at(i), self.present[i])
    }

    /// Takes note of what polling the device of `device` gave, and decides
    /// how to go on. A device that is gone leaves its slot, and the queue
    /// gets an event that says so.
    pub fn poll_outcome(
        &mut self,
        device: SupportedDeviceType,
        outcome: PollOutcome,
        queue: &mut VecDeque<Event>,
    ) -> (decision: PollDecision)
        requires
            old(self).wf(),
        ensures
            final(self).wf(),
            final(self)@.next == old(self)@.next,
            match outcome {
                PollOutcome::Frame => decision == PollDecision::Done && final(self)@ == old(self)@
                    && final(queue)@ == old(queue)@,
                PollOutcome::Pending => decision == PollDecision::Next && final(self)@ == old(self)@ && final(queue)@ == old(queue)@,
                PollOutcome::Failed(os_error) => if spec_is_disconnect(os_error) {
                    &&& decision == PollDecision::Next
                    &&& final(self)@.present == old(self)@.present.update(
                        device.spec_index(),
                        false,
                    )
                    &&& queue_view(final(queue)@) == queue_view(old(queue)@).push(
                        EventView::DevicePresence(device),
                    )
                } else {
                    decision == PollDecision::Fatal && final(self)@ == old(self)@ && final(queue)@
                        == old(queue)@
                },
            },
    {
        match outcome {
            PollOutcome::Frame => PollDecision::Done,
            PollOutcome::Pending => PollDecision::Next,
            PollOutcome::Failed(os_error) => match os_error {
                // "No such device": the device was disconnected.
                Some(19) => {
                    self.present[device.index()] = false;
                    let ghost q0 = queue_view(queue@);
                    queue.push_back(Event::DevicePresence(device));
                    proof {
                        assert(queue_view(queue@) =~= q0.push(EventView::DevicePresence(device)));
                    }
                    PollDecision::Next
                },
                _ => PollDecision::Fatal,
            },
        }
    }
}

/// In any four consecutive turns of the rotation every category has its turn
/// exactly once: the four turns go to four different categories, and every
/// category is among them.
pub proof fn lemma_rotation_is_fair(next: int, device: SupportedDeviceType)
    requires
        0 <= next < DEVICE_TYPE_COUNT,
    ensures
        ({
            let a = SupportedDeviceType::spec_at(next);
            let b = SupportedDeviceType::spec_at(next + 1);
            let c = SupportedDeviceType::spec_at(next + 2);
            let d = SupportedDeviceType::spec_at(next + 3);
            &&& a != b && a != c && a != d && b != c && b != d && c != d
            &&& device == a || device == b || device == c || device == d
        }),
{
}

} // verus!
