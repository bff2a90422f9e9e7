//! Keyboard input: keys, modifiers, layouts and the state that ties key
//! releases to the presses they end.

use std::collections::VecDeque;
use vstd::prelude::*;

pub mod key;
pub mod layout;
pub mod modifiers;

pub use self::key::{Key, Scancode};
use self::key::SCANCODE_COUNT;
pub use self::layout::{DefaultLayout, KeyboardLayout, Resolved, ResolvedView};
pub use self::modifiers::{Modifier, Modifiers};
use crate::input::{queue_view, Event, EventView, RawEvent, EV_KEY};

verus! {

/// A key went down, came up or repeated.
#[derive(Debug, Clone, Copy, PartialEq, Eq, Structural)]
pub struct KeyEvent {
    pub scancode: Scancode,
    /// The virtual key. For a release it is the key that the press resolved
    /// to; `None` if the press was never seen.
    pub key: Option<Key>,
    pub event: KeyEventKind,
    /// The modifiers in effect for this keystroke, without those that the
    /// layout consumed to select the key.
    pub modifiers: Modifiers,
}

/// A hardware button went down or came up.
#[derive(Debug, Clone, Copy, PartialEq, Eq, Structural)]
pub struct ButtonEvent {
    pub button: Button,
    pub pressed: bool,
}

#[derive(Debug, Clone, Copy, PartialEq, Eq, Structural, Hash)]
pub enum KeyEventKind {
    Release,
    Press,
    Repeat,
}

impl KeyEventKind {
    /// A press or a repeat.
    pub open spec fn spec_press(self) -> bool {
        self != KeyEventKind::Release
    }

    /// Does this event represent a logical activation of a key?
    #[inline]
    #[must_use]
    #[verifier::when_used_as_spec(spec_press)]
    pub fn press(self) -> (b: bool)
        ensures
            b == self.spec_press(),
    {
        match self {
            KeyEventKind::Release => false,
            KeyEventKind::Press | KeyEventKind::Repeat => true,
        }
    }

    pub open spec fn spec_release(self) -> bool {
        self == KeyEventKind::Release
    }

    /// Does this event represent a logical deactivation of a key?
    #[inline]
    #[must_use]
    #[verifier::when_used_as_spec(spec_release)]
    pub fn release(self) -> (b: bool)
        ensures
            b == self.spec_release(),
    {
        !self.press()
    }

    pub open spec fn spec_repeat(self) -> bool {
        self == KeyEventKind::Repeat
    }

    /// Does this event represent a repetition in software rather than a
    /// physical user input?
    #[inline]
    #[must_use]
    #[verifier::when_used_as_spec(spec_repeat)]
    pub fn repeat(self) -> (b: bool)
        ensures
            b == self.spec_repeat(),
    {
        match self {
            KeyEventKind::Repeat => true,
            KeyEventKind::Release | KeyEventKind::Press => false,
        }
    }

    /// The kind that the value of a raw key event denotes: 0 release, 1
    /// press, 2 repeat.
    pub open spec fn spec_from_value(value: i32) -> Option<KeyEventKind> {
        if value == 0 {
            Some(KeyEventKind::Release)
        } else if value == 1 {
            Some(KeyEventKind::Press)
        } else if value == 2 {
            Some(KeyEventKind::Repeat)
        } else {
            None
        }
    }
}

#[derive(Debug, Clone, Copy, PartialEq, Eq, Structural)]
pub enum Button {
    Power,
}

/// The keystroke that a raw event denotes, if it is a key event for a key of
/// this keyboard with a known value.
pub open spec fn spec_decode_key(raw: RawEvent) -> Option<(Scancode, KeyEventKind)> {
    if raw.kind == EV_KEY && Scancode::spec_from_code(raw.code).is_some()
        && KeyEventKind::spec_from_value(raw.value).is_some() {
        Some(
            (
                Scancode::spec_from_code(raw.code).unwrap(),
                KeyEventKind::spec_from_value(raw.value).unwrap(),
            ),
        )
    } else {
        None
    }
}

/// Decodes a raw event into a keystroke. Events of other classes, unknown
/// key codes and unknown values give `None`.
pub fn decode_key(raw: RawEvent) -> (r: Option<(Scancode, KeyEventKind)>)
    ensures
        r == spec_decode_key(raw),
{
    if raw.kind != EV_KEY {
        return None;
    }
    let Some(key) = Scancode::from_evdev(raw.code) else {
        return None;
    };
    let kind = match raw.value {
        0 => KeyEventKind::Release,
        1 => KeyEventKind::Press,
        2 => KeyEventKind::Repeat,
        _ => {
            return None;
        },
    };
    Some((key, kind))
}

/// The persistent modifier set after `modifier`'s key had the event `event`:
/// a toggle flips on press; a momentary modifier is set on press and cleared
/// on release; a repeat changes nothing.
pub open spec fn spec_update_modifier(
    modifiers: Modifiers,
    modifier: Modifier,
    event: KeyEventKind,
) -> Modifiers {
    if modifier.spec_is_toggle() {
        if event == KeyEventKind::Press {
            modifiers.spec_symmetric_difference(Modifiers::spec_just(modifier))
        } else {
            modifiers
        }
    } else {
        match event {
            KeyEventKind::Release => modifiers.spec_difference(Modifiers::spec_just(modifier)),
            KeyEventKind::Press => modifiers.spec_union(Modifiers::spec_just(modifier)),
            KeyEventKind::Repeat => modifiers,
        }
    }
}

/// Pressing and then releasing a momentary modifier that was not active
/// leaves the modifier set as it was.
pub proof fn lemma_momentary_press_release(modifiers: Modifiers, modifier: Modifier)
    requires
        !modifier.spec_is_toggle(),
        !modifiers.has(modifier),
    ensures
        spec_update_modifier(
            spec_update_modifier(modifiers, modifier, KeyEventKind::Press),
            modifier,
            KeyEventKind::Release,
        ) == modifiers,
{
    let pressed = spec_update_modifier(modifiers, modifier, KeyEventKind::Press);
    let after = spec_update_modifier(
        spec_update_modifier(modifiers, modifier, KeyEventKind::Press),
        modifier,
        KeyEventKind::Release,
    );
    assert forall|m: Modifier| after.has(m) == modifiers.has(m) by {
        Modifiers::lemma_basic_members(modifier, m);
        Modifiers::lemma_members(modifiers, Modifiers::spec_just(modifier), m);
        Modifiers::lemma_members(pressed, Modifiers::spec_just(modifier), m);
    }
    Modifiers::lemma_extensional(after, modifiers);
}

/// Pressing a toggle modifier twice leaves the modifier set as it was,
/// whatever happens to the key in between short of another press.
pub proof fn lemma_toggle_twice(modifiers: Modifiers, modifier: Modifier)
    requires
        modifier.spec_is_toggle(),
    ensures
        spec_update_modifier(
            spec_update_modifier(
                spec_update_modifier(modifiers, modifier, KeyEventKind::Press),
                modifier,
                KeyEventKind::Release,
            ),
            modifier,
            KeyEventKind::Press,
        ) == modifiers,
        spec_update_modifier(
            spec_update_modifier(modifiers, modifier, KeyEventKind::Press),
            modifier,
            KeyEventKind::Press,
        ) == modifiers,
{
    let once = spec_update_modifier(modifiers, modifier, KeyEventKind::Press);
    let twice = spec_update_modifier(once, modifier, KeyEventKind::Press);
    assert forall|m: Modifier| twice.has(m) == modifiers.has(m) by {
        Modifiers::lemma_basic_members(modifier, m);
        Modifiers::lemma_members(modifiers, Modifiers::spec_just(modifier), m);
        Modifiers::lemma_members(once, Modifiers::spec_just(modifier), m);
    }
    Modifiers::lemma_extensional(twice, modifiers);
}

/// What the keyboard state machine remembers between events.
pub struct KeyboardView {
    /// The persistent modifier set.
    pub modifiers: Modifiers,
    /// For each scancode, by its index: the key that its press resolved to,
    /// while it is held.
    pub held_keys: Seq<Option<Key>>,
}

/// The state after one keystroke, and the events it produces.
///
/// A release reports the key stored at the press and clears it. A press or
/// repeat asks the layout, which may consume modifiers from the snapshot of
/// this keystroke, and stores the key. The key event comes first. The key is
/// then resolved: a modifier updates the persistent set, text is reported for
/// presses and repeats only.
pub open spec fn spec_process_key<L: KeyboardLayout>(
    layout: &L,
    state: KeyboardView,
    scancode: Scancode,
    kind: KeyEventKind,
) -> (KeyboardView, Seq<EventView>) {
    let (key, these_modifiers) = if kind.spec_release() {
        (state.held_keys[scancode.spec_index()], state.modifiers)
    } else {
        layout.spec_scancode_to_key(scancode, state.modifiers)
    };
    let held_keys = state.held_keys.update(
        scancode.spec_index(),
        if kind.spec_release() {
            None
        } else {
            key
        },
    );
    let key_event = EventView::Key(
        KeyEvent { scancode, key, event: kind, modifiers: these_modifiers },
    );
    match key {
        None => (KeyboardView { modifiers: state.modifiers, held_keys }, seq![key_event]),
        Some(k) => match layout.spec_resolve(k, these_modifiers) {
            ResolvedView::Modifier(modifier) => (
                KeyboardView {
                    modifiers: spec_update_modifier(state.modifiers, modifier, kind),
                    held_keys,
                },
                seq![key_event],
            ),
            ResolvedView::Text(text) => (
                KeyboardView { modifiers: state.modifiers, held_keys },
                if kind.spec_press() {
                    seq![key_event, EventView::Text(text)]
                } else {
                    seq![key_event]
                },
            ),
            ResolvedView::NoneOfThese => (
                KeyboardView { modifiers: state.modifiers, held_keys },
                seq![key_event],
            ),
        },
    }
}

/// The state after the raw events of `events` in order, and all the events
/// they produce. Raw events that do not decode to a keystroke change nothing.
pub open spec fn spec_handle_events<L: KeyboardLayout>(
    layout: &L,
    state: KeyboardView,
    events: Seq<RawEvent>,
) -> (KeyboardView, Seq<EventView>)
    decreases events.len(),
{
    if events.len() == 0 {
        (state, Seq::empty())
    } else {
        let (before, emitted) = spec_handle_events(layout, state, events.drop_last());
        match spec_decode_key(events.last()) {
            None => (before, emitted),
            Some((scancode, kind)) => {
                let (after, more) = spec_process_key(layout, before, scancode, kind);
                (after, emitted + more)
            },
        }
    }
}

/// A raw event that is no keystroke of this keyboard is ignored: the state
/// and the events produced are those of the events before it.
pub proof fn lemma_unknown_event_ignored<L: KeyboardLayout>(
    layout: &L,
    state: KeyboardView,
    events: Seq<RawEvent>,
    unknown: RawEvent,
)
    requires
        spec_decode_key(unknown).is_none(),
    ensures
        spec_handle_events(layout, state, events.push(unknown)) == spec_handle_events(
            layout,
            state,
            events,
        ),
{
    assert(events.push(unknown).drop_last() =~= events);
}

/// Whether `raw` is a press or a repeat of `scancode`.
pub open spec fn spec_is_press_of(raw: RawEvent, scancode: Scancode) -> bool {
    spec_decode_key(raw) == Some((scancode, KeyEventKind::Press)) || spec_decode_key(raw) == Some(
        (scancode, KeyEventKind::Repeat),
    )
}

/// Whether `raw` is a release of `scancode`.
pub open spec fn spec_is_release_of(raw: RawEvent, scancode: Scancode) -> bool {
    spec_decode_key(raw) == Some((scancode, KeyEventKind::Release))
}

/// Whether the raw events hold a press (or repeat) of `scancode` that no
/// release of the same key follows.
pub open spec fn spec_pressed_and_not_released(events: Seq<RawEvent>, scancode: Scancode) -> bool {
    exists|i: int|
        0 <= i < events.len() && #[trigger] spec_is_press_of(events[i], scancode) && forall|j: int|
            i < j < events.len() ==> !#[trigger] spec_is_release_of(events[j], scancode)
}

/// Distinct scancodes have distinct indices.
pub proof fn lemma_index_injective(a: Scancode, b: Scancode)
    requires
        a.spec_index() == b.spec_index(),
    ensures
        a == b,
{
}

/// What one keystroke does to the table of held keys under the default
/// layout: the entry of the key struck is set by a press or repeat and
/// cleared by a release; every other entry stays.
pub proof fn lemma_keystroke_held(
    state: KeyboardView,
    struck: Scancode,
    kind: KeyEventKind,
    scancode: Scancode,
)
    requires
        state.held_keys.len() == SCANCODE_COUNT,
    ensures
        spec_process_key(&DefaultLayout, state, struck, kind).0.held_keys.len() == SCANCODE_COUNT,
        spec_process_key(&DefaultLayout, state, struck, kind).0.held_keys[scancode.spec_index()]
            == (if struck == scancode {
            if kind.spec_release() {
                None
            } else {
                DefaultLayout.spec_scancode_to_key(struck, state.modifiers).0
            }
        } else {
            state.held_keys[scancode.spec_index()]
        }),
        DefaultLayout.spec_scancode_to_key(struck, state.modifiers).0.is_some(),
{
    if struck != scancode {
        if struck.spec_index() == scancode.spec_index() {
            lemma_index_injective(struck, scancode);
        }
    }
}

/// With the default layout, starting with no key held: after any raw events,
/// the table of held keys has an entry for a scancode exactly if there was a
/// press of that key with no release of it since.
pub proof fn lemma_held_iff_pressed(state: KeyboardView, events: Seq<RawEvent>, scancode: Scancode)
    requires
        state.held_keys.len() == SCANCODE_COUNT,
        forall|i: int| 0 <= i < SCANCODE_COUNT ==> state.held_keys[i].is_none(),
    ensures
        spec_handle_events(&DefaultLayout, state, events).0.held_keys.len() == SCANCODE_COUNT,
        spec_handle_events(&DefaultLayout, state, events).0.held_keys[scancode.spec_index()].is_some()
            == spec_pressed_and_not_released(events, scancode),
    decreases events.len(),
{
    if events.len() > 0 {
        let front = events.drop_last();
        let last = events.last();
        lemma_held_iff_pressed(state, front, scancode);
        let before = spec_handle_events(&DefaultLayout, state, front).0;
        let held_before = before.held_keys[scancode.spec_index()].is_some();
        let held_after = spec_handle_events(&DefaultLayout, state, events).0.held_keys[scancode.spec_index()].is_some();
        let pressed = spec_is_press_of(last, scancode);
        let released = spec_is_release_of(last, scancode);
        lemma_pressed_step(events, scancode);
    }
}

/// How a further raw event changes whether a key counts as pressed and not
/// released.
pub proof fn lemma_pressed_step(events: Seq<RawEvent>, scancode: Scancode)
    requires
        events.len() > 0,
    ensures
        spec_pressed_and_not_released(events, scancode) == (spec_is_press_of(
            events.last(),
            scancode,
        ) || (spec_pressed_and_not_released(events.drop_last(), scancode) && !spec_is_release_of(
            events.last(),
            scancode,
        ))),
{
    let front = events.drop_last();
    let last = events.last();
    assert forall|i: int| 0 <= i < front.len() implies front[i] == events[i] by {}
    if spec_pressed_and_not_released(front, scancode) && !spec_is_release_of(last, scancode) {
        let i = choose|i: int|
            0 <= i < front.len() && #[trigger] spec_is_press_of(front[i], scancode) && forall|
                j: int,
            |
                i < j < front.len() ==> !#[trigger] spec_is_release_of(front[j], scancode);
    }
    if spec_pressed_and_not_released(events, scancode) {
        let i = choose|i: int|
            0 <= i < events.len() && #[trigger] spec_is_press_of(events[i], scancode) && forall|
                j: int,
            |
                i < j < events.len() ==> !#[trigger] spec_is_release_of(events[j], scancode);
    }
}

/// The keyboard state machine.
#[derive(Debug)]
pub struct State<L: KeyboardLayout> {
    keyboard_layout: L,
    modifiers: Modifiers,
    /// This is a map from `Scancode` to `Option<Key>`.
    /// Each entry is `Some` iff the key with the given `Scancode` is
    /// currently pressed. The value is the `Key` that the layout gave for
    /// that `Scancode` when it was pressed (which could depend on modifiers
    /// at that time). It is reported as `key` for the release event, so that
    /// applications see the same `Key` for the press and the release
    /// regardless of the modifiers at the time of the release.
    held_keys: [Option<Key>; 60],
}

impl<L: KeyboardLayout> View for State<L> {
    type V = KeyboardView;

    closed spec fn view(&self) -> KeyboardView {
        KeyboardView { modifiers: self.modifiers, held_keys: self.held_keys@ }
    }
}

impl<L: KeyboardLayout> State<L> {
    /// The layout in use.
    pub closed spec fn layout(&self) -> &L {
        &self.keyboard_layout
    }

    /// A state with no modifier active and no key held.
    pub fn new(keyboard_layout: L) -> (state: State<L>)
        ensures
            state.layout() == &keyboard_layout,
            state@.modifiers == Modifiers::spec_none(),
            state@.held_keys.len() == SCANCODE_COUNT,
            forall|i: int| 0 <= i < SCANCODE_COUNT ==> state@.held_keys[i] == None::<Key>,
    {
        State { keyboard_layout, modifiers: Modifiers::none(), held_keys: [None;60] }
    }

    /// The persistent modifier set.
    #[inline]
    #[must_use]
    pub fn modifiers(&self) -> (m: Modifiers)
        ensures
            m == self@.modifiers,
    {
        self.modifiers
    }

    /// The key that the press of `scancode` resolved to, while it is held.
    #[inline]
    #[must_use]
    pub fn held_key(&self, scancode: Scancode) -> (k: Option<Key>)
        ensures
            k == self@.held_keys[scancode.spec_index()],
    {
        self.held_keys[scancode.index()]
    }

    fn update_modifier(&mut self, modifier: Modifier, event: KeyEventKind)
        ensures
            final(self)@.modifiers == spec_update_modifier(old(self)@.modifiers, modifier, event),
            final(self)@.held_keys == old(self)@.held_keys,
            final(self).layout() == old(self).layout(),
    {
        if modifier.is_toggle() {
            if event.press() && !event.repeat() {
                self.modifiers = self.modifiers ^ modifier;
            }
        } else {
            match event {
                KeyEventKind::Release => {
                    self.modifiers = self.modifiers - modifier;
                },
                KeyEventKind::Press => {
                    self.modifiers = self.modifiers + modifier;
                },
                KeyEventKind::Repeat => {},
            }
        }
    }

    /// Feeds one keystroke to the state machine and appends the events it
    /// produces to `queue`.
    pub fn process_key(&mut self, scancode: Scancode, kind: KeyEventKind, queue: &mut VecDeque<Event>)
        ensures
            final(self).layout() == old(self).layout(),
            final(self)@ == spec_process_key(old(self).layout(), old(self)@, scancode, kind).0,
            queue_view(final(queue)@) == queue_view(old(queue)@) + spec_process_key(
                old(self).layout(),
                old(self)@,
                scancode,
                kind,
            ).1,
    {
        let mut these_modifiers = self.modifiers;
        let index = scancode.index();
        // The layout may consume some of `these_modifiers` if they are
        // interpreted as part of a compound keystroke that selects an
        // alternative `Key` for the given `Scancode`.
        let key = if kind.release() {
            // This is `None` if the program was started while the physical
            // key was held: we do not know what modifiers were active when
            // it was pressed.
            let key = self.held_keys[index];
            self.held_keys[index] = None;
            key
        } else {
            let key = self.keyboard_layout.scancode_to_key(scancode, &mut these_modifiers);
            // This overrides an existing entry if modifiers change while the
            // physical key is held and auto-repeating, which is intended.
            self.held_keys[index] = key;
            key
        };
        let key_event = KeyEvent { scancode, key, event: kind, modifiers: these_modifiers };
        let ghost q0 = queue_view(queue@);
        queue.push_back(Event::Key(key_event));
        if let Some(key) = key {
            match self.keyboard_layout.resolve(key, these_modifiers) {
                Resolved::Modifier(modifier) => {
                    self.update_modifier(modifier, kind);
                },
                Resolved::Text(text) => {
                    if kind.press() {
                        let ghost t = text@;
                        queue.push_back(Event::Text(text));
                    }
                },
                Resolved::NoneOfThese => {},
            }
        }
    }

    /// Feeds the raw events of one device frame to the state machine, in
    /// order, and appends the events they produce to `queue`. Raw events that
    /// are not keystrokes of this keyboard are skipped.
    pub fn handle_events(&mut self, events: &[RawEvent], queue: &mut VecDeque<Event>)
        ensures
            final(self).layout() == old(self).layout(),
            final(self)@ == spec_handle_events(old(self).layout(), old(self)@, events@).0,
            queue_view(final(queue)@) == queue_view(old(queue)@) + spec_handle_events(
                old(self).layout(),
                old(self)@,
                events@,
            ).1,
    {
        let ghost start = self@;
        let ghost q0 = queue_view(queue@);
        let ghost layout = self.layout();
        let mut i: usize = 0;
        while i < events.len()
            invariant
                i <= events.len(),
                self.layout() == layout,
                self@ == spec_handle_events(layout, start, events@.take(i as int)).0,
                queue_view(queue@) == q0 + spec_handle_events(
                    layout,
                    start,
                    events@.take(i as int),
                ).1,
            decreases events.len() - i,
        {
            proof {
                assert(events@.take(i + 1).drop_last() =~= events@.take(i as int));
            }
            if let Some((scancode, kind)) = decode_key(events[i]) {
                self.process_key(scancode, kind, queue);
            }
            i = i + 1;
        }
        proof {
            assert(events@.take(i as int) =~= events@);
        }
    }

    /// The keys that are held, in scancode order.
    #[inline]
    #[must_use]
    pub fn pressed_keys(&self) -> (keys: PressedKeys)
        ensures
            keys.held_keys() == self@.held_keys,
            keys.position() == 0,
    {
        PressedKeys { held_keys: self.held_keys, position: 0 }
    }
}

/// A physical key that is held, with the virtual key it was pressed as.
#[derive(Debug, Clone, Copy, PartialEq, Eq, Structural, Hash)]
pub struct PressedKey {
    pub scancode: Scancode,
    pub key: Key,
}

/// A walk over the held keys in scancode order.
#[derive(Debug, Clone, Copy)]
pub struct PressedKeys {
    held_keys: [Option<Key>; 60],
    position: usize,
}

impl PressedKeys {
    /// The table that the walk goes over.
    pub closed spec fn held_keys(&self) -> Seq<Option<Key>> {
        self.held_keys@
    }

    /// The index at which the walk goes on.
    pub closed spec fn position(&self) -> int {
        self.position as int
    }

    /// The next held key at or after the current position; `None` once there
    /// is none left.
    pub fn next(&mut self) -> (r: Option<PressedKey>)
        requires
            old(self).position() <= SCANCODE_COUNT,
        ensures
            final(self).held_keys() == old(self).held_keys(),
            old(self).position() <= final(self).position() <= SCANCODE_COUNT,
            forall|i: int|
                old(self).position() <= i < final(self).position() - (if r.is_some() {
                    1int
                } else {
                    0int
                }) ==> old(self).held_keys()[i].is_none(),
            match r {
                Some(pressed) => pressed.scancode.spec_index() == final(self).position() - 1
                    && old(self).held_keys()[final(self).position() - 1] == Some(pressed.key),
                None => final(self).position() == SCANCODE_COUNT,
            },
    {
        while self.position < SCANCODE_COUNT
            invariant
                self.held_keys == old(self).held_keys,
                old(self).position <= self.position <= SCANCODE_COUNT,
                forall|i: int| old(self).position <= i < self.position ==> old(self).held_keys@[i].is_none(),
            decreases SCANCODE_COUNT - self.position,
        {
            let i = self.position;
            self.position = self.position + 1;
            if let Some(key) = self.held_keys[i] {
                if let Some(scancode) = Scancode::from_index(i) {
                    return Some(PressedKey { scancode, key });
                }
            }
        }
        None
    }
}

} // verus!
