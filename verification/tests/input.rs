use std::collections::VecDeque;

use rmox::input::devices::{detect_device_type, DeviceCapabilities, Devices, KeyCapabilities, PollDecision, PollOutcome};
use rmox::input::keyboard::key::{KEY_LEFTCTRL, KEY_Q, KEY_RIGHTALT, KEY_TAB, KEY_CAPSLOCK};
use rmox::input::keyboard::{
    DefaultLayout, Key, KeyEvent, KeyEventKind, KeyboardLayout, Modifier, Modifiers, PressedKey,
    Resolved, Scancode, State as KeyboardState,
};
use rmox::input::stylus::{self, StylusState, Tool};
use rmox::input::touch::{self, TouchState};
use rmox::input::{Event, InputState, RawEvent, SupportedDeviceType, EV_ABS, EV_KEY};
use rmox::types::pos2;

fn key(code: u16, value: i32) -> RawEvent {
    RawEvent { kind: EV_KEY, code, value }
}

fn abs(code: u16, value: i32) -> RawEvent {
    RawEvent { kind: EV_ABS, code, value }
}

fn touch_events(queue: &VecDeque<Event>) -> Vec<(u8, touch::Phase)> {
    queue
        .iter()
        .map(|event| match event {
            Event::Touch(event) => (event.touch_id.0, event.phase),
            other => panic!("unexpected {other:?}"),
        })
        .collect()
}

#[test]
fn modifier_consumption() {
    let mut state = KeyboardState::new(DefaultLayout);
    let mut queue = VecDeque::new();
    state.handle_events(&[key(KEY_RIGHTALT, 1), key(KEY_TAB, 1)], &mut queue);
    let events: Vec<Event> = queue.into_iter().collect();
    assert_eq!(events.len(), 2);
    assert_eq!(
        events[0],
        Event::Key(KeyEvent {
            scancode: Scancode::AltOpt,
            key: Some(Key::AltOpt),
            event: KeyEventKind::Press,
            modifiers: Modifiers::none(),
        })
    );
    let Event::Key(tab) = &events[1] else { panic!("no key event") };
    assert_eq!(tab.scancode, Scancode::Tab);
    assert_eq!(tab.key, Some(Key::Escape));
    assert!(!tab.modifiers.contains(Modifier::Opt));
    assert!(state.modifiers().contains(Modifier::AltOpt));
    assert_eq!(state.held_key(Scancode::Tab), Some(Key::Escape));
}

#[test]
fn release_reports_the_key_of_the_press() {
    let mut state = KeyboardState::new(DefaultLayout);
    let mut queue = VecDeque::new();
    state.handle_events(
        &[key(KEY_RIGHTALT, 1), key(KEY_TAB, 1), key(KEY_RIGHTALT, 0), key(KEY_TAB, 0)],
        &mut queue,
    );
    let events: Vec<Event> = queue.into_iter().collect();
    let Event::Key(release) = &events[3] else { panic!("no key event") };
    assert_eq!(release.key, Some(Key::Escape));
    assert_eq!(release.event, KeyEventKind::Release);
    assert_eq!(state.held_key(Scancode::Tab), None);
    assert_eq!(state.modifiers(), Modifiers::none());
}

#[test]
fn held_keys_follow_presses_and_releases() {
    let mut state = KeyboardState::new(DefaultLayout);
    let mut queue = VecDeque::new();
    state.handle_events(&[key(KEY_Q, 1), key(KEY_TAB, 1), key(KEY_Q, 2)], &mut queue);
    assert_eq!(state.held_key(Scancode::Q), Some(Key::Q));
    assert_eq!(state.held_key(Scancode::Tab), Some(Key::Tab));
    assert_eq!(state.held_key(Scancode::W), None);
    let mut pressed = state.pressed_keys();
    assert_eq!(pressed.next(), Some(PressedKey { scancode: Scancode::Tab, key: Key::Tab }));
    assert_eq!(pressed.next(), Some(PressedKey { scancode: Scancode::Q, key: Key::Q }));
    assert_eq!(pressed.next(), None);
    state.handle_events(&[key(KEY_Q, 0)], &mut queue);
    assert_eq!(state.held_key(Scancode::Q), None);
    assert_eq!(state.held_key(Scancode::Tab), Some(Key::Tab));
    // A release of a key whose press was never seen reports no key.
    let mut queue = VecDeque::new();
    state.handle_events(&[key(KEY_LEFTCTRL, 0)], &mut queue);
    let Some(Event::Key(event)) = queue.pop_front() else { panic!("no key event") };
    assert_eq!(event.key, None);
}

#[test]
fn momentary_modifier_returns_to_prior_value() {
    let mut state = KeyboardState::new(DefaultLayout);
    let mut queue = VecDeque::new();
    let before = state.modifiers();
    state.handle_events(&[key(KEY_LEFTCTRL, 1)], &mut queue);
    assert_eq!(state.modifiers(), Modifiers::just(Modifier::Ctrl));
    state.handle_events(&[key(KEY_LEFTCTRL, 2)], &mut queue);
    assert_eq!(state.modifiers(), Modifiers::just(Modifier::Ctrl));
    state.handle_events(&[key(KEY_LEFTCTRL, 0)], &mut queue);
    assert_eq!(state.modifiers(), before);
}

#[test]
fn caps_lock_twice_returns_to_prior_value() {
    let mut state = KeyboardState::new(DefaultLayout);
    let mut queue = VecDeque::new();
    state.handle_events(&[key(KEY_CAPSLOCK, 1), key(KEY_CAPSLOCK, 0)], &mut queue);
    assert_eq!(state.modifiers(), Modifiers::just(Modifier::CapsLock));
    state.handle_events(&[key(KEY_CAPSLOCK, 1), key(KEY_CAPSLOCK, 0)], &mut queue);
    assert_eq!(state.modifiers(), Modifiers::none());
}

#[test]
fn text_follows_the_layers() {
    let layout = DefaultLayout;
    let none = Modifiers::none();
    let shift = Modifiers::just(Modifier::LeftShift);
    let caps = Modifiers::just(Modifier::CapsLock);
    let opt = Modifiers::just(Modifier::Opt);
    assert_eq!(layout.resolve(Key::A, none), Resolved::Text("a".to_owned()));
    assert_eq!(layout.resolve(Key::A, shift), Resolved::Text("A".to_owned()));
    assert_eq!(layout.resolve(Key::A, caps), Resolved::Text("A".to_owned()));
    assert_eq!(layout.resolve(Key::A, caps + shift), Resolved::Text("a".to_owned()));
    assert_eq!(layout.resolve(Key::R, none), Resolved::Text("p".to_owned()));
    assert_eq!(layout.resolve(Key::Num1, none), Resolved::Text("1".to_owned()));
    assert_eq!(layout.resolve(Key::Num1, shift), Resolved::Text("!".to_owned()));
    assert_eq!(layout.resolve(Key::Num1, opt), Resolved::Text("`".to_owned()));
    assert_eq!(layout.resolve(Key::Num1, opt + shift), Resolved::Text("~".to_owned()));
    assert_eq!(layout.resolve(Key::Num2, caps), Resolved::Text("2".to_owned()));
    assert_eq!(layout.resolve(Key::Q, shift), Resolved::Text("\"".to_owned()));
    assert_eq!(layout.resolve(Key::Tilde, opt), Resolved::Text("\\".to_owned()));
    assert_eq!(layout.resolve(Key::Enter, none), Resolved::Text("\n".to_owned()));
    assert_eq!(layout.resolve(Key::Tab, shift), Resolved::Text("\t".to_owned()));
    assert_eq!(layout.resolve(Key::Space, none), Resolved::Text(" ".to_owned()));
    assert_eq!(layout.resolve(Key::CapsLock, none), Resolved::Modifier(Modifier::CapsLock));
    assert_eq!(layout.resolve(Key::Escape, none), Resolved::NoneOfThese);
    assert_eq!(layout.resolve(Key::Backspace, none), Resolved::NoneOfThese);
}

#[test]
fn text_is_reported_on_press_only() {
    let mut state = KeyboardState::new(DefaultLayout);
    let mut queue = VecDeque::new();
    state.handle_events(&[key(KEY_Q, 1), key(KEY_Q, 2), key(KEY_Q, 0)], &mut queue);
    let texts: Vec<&Event> = queue.iter().filter(|e| matches!(e, Event::Text(_))).collect();
    assert_eq!(texts, [&Event::Text("'".to_owned()), &Event::Text("'".to_owned())]);
    assert_eq!(queue.len(), 5);
}

#[test]
fn modifier_sets() {
    let mut set = Modifiers::none() + Modifier::Ctrl + Modifier::Opt;
    assert!(set.ctrl() && set.opt() && !set.alt() && !set.alt_opt());
    assert!(set.contains_all(Modifiers::just(Modifier::Opt)));
    assert!(!set.consume(Modifiers::just(Modifier::Alt)));
    assert!(set.consume(Modifiers::just(Modifier::Opt)));
    assert_eq!(set, Modifiers::just(Modifier::Ctrl));
    assert_eq!(set - Modifier::Ctrl, Modifiers::none());
    assert_eq!(set ^ Modifier::Ctrl, Modifiers::none());
    assert_eq!(set ^ Modifier::Alt, Modifiers::just(Modifier::Ctrl) + Modifier::Alt);
    assert!(Modifiers::just(Modifier::RightShift).shift(false));
    assert!(Modifiers::just(Modifier::CapsLock).shift(true));
    assert!(!Modifiers::just(Modifier::CapsLock).shift(false));
    assert!(!(Modifiers::just(Modifier::CapsLock) + Modifier::LeftShift).shift(true));
    assert!(Modifier::CapsLock.is_toggle());
    assert!(!Modifier::Ctrl.is_toggle());
}

#[test]
fn unknown_codes_are_ignored() {
    let mut state = KeyboardState::new(DefaultLayout);
    let mut queue = VecDeque::new();
    state.handle_events(&[key(0x2ff, 1), key(KEY_Q, 7), abs(0, 5), RawEvent { kind: 0, code: 0, value: 0 }], &mut queue);
    assert!(queue.is_empty());
    assert_eq!(state.modifiers(), Modifiers::none());
    let mut touch = touch::State::default();
    touch.handle_events(&[abs(0x3f, 1), key(KEY_Q, 1), abs(touch::ABS_MT_TRACKING_ID, 12)], &mut queue);
    assert!(queue.is_empty());
    assert_eq!(touch.get(0), None);
    let mut pen = None;
    stylus::handle_events(&mut pen, &[abs(0x3f, 1), key(KEY_Q, 1)], &mut queue);
    assert!(queue.is_empty());
    assert_eq!(pen, None);
}

#[test]
fn touch_start_change_end() {
    let mut state = touch::State::default();
    let mut queue = VecDeque::new();
    state.handle_events(
        &[
            abs(touch::ABS_MT_SLOT, 0),
            abs(touch::ABS_MT_POSITION_X, 100),
            abs(touch::ABS_MT_POSITION_Y, 200),
            abs(touch::ABS_MT_TRACKING_ID, -1),
        ],
        &mut queue,
    );
    assert!(queue.is_empty());
    state.handle_events(
        &[abs(touch::ABS_MT_SLOT, 0), abs(touch::ABS_MT_POSITION_X, 100), abs(touch::ABS_MT_POSITION_Y, 200)],
        &mut queue,
    );
    assert_eq!(
        state.get(0),
        Some(TouchState { x: 100, y: 200, pressure: 0, touch_major: 0, touch_minor: 0, orientation: 0 })
    );
    assert_eq!(state.get(0).unwrap().position(), pos2(100, 1872 - 200));
    state.handle_events(&[abs(touch::ABS_MT_POSITION_X, 110)], &mut queue);
    assert_eq!(state.get(0).unwrap().x, 110);
    state.handle_events(&[abs(touch::ABS_MT_TRACKING_ID, -1)], &mut queue);
    assert_eq!(state.get(0), None);
    assert_eq!(
        touch_events(&queue),
        [(0, touch::Phase::Start), (0, touch::Phase::Change), (0, touch::Phase::End)]
    );
}

#[test]
fn touch_end_of_active_slot_emits_one_end() {
    let mut state = touch::State::default();
    let mut queue = VecDeque::new();
    state.handle_events(&[abs(touch::ABS_MT_SLOT, 3), abs(touch::ABS_MT_PRESSURE, 9)], &mut queue);
    queue.clear();
    state.handle_events(&[abs(touch::ABS_MT_SLOT, 3), abs(touch::ABS_MT_TRACKING_ID, -1)], &mut queue);
    assert_eq!(touch_events(&queue), [(3, touch::Phase::End)]);
}

#[test]
fn touch_frames_over_several_slots() {
    let mut state = touch::State::default();
    let mut queue = VecDeque::new();
    state.handle_events(
        &[
            abs(touch::ABS_MT_SLOT, 5),
            abs(touch::ABS_MT_POSITION_X, 1),
            abs(touch::ABS_MT_SLOT, 2),
            abs(touch::ABS_MT_TOUCH_MAJOR, 4),
            abs(touch::ABS_MT_TOUCH_MINOR, 3),
            abs(touch::ABS_MT_ORIENTATION, -2),
        ],
        &mut queue,
    );
    assert_eq!(touch_events(&queue), [(2, touch::Phase::Start), (5, touch::Phase::Start)]);
    let two = state.get(2).unwrap();
    assert_eq!((two.touch_major(), two.touch_minor(), two.orientation(), two.pressure()), (4, 3, -2, 0));
    queue.clear();
    // An end followed by new values within one frame is a change.
    state.handle_events(
        &[abs(touch::ABS_MT_TRACKING_ID, -1), abs(touch::ABS_MT_POSITION_X, 7), abs(touch::ABS_MT_SLOT, 40), abs(touch::ABS_MT_POSITION_X, 9)],
        &mut queue,
    );
    assert_eq!(touch_events(&queue), [(2, touch::Phase::Change)]);
    assert_eq!(state.get(2).unwrap().x, 7);
    assert_eq!(state.get(2).unwrap().touch_major, 0);
    assert_eq!(state.get(40), None);
    queue.clear();
    // The end of a contact that is not there is nothing.
    state.handle_events(&[abs(touch::ABS_MT_SLOT, 9), abs(touch::ABS_MT_TRACKING_ID, -1)], &mut queue);
    assert!(queue.is_empty());
    assert!(touch::all_well_formed(&[abs(touch::ABS_MT_SLOT, 255)]));
    assert!(!touch::all_well_formed(&[abs(touch::ABS_MT_SLOT, 256)]));
    assert!(!touch::is_well_formed(abs(touch::ABS_MT_POSITION_X, -1)));
}

fn stylus_phases(queue: &VecDeque<Event>) -> Vec<stylus::Phase> {
    queue
        .iter()
        .map(|event| match event {
            Event::Stylus(event) => event.phase,
            other => panic!("unexpected {other:?}"),
        })
        .collect()
}

#[test]
fn stylus_tool_none_then_pen() {
    let mut state = None;
    let mut queue = VecDeque::new();
    stylus::handle_events(
        &mut state,
        &[key(stylus::BTN_TOOL_PEN, 0), key(stylus::BTN_TOOL_PEN, 1)],
        &mut queue,
    );
    assert_eq!(stylus_phases(&queue), [stylus::Phase::Hover]);
    assert_eq!(state.map(StylusState::tool), Some(Tool::Pen));
    queue.clear();
    let mut state = None;
    stylus::handle_events(
        &mut state,
        &[key(stylus::BTN_TOOL_PEN, 0), key(stylus::BTN_TOOL_PEN, 1), key(stylus::BTN_TOUCH, 1)],
        &mut queue,
    );
    assert_eq!(stylus_phases(&queue), [stylus::Phase::Touch]);
}

#[test]
fn stylus_phase_table() {
    let mut state = None;
    let mut queue = VecDeque::new();
    stylus::handle_events(&mut state, &[abs(stylus::ABS_X, 5)], &mut queue);
    assert!(queue.is_empty());
    stylus::handle_events(&mut state, &[key(stylus::BTN_TOOL_RUBBER, 1), abs(stylus::ABS_X, 5)], &mut queue);
    stylus::handle_events(&mut state, &[abs(stylus::ABS_Y, 6), abs(stylus::ABS_TILT_X, -3), abs(stylus::ABS_TILT_Y, 4)], &mut queue);
    stylus::handle_events(&mut state, &[key(stylus::BTN_TOUCH, 1), abs(stylus::ABS_PRESSURE, 900)], &mut queue);
    stylus::handle_events(&mut state, &[abs(stylus::ABS_DISTANCE, 2)], &mut queue);
    let now = state.unwrap();
    assert_eq!((now.tool(), now.touching(), now.x, now.y, now.pressure(), now.distance()), (Tool::Rubber, true, 5, 6, 900, 2));
    assert_eq!(now.tilt(), pos2(-3, 4));
    stylus::handle_events(&mut state, &[key(stylus::BTN_TOUCH, 0)], &mut queue);
    stylus::handle_events(&mut state, &[key(stylus::BTN_TOOL_RUBBER, 0)], &mut queue);
    assert_eq!(
        stylus_phases(&queue),
        [
            stylus::Phase::Hover,
            stylus::Phase::Change,
            stylus::Phase::Touch,
            stylus::Phase::Change,
            stylus::Phase::Lift,
            stylus::Phase::Leave,
        ]
    );
    assert_eq!(state, None);
    queue.clear();
    stylus::handle_events(&mut state, &[key(stylus::BTN_TOOL_PEN, 1), key(stylus::BTN_TOUCH, 1)], &mut queue);
    stylus::handle_events(&mut state, &[key(stylus::BTN_TOOL_PEN, 0)], &mut queue);
    assert_eq!(stylus_phases(&queue), [stylus::Phase::Touch, stylus::Phase::Lift]);
    assert!(!stylus::is_well_formed(abs(stylus::ABS_DISTANCE, 256)));
    assert!(stylus::all_well_formed(&[abs(stylus::ABS_TILT_X, -32768)]));
}

#[test]
fn input_state_dispatches_by_device() {
    let mut state = InputState::new(DefaultLayout);
    state.handle_events(SupportedDeviceType::Keyboard, &[key(KEY_LEFTCTRL, 1)]);
    state.handle_events(SupportedDeviceType::Touchscreen, &[abs(touch::ABS_MT_POSITION_X, 4)]);
    state.handle_events(SupportedDeviceType::Stylus, &[key(stylus::BTN_TOOL_PEN, 1)]);
    assert!(state.modifiers().ctrl());
    assert_eq!(state.touch_state(touch::Id(0)).map(|s| s.x), Some(4));
    assert_eq!(state.stylus_state().map(|s| s.tool), Some(Tool::Pen));
    assert!(matches!(state.next_event(), Some(Event::Key(_))));
    assert!(matches!(state.next_event(), Some(Event::Touch(_))));
    assert!(matches!(state.next_event(), Some(Event::Stylus(_))));
    assert_eq!(state.next_event(), None);
    state.enqueue(Event::DevicePresence(SupportedDeviceType::Stylus));
    assert_eq!(state.next_event(), Some(Event::DevicePresence(SupportedDeviceType::Stylus)));
    assert!(rmox::input::frame_well_formed(SupportedDeviceType::Keyboard, &[abs(touch::ABS_MT_SLOT, 999)]));
    assert!(!rmox::input::frame_well_formed(SupportedDeviceType::Touchscreen, &[abs(touch::ABS_MT_SLOT, 999)]));
}

#[test]
fn device_categories() {
    let none = DeviceCapabilities { slot_axis: false, keys: None, absolute_events: false };
    assert_eq!(detect_device_type(&none), None);
    assert_eq!(
        detect_device_type(&DeviceCapabilities { slot_axis: true, ..none }),
        Some(SupportedDeviceType::Touchscreen)
    );
    let keys = |stylus_button, power_key| Some(KeyCapabilities { stylus_button, power_key });
    assert_eq!(
        detect_device_type(&DeviceCapabilities { keys: keys(true, true), absolute_events: true, ..none }),
        Some(SupportedDeviceType::Stylus)
    );
    assert_eq!(
        detect_device_type(&DeviceCapabilities { keys: keys(true, true), ..none }),
        Some(SupportedDeviceType::Buttons)
    );
    assert_eq!(
        detect_device_type(&DeviceCapabilities { keys: keys(false, false), absolute_events: true, ..none }),
        Some(SupportedDeviceType::Keyboard)
    );
}

#[test]
fn device_slots_and_rotation() {
    let mut devices = Devices::new();
    let mut queue = VecDeque::new();
    assert_eq!(devices.autodetect_device(None), None);
    assert_eq!(devices.autodetect_device(Some(SupportedDeviceType::Keyboard)), Some(SupportedDeviceType::Keyboard));
    assert_eq!(devices.autodetect_device(Some(SupportedDeviceType::Keyboard)), None);
    assert!(devices.device_present(SupportedDeviceType::Keyboard));
    let turns: Vec<_> = (0..5).map(|_| devices.advance()).collect();
    assert_eq!(
        turns,
        [
            (SupportedDeviceType::Stylus, false),
            (SupportedDeviceType::Buttons, false),
            (SupportedDeviceType::Touchscreen, false),
            (SupportedDeviceType::Keyboard, true),
            (SupportedDeviceType::Stylus, false),
        ]
    );
    assert_eq!(devices.poll_outcome(SupportedDeviceType::Keyboard, PollOutcome::Frame, &mut queue), PollDecision::Done);
    assert_eq!(devices.poll_outcome(SupportedDeviceType::Keyboard, PollOutcome::Pending, &mut queue), PollDecision::Next);
    assert_eq!(devices.poll_outcome(SupportedDeviceType::Keyboard, PollOutcome::Failed(Some(5)), &mut queue), PollDecision::Fatal);
    assert_eq!(devices.poll_outcome(SupportedDeviceType::Keyboard, PollOutcome::Failed(None), &mut queue), PollDecision::Fatal);
    assert!(queue.is_empty());
    assert_eq!(devices.poll_outcome(SupportedDeviceType::Keyboard, PollOutcome::Failed(Some(19)), &mut queue), PollDecision::Next);
    assert!(!devices.device_present(SupportedDeviceType::Keyboard));
    assert_eq!(queue.pop_front(), Some(Event::DevicePresence(SupportedDeviceType::Keyboard)));
}
