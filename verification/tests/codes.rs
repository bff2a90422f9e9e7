use evdev::{AbsoluteAxisCode, EventType, KeyCode};
use rmox::input::keyboard::key;
use rmox::input::keyboard::Scancode;
use rmox::input::{stylus, touch, EV_ABS, EV_KEY};

#[test]
fn event_codes_are_those_of_the_kernel() {
    assert_eq!(EV_KEY, EventType::KEY.0);
    assert_eq!(EV_ABS, EventType::ABSOLUTE.0);
    assert_eq!(touch::ABS_MT_SLOT, AbsoluteAxisCode::ABS_MT_SLOT.0);
    assert_eq!(touch::ABS_MT_TRACKING_ID, AbsoluteAxisCode::ABS_MT_TRACKING_ID.0);
    assert_eq!(touch::ABS_MT_POSITION_X, AbsoluteAxisCode::ABS_MT_POSITION_X.0);
    assert_eq!(touch::ABS_MT_POSITION_Y, AbsoluteAxisCode::ABS_MT_POSITION_Y.0);
    assert_eq!(touch::ABS_MT_PRESSURE, AbsoluteAxisCode::ABS_MT_PRESSURE.0);
    assert_eq!(touch::ABS_MT_TOUCH_MAJOR, AbsoluteAxisCode::ABS_MT_TOUCH_MAJOR.0);
    assert_eq!(touch::ABS_MT_TOUCH_MINOR, AbsoluteAxisCode::ABS_MT_TOUCH_MINOR.0);
    assert_eq!(touch::ABS_MT_ORIENTATION, AbsoluteAxisCode::ABS_MT_ORIENTATION.0);
    assert_eq!(stylus::ABS_X, AbsoluteAxisCode::ABS_X.0);
    assert_eq!(stylus::ABS_Y, AbsoluteAxisCode::ABS_Y.0);
    assert_eq!(stylus::ABS_PRESSURE, AbsoluteAxisCode::ABS_PRESSURE.0);
    assert_eq!(stylus::ABS_DISTANCE, AbsoluteAxisCode::ABS_DISTANCE.0);
    assert_eq!(stylus::ABS_TILT_X, AbsoluteAxisCode::ABS_TILT_X.0);
    assert_eq!(stylus::ABS_TILT_Y, AbsoluteAxisCode::ABS_TILT_Y.0);
    assert_eq!(stylus::BTN_TOOL_PEN, KeyCode::BTN_TOOL_PEN.code());
    assert_eq!(stylus::BTN_TOOL_RUBBER, KeyCode::BTN_TOOL_RUBBER.code());
    assert_eq!(stylus::BTN_TOUCH, KeyCode::BTN_TOUCH.code());
    assert_eq!(stylus::BTN_STYLUS, KeyCode::BTN_STYLUS.code());
}

#[test]
fn key_codes_are_those_of_the_kernel() {
    let table = [
        (key::KEY_1, KeyCode::KEY_1, Scancode::Num1),
        (key::KEY_0, KeyCode::KEY_0, Scancode::Num0),
        (key::KEY_EQUAL, KeyCode::KEY_EQUAL, Scancode::Hyphen),
        (key::KEY_BACKSPACE, KeyCode::KEY_BACKSPACE, Scancode::Backspace),
        (key::KEY_TAB, KeyCode::KEY_TAB, Scancode::Tab),
        (key::KEY_Q, KeyCode::KEY_Q, Scancode::Q),
        (key::KEY_P, KeyCode::KEY_P, Scancode::P),
        (key::KEY_GRAVE, KeyCode::KEY_GRAVE, Scancode::Grave),
        (key::KEY_BACKSLASH, KeyCode::KEY_BACKSLASH, Scancode::Tilde),
        (key::KEY_CAPSLOCK, KeyCode::KEY_CAPSLOCK, Scancode::CapsLock),
        (key::KEY_A, KeyCode::KEY_A, Scancode::A),
        (key::KEY_SEMICOLON, KeyCode::KEY_SEMICOLON, Scancode::Semicolon),
        (key::KEY_APOSTROPHE, KeyCode::KEY_APOSTROPHE, Scancode::Apostrophe),
        (key::KEY_ENTER, KeyCode::KEY_ENTER, Scancode::Enter),
        (key::KEY_LEFTSHIFT, KeyCode::KEY_LEFTSHIFT, Scancode::LeftShift),
        (key::KEY_Z, KeyCode::KEY_Z, Scancode::Z),
        (key::KEY_COMMA, KeyCode::KEY_COMMA, Scancode::Comma),
        (key::KEY_DOT, KeyCode::KEY_DOT, Scancode::Period),
        (key::KEY_SLASH, KeyCode::KEY_SLASH, Scancode::Slash),
        (key::KEY_RIGHTSHIFT, KeyCode::KEY_RIGHTSHIFT, Scancode::RightShift),
        (key::KEY_LEFTCTRL, KeyCode::KEY_LEFTCTRL, Scancode::Ctrl),
        (key::KEY_END, KeyCode::KEY_END, Scancode::Opt),
        (key::KEY_LEFTALT, KeyCode::KEY_LEFTALT, Scancode::Alt),
        (key::KEY_SPACE, KeyCode::KEY_SPACE, Scancode::Space),
        (key::KEY_RIGHTALT, KeyCode::KEY_RIGHTALT, Scancode::AltOpt),
        (key::KEY_LEFT, KeyCode::KEY_LEFT, Scancode::ArrowLeft),
        (key::KEY_UP, KeyCode::KEY_UP, Scancode::ArrowUp),
        (key::KEY_DOWN, KeyCode::KEY_DOWN, Scancode::ArrowDown),
        (key::KEY_RIGHT, KeyCode::KEY_RIGHT, Scancode::ArrowRight),
        (key::KEY_POWER, KeyCode::KEY_POWER, Scancode::Power),
    ];
    for (ours, theirs, scancode) in table {
        assert_eq!(ours, theirs.code());
        assert_eq!(Scancode::from_evdev(theirs.code()), Some(scancode));
    }
    assert_eq!(Scancode::from_evdev(KeyCode::KEY_ESC.code()), None);
    let mut seen = 0;
    for code in 0..0x300u16 {
        if let Some(scancode) = Scancode::from_evdev(code) {
            assert_eq!(Scancode::from_index(scancode.index()), Some(scancode));
            assert_eq!(scancode.to_key_base() as u8, scancode as u8);
            seen += 1;
        }
    }
    assert_eq!(seen, key::SCANCODE_COUNT);
    assert_eq!(Scancode::from_index(key::SCANCODE_COUNT), None);
}
