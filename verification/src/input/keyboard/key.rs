//! Physical key positions and the virtual keys they stand for.

use vstd::prelude::*;

verus! {

/// Code that the kernel reports for the key labelled `Num1`.
pub const KEY_1: u16 = 2;

/// Code that the kernel reports for the key labelled `Num2`.
pub const KEY_2: u16 = 3;

/// Code that the kernel reports for the key labelled `Num3`.
pub const KEY_3: u16 = 4;

/// Code that the kernel reports for the key labelled `Num4`.
pub const KEY_4: u16 = 5;

/// Code that the kernel reports for the key labelled `Num5`.
pub const KEY_5: u16 = 6;

/// Code that the kernel reports for the key labelled `Num6`.
pub const KEY_6: u16 = 7;

/// Code that the kernel reports for the key labelled `Num7`.
pub const KEY_7: u16 = 8;

/// Code that the kernel reports for the key labelled `Num8`.
pub const KEY_8: u16 = 9;

/// Code that the kernel reports for the key labelled `Num9`.
pub const KEY_9: u16 = 10;

/// Code that the kernel reports for the key labelled `Num0`.
pub const KEY_0: u16 = 11;

/// Code that the kernel reports for the key labelled `Hyphen`.
pub const KEY_EQUAL: u16 = 13;

/// Code that the kernel reports for the key labelled `Backspace`.
pub const KEY_BACKSPACE: u16 = 14;

/// Code that the kernel reports for the key labelled `Tab`.
pub const KEY_TAB: u16 = 15;

/// Code that the kernel reports for the key labelled `Q`.
pub const KEY_Q: u16 = 16;

/// Code that the kernel reports for the key labelled `W`.
pub const KEY_W: u16 = 17;

/// Code that the kernel reports for the key labelled `E`.
pub const KEY_E: u16 = 18;

/// Code that the kernel reports for the key labelled `R`.
pub const KEY_R: u16 = 19;

/// Code that the kernel reports for the key labelled `T`.
pub const KEY_T: u16 = 20;

/// Code that the kernel reports for the key labelled `Y`.
pub const KEY_Y: u16 = 21;

/// Code that the kernel reports for the key labelled `U`.
pub const KEY_U: u16 = 22;

/// Code that the kernel reports for the key labelled `I`.
pub const KEY_I: u16 = 23;

/// Code that the kernel reports for the key labelled `O`.
pub const KEY_O: u16 = 24;

/// Code that the kernel reports for the key labelled `P`.
pub const KEY_P: u16 = 25;

/// Code that the kernel reports for the key labelled `Grave`.
pub const KEY_GRAVE: u16 = 41;

/// Code that the kernel reports for the key labelled `Tilde`.
pub const KEY_BACKSLASH: u16 = 43;

/// Code that the kernel reports for the key labelled `CapsLock`.
pub const KEY_CAPSLOCK: u16 = 58;

/// Code that the kernel reports for the key labelled `A`.
pub const KEY_A: u16 = 30;

/// Code that the kernel reports for the key labelled `S`.
pub const KEY_S: u16 = 31;

/// Code that the kernel reports for the key labelled `D`.
pub const KEY_D: u16 = 32;

/// Code that the kernel reports for the key labelled `F`.
pub const KEY_F: u16 = 33;

/// Code that the kernel reports for the key labelled `G`.
pub const KEY_G: u16 = 34;

/// Code that the kernel reports for the key labelled `H`.
pub const KEY_H: u16 = 35;

/// Code that the kernel reports for the key labelled `J`.
pub const KEY_J: u16 = 36;

/// Code that the kernel reports for the key labelled `K`.
pub const KEY_K: u16 = 37;

/// Code that the kernel reports for the key labelled `L`.
pub const KEY_L: u16 = 38;

/// Code that the kernel reports for the key labelled `Semicolon`.
pub const KEY_SEMICOLON: u16 = 39;

/// Code that the kernel reports for the key labelled `Apostrophe`.
pub const KEY_APOSTROPHE: u16 = 40;

/// Code that the kernel reports for the key labelled `Enter`.
pub const KEY_ENTER: u16 = 28;

/// Code that the kernel reports for the key labelled `LeftShift`.
pub const KEY_LEFTSHIFT: u16 = 42;

/// Code that the kernel reports for the key labelled `Z`.
pub const KEY_Z: u16 = 44;

/// Code that the kernel reports for the key labelled `X`.
pub const KEY_X: u16 = 45;

/// Code that the kernel reports for the key labelled `C`.
pub const KEY_C: u16 = 46;

/// Code that the kernel reports for the key labelled `V`.
pub const KEY_V: u16 = 47;

/// Code that the kernel reports for the key labelled `B`.
pub const KEY_B: u16 = 48;

/// Code that the kernel reports for the key labelled `N`.
pub const KEY_N: u16 = 49;

/// Code that the kernel reports for the key labelled `M`.
pub const KEY_M: u16 = 50;

/// Code that the kernel reports for the key labelled `Comma`.
pub const KEY_COMMA: u16 = 51;

/// Code that the kernel reports for the key labelled `Period`.
pub const KEY_DOT: u16 = 52;

/// Code that the kernel reports for the key labelled `Slash`.
pub const KEY_SLASH: u16 = 53;

/// Code that the kernel reports for the key labelled `RightShift`.
pub const KEY_RIGHTSHIFT: u16 = 54;

/// Code that the kernel reports for the key labelled `Ctrl`.
pub const KEY_LEFTCTRL: u16 = 29;

/// Code that the kernel reports for the key labelled `Opt`.
pub const KEY_END: u16 = 107;

/// Code that the kernel reports for the key labelled `Alt`.
pub const KEY_LEFTALT: u16 = 56;

/// Code that the kernel reports for the key labelled `Space`.
pub const KEY_SPACE: u16 = 57;

/// Code that the kernel reports for the key labelled `AltOpt`.
pub const KEY_RIGHTALT: u16 = 100;

/// Code that the kernel reports for the key labelled `ArrowLeft`.
pub const KEY_LEFT: u16 = 105;

/// Code that the kernel reports for the key labelled `ArrowUp`.
pub const KEY_UP: u16 = 103;

/// Code that the kernel reports for the key labelled `ArrowDown`.
pub const KEY_DOWN: u16 = 108;

/// Code that the kernel reports for the key labelled `ArrowRight`.
pub const KEY_RIGHT: u16 = 106;

/// Code that the kernel reports for the key labelled `Power`.
pub const KEY_POWER: u16 = 116;

/// Number of physical key positions.
pub const SCANCODE_COUNT: usize = 60;

/// A physical key position on the keyboard, named by the label printed on the
/// key in its base state: what the key is, whatever the layout makes of it.
#[derive(Debug, Clone, Copy, PartialEq, Eq, Structural, Hash)]
pub enum Scancode {
    Num1,
    Num2,
    Num3,
    Num4,
    Num5,
    Num6,
    Num7,
    Num8,
    Num9,
    Num0,
    Hyphen,
    Backspace,
    Tab,
    Q,
    W,
    E,
    R,
    T,
    Y,
    U,
    I,
    O,
    P,
    Grave,
    Tilde,
    CapsLock,
    A,
    S,
    D,
    F,
    G,
    H,
    J,
    K,
    L,
    Semicolon,
    Apostrophe,
    Enter,
    LeftShift,
    Z,
    X,
    C,
    V,
    B,
    N,
    M,
    Comma,
    Period,
    Slash,
    RightShift,
    Ctrl,
    Opt,
    Alt,
    Space,
    AltOpt,
    ArrowLeft,
    ArrowUp,
    ArrowDown,
    ArrowRight,
    Power,
}

/// A virtual key: what the user means by a keystroke. Every physical key
/// stands for one virtual key in its base state; the layout reaches further
/// virtual keys through modifiers.
#[derive(Debug, Clone, Copy, PartialEq, Eq, Structural, Hash)]
pub enum Key {
    Num1,
    Num2,
    Num3,
    Num4,
    Num5,
    Num6,
    Num7,
    Num8,
    Num9,
    Num0,
    Hyphen,
    Backspace,
    Tab,
    Q,
    W,
    E,
    R,
    T,
    Y,
    U,
    I,
    O,
    P,
    Grave,
    Tilde,
    CapsLock,
    A,
    S,
    D,
    F,
    G,
    H,
    J,
    K,
    L,
    Semicolon,
    Apostrophe,
    Enter,
    LeftShift,
    Z,
    X,
    C,
    V,
    B,
    N,
    M,
    Comma,
    Period,
    Slash,
    RightShift,
    Ctrl,
    Opt,
    Alt,
    Space,
    AltOpt,
    ArrowLeft,
    ArrowUp,
    ArrowDown,
    ArrowRight,
    Power,
    Escape,
    Insert,
    Delete,
    PageUp,
    PageDown,
    Home,
    End,
}

impl Scancode {
    /// Position of the key in the declaration order, which indexes the table
    /// of held keys.
    pub open spec fn spec_index(self) -> int {
        match self {
            Scancode::Num1 => 0,
            Scancode::Num2 => 1,
            Scancode::Num3 => 2,
            Scancode::Num4 => 3,
            Scancode::Num5 => 4,
            Scancode::Num6 => 5,
            Scancode::Num7 => 6,
            Scancode::Num8 => 7,
            Scancode::Num9 => 8,
            Scancode::Num0 => 9,
            Scancode::Hyphen => 10,
            Scancode::Backspace => 11,
            Scancode::Tab => 12,
            Scancode::Q => 13,
            Scancode::W => 14,
            Scancode::E => 15,
            Scancode::R => 16,
            Scancode::T => 17,
            Scancode::Y => 18,
            Scancode::U => 19,
            Scancode::I => 20,
            Scancode::O => 21,
            Scancode::P => 22,
            Scancode::Grave => 23,
            Scancode::Tilde => 24,
            Scancode::CapsLock => 25,
            Scancode::A => 26,
            Scancode::S => 27,
            Scancode::D => 28,
            Scancode::F => 29,
            Scancode::G => 30,
            Scancode::H => 31,
            Scancode::J => 32,
            Scancode::K => 33,
            Scancode::L => 34,
            Scancode::Semicolon => 35,
            Scancode::Apostrophe => 36,
            Scancode::Enter => 37,
            Scancode::LeftShift => 38,
            Scancode::Z => 39,
            Scancode::X => 40,
            Scancode::C => 41,
            Scancode::V => 42,
            Scancode::B => 43,
            Scancode::N => 44,
            Scancode::M => 45,
            Scancode::Comma => 46,
            Scancode::Period => 47,
            Scancode::Slash => 48,
            Scancode::RightShift => 49,
            Scancode::Ctrl => 50,
            Scancode::Opt => 51,
            Scancode::Alt => 52,
            Scancode::Space => 53,
            Scancode::AltOpt => 54,
            Scancode::ArrowLeft => 55,
            Scancode::ArrowUp => 56,
            Scancode::ArrowDown => 57,
            Scancode::ArrowRight => 58,
            Scancode::Power => 59,
        }
    }

    /// The key at a position of the declaration order.
    pub open spec fn spec_from_index(i: int) -> Option<Scancode> {
        if i == 0 {
            Some(Scancode::Num1)
        } else if i == 1 {
            Some(Scancode::Num2)
        } else if i == 2 {
            Some(Scancode::Num3)
        } else if i == 3 {
            Some(Scancode::Num4)
        } else if i == 4 {
            Some(Scancode::Num5)
        } else if i == 5 {
            Some(Scancode::Num6)
        } else if i == 6 {
            Some(Scancode::Num7)
        } else if i == 7 {
            Some(Scancode::Num8)
        } else if i == 8 {
            Some(Scancode::Num9)
        } else if i == 9 {
            Some(Scancode::Num0)
        } else if i == 10 {
            Some(Scancode::Hyphen)
        } else if i == 11 {
            Some(Scancode::Backspace)
        } else if i == 12 {
            Some(Scancode::Tab)
        } else if i == 13 {
            Some(Scancode::Q)
        } else if i == 14 {
            Some(Scancode::W)
        } else if i == 15 {
            Some(Scancode::E)
        } else if i == 16 {
            Some(Scancode::R)
        } else if i == 17 {
            Some(Scancode::T)
        } else if i == 18 {
            Some(Scancode::Y)
        } else if i == 19 {
            Some(Scancode::U)
        } else if i == 20 {
            Some(Scancode::I)
        } else if i == 21 {
            Some(Scancode::O)
        } else if i == 22 {
            Some(Scancode::P)
        } else if i == 23 {
            Some(Scancode::Grave)
        } else if i == 24 {
            Some(Scancode::Tilde)
        } else if i == 25 {
            Some(Scancode::CapsLock)
        } else if i == 26 {
            Some(Scancode::A)
        } else if i == 27 {
            Some(Scancode::S)
        } else if i == 28 {
            Some(Scancode::D)
        } else if i == 29 {
            Some(Scancode::F)
        } else if i == 30 {
            Some(Scancode::G)
        } else if i == 31 {
            Some(Scancode::H)
        } else if i == 32 {
            Some(Scancode::J)
        } else if i == 33 {
            Some(Scancode::K)
        } else if i == 34 {
            Some(Scancode::L)
        } else if i == 35 {
            Some(Scancode::Semicolon)
        } else if i == 36 {
            Some(Scancode::Apostrophe)
        } else if i == 37 {
            Some(Scancode::Enter)
        } else if i == 38 {
            Some(Scancode::LeftShift)
        } else if i == 39 {
            Some(Scancode::Z)
        } else if i == 40 {
            Some(Scancode::X)
        } else if i == 41 {
            Some(Scancode::C)
        } else if i == 42 {
            Some(Scancode::V)
        } else if i == 43 {
            Some(Scancode::B)
        } else if i == 44 {
            Some(Scancode::N)
        } else if i == 45 {
            Some(Scancode::M)
        } else if i == 46 {
            Some(Scancode::Comma)
        } else if i == 47 {
            Some(Scancode::Period)
        } else if i == 48 {
            Some(Scancode::Slash)
        } else if i == 49 {
            Some(Scancode::RightShift)
        } else if i == 50 {
            Some(Scancode::Ctrl)
        } else if i == 51 {
            Some(Scancode::Opt)
        } else if i == 52 {
            Some(Scancode::Alt)
        } else if i == 53 {
            Some(Scancode::Space)
        } else if i == 54 {
            Some(Scancode::AltOpt)
        } else if i == 55 {
            Some(Scancode::ArrowLeft)
        } else if i == 56 {
            Some(Scancode::ArrowUp)
        } else if i == 57 {
            Some(Scancode::ArrowDown)
        } else if i == 58 {
            Some(Scancode::ArrowRight)
        } else if i == 59 {
            Some(Scancode::Power)
        } else {
            None
        }
    }

    /// The key that a kernel key code denotes; `None` for the codes of keys
    /// that this keyboard does not have.
    pub open spec fn spec_from_code(code: u16) -> Option<Scancode> {
        match code {
            2u16 => Some(Scancode::Num1),
            3u16 => Some(Scancode::Num2),
            4u16 => Some(Scancode::Num3),
            5u16 => Some(Scancode::Num4),
            6u16 => Some(Scancode::Num5),
            7u16 => Some(Scancode::Num6),
            8u16 => Some(Scancode::Num7),
            9u16 => Some(Scancode::Num8),
            10u16 => Some(Scancode::Num9),
            11u16 => Some(Scancode::Num0),
            13u16 => Some(Scancode::Hyphen),
            14u16 => Some(Scancode::Backspace),
            15u16 => Some(Scancode::Tab),
            16u16 => Some(Scancode::Q),
            17u16 => Some(Scancode::W),
            18u16 => Some(Scancode::E),
            19u16 => Some(Scancode::R),
            20u16 => Some(Scancode::T),
            21u16 => Some(Scancode::Y),
            22u16 => Some(Scancode::U),
            23u16 => Some(Scancode::I),
            24u16 => Some(Scancode::O),
            25u16 => Some(Scancode::P),
            41u16 => Some(Scancode::Grave),
            43u16 => Some(Scancode::Tilde),
            58u16 => Some(Scancode::CapsLock),
            30u16 => Some(Scancode::A),
            31u16 => Some(Scancode::S),
            32u16 => Some(Scancode::D),
            33u16 => Some(Scancode::F),
            34u16 => Some(Scancode::G),
            35u16 => Some(Scancode::H),
            36u16 => Some(Scancode::J),
            37u16 => Some(Scancode::K),
            38u16 => Some(Scancode::L),
            39u16 => Some(Scancode::Semicolon),
            40u16 => Some(Scancode::Apostrophe),
            28u16 => Some(Scancode::Enter),
            42u16 => Some(Scancode::LeftShift),
            44u16 => Some(Scancode::Z),
            45u16 => Some(Scancode::X),
            46u16 => Some(Scancode::C),
            47u16 => Some(Scancode::V),
            48u16 => Some(Scancode::B),
            49u16 => Some(Scancode::N),
            50u16 => Some(Scancode::M),
            51u16 => Some(Scancode::Comma),
            52u16 => Some(Scancode::Period),
            53u16 => Some(Scancode::Slash),
            54u16 => Some(Scancode::RightShift),
            29u16 => Some(Scancode::Ctrl),
            107u16 => Some(Scancode::Opt),
            56u16 => Some(Scancode::Alt),
            57u16 => Some(Scancode::Space),
            100u16 => Some(Scancode::AltOpt),
            105u16 => Some(Scancode::ArrowLeft),
            103u16 => Some(Scancode::ArrowUp),
            108u16 => Some(Scancode::ArrowDown),
            106u16 => Some(Scancode::ArrowRight),
            116u16 => Some(Scancode::Power),
            _ => None,
        }
    }

    /// The virtual key of the same name.
    pub open spec fn spec_to_key_base(self) -> Key {
        match self {
            Scancode::Num1 => Key::Num1,
            Scancode::Num2 => Key::Num2,
            Scancode::Num3 => Key::Num3,
            Scancode::Num4 => Key::Num4,
            Scancode::Num5 => Key::Num5,
            Scancode::Num6 => Key::Num6,
            Scancode::Num7 => Key::Num7,
            Scancode::Num8 => Key::Num8,
            Scancode::Num9 => Key::Num9,
            Scancode::Num0 => Key::Num0,
            Scancode::Hyphen => Key::Hyphen,
            Scancode::Backspace => Key::Backspace,
            Scancode::Tab => Key::Tab,
            Scancode::Q => Key::Q,
            Scancode::W => Key::W,
            Scancode::E => Key::E,
            Scancode::R => Key::R,
            Scancode::T => Key::T,
            Scancode::Y => Key::Y,
            Scancode::U => Key::U,
            Scancode::I => Key::I,
            Scancode::O => Key::O,
            Scancode::P => Key::P,
            Scancode::Grave => Key::Grave,
            Scancode::Tilde => Key::Tilde,
            Scancode::CapsLock => Key::CapsLock,
            Scancode::A => Key::A,
            Scancode::S => Key::S,
            Scancode::D => Key::D,
            Scancode::F => Key::F,
            Scancode::G => Key::G,
            Scancode::H => Key::H,
            Scancode::J => Key::J,
            Scancode::K => Key::K,
            Scancode::L => Key::L,
            Scancode::Semicolon => Key::Semicolon,
            Scancode::Apostrophe => Key::Apostrophe,
            Scancode::Enter => Key::Enter,
            Scancode::LeftShift => Key::LeftShift,
            Scancode::Z => Key::Z,
            Scancode::X => Key::X,
            Scancode::C => Key::C,
            Scancode::V => Key::V,
            Scancode::B => Key::B,
            Scancode::N => Key::N,
            Scancode::M => Key::M,
            Scancode::Comma => Key::Comma,
            Scancode::Period => Key::Period,
            Scancode::Slash => Key::Slash,
            Scancode::RightShift => Key::RightShift,
            Scancode::Ctrl => Key::Ctrl,
            Scancode::Opt => Key::Opt,
            Scancode::Alt => Key::Alt,
            Scancode::Space => Key::Space,
            Scancode::AltOpt => Key::AltOpt,
            Scancode::ArrowLeft => Key::ArrowLeft,
            Scancode::ArrowUp => Key::ArrowUp,
            Scancode::ArrowDown => Key::ArrowDown,
            Scancode::ArrowRight => Key::ArrowRight,
            Scancode::Power => Key::Power,
        }
    }

    /// Position of the key in the declaration order; always below
    /// `SCANCODE_COUNT`.
    #[inline]
    #[must_use]
    pub fn index(self) -> (i: usize)
        ensures
            i == self.spec_index(),
            i < SCANCODE_COUNT,
            Scancode::spec_from_index(i as int) == Some(self),
    {
        match self {
            Scancode::Num1 => 0,
            Scancode::Num2 => 1,
            Scancode::Num3 => 2,
            Scancode::Num4 => 3,
            Scancode::Num5 => 4,
            Scancode::Num6 => 5,
            Scancode::Num7 => 6,
            Scancode::Num8 => 7,
            Scancode::Num9 => 8,
            Scancode::Num0 => 9,
            Scancode::Hyphen => 10,
            Scancode::Backspace => 11,
            Scancode::Tab => 12,
            Scancode::Q => 13,
            Scancode::W => 14,
            Scancode::E => 15,
            Scancode::R => 16,
            Scancode::T => 17,
            Scancode::Y => 18,
            Scancode::U => 19,
            Scancode::I => 20,
            Scancode::O => 21,
            Scancode::P => 22,
            Scancode::Grave => 23,
            Scancode::Tilde => 24,
            Scancode::CapsLock => 25,
            Scancode::A => 26,
            Scancode::S => 27,
            Scancode::D => 28,
            Scancode::F => 29,
            Scancode::G => 30,
            Scancode::H => 31,
            Scancode::J => 32,
            Scancode::K => 33,
            Scancode::L => 34,
            Scancode::Semicolon => 35,
            Scancode::Apostrophe => 36,
            Scancode::Enter => 37,
            Scancode::LeftShift => 38,
            Scancode::Z => 39,
            Scancode::X => 40,
            Scancode::C => 41,
            Scancode::V => 42,
            Scancode::B => 43,
            Scancode::N => 44,
            Scancode::M => 45,
            Scancode::Comma => 46,
            Scancode::Period => 47,
            Scancode::Slash => 48,
            Scancode::RightShift => 49,
            Scancode::Ctrl => 50,
            Scancode::Opt => 51,
            Scancode::Alt => 52,
            Scancode::Space => 53,
            Scancode::AltOpt => 54,
            Scancode::ArrowLeft => 55,
            Scancode::ArrowUp => 56,
            Scancode::ArrowDown => 57,
            Scancode::ArrowRight => 58,
            Scancode::Power => 59,
        }
    }

    /// The key at position `i` of the declaration order: `Some` exactly for
    /// the positions below `SCANCODE_COUNT`.
    #[inline]
    #[must_use]
    pub fn from_index(i: usize) -> (s: Option<Scancode>)
        ensures
            s == Scancode::spec_from_index(i as int),
            s.is_some() == (i < SCANCODE_COUNT),
            s matches Some(k) ==> k.spec_index() == i,
    {
        match i {
            0 => Some(Scancode::Num1),
            1 => Some(Scancode::Num2),
            2 => Some(Scancode::Num3),
            3 => Some(Scancode::Num4),
            4 => Some(Scancode::Num5),
            5 => Some(Scancode::Num6),
            6 => Some(Scancode::Num7),
            7 => Some(Scancode::Num8),
            8 => Some(Scancode::Num9),
            9 => Some(Scancode::Num0),
            10 => Some(Scancode::Hyphen),
            11 => Some(Scancode::Backspace),
            12 => Some(Scancode::Tab),
            13 => Some(Scancode::Q),
            14 => Some(Scancode::W),
            15 => Some(Scancode::E),
            16 => Some(Scancode::R),
            17 => Some(Scancode::T),
            18 => Some(Scancode::Y),
            19 => Some(Scancode::U),
            20 => Some(Scancode::I),
            21 => Some(Scancode::O),
            22 => Some(Scancode::P),
            23 => Some(Scancode::Grave),
            24 => Some(Scancode::Tilde),
            25 => Some(Scancode::CapsLock),
            26 => Some(Scancode::A),
            27 => Some(Scancode::S),
            28 => Some(Scancode::D),
            29 => Some(Scancode::F),
            30 => Some(Scancode::G),
            31 => Some(Scancode::H),
            32 => Some(Scancode::J),
            33 => Some(Scancode::K),
            34 => Some(Scancode::L),
            35 => Some(Scancode::Semicolon),
            36 => Some(Scancode::Apostrophe),
            37 => Some(Scancode::Enter),
            38 => Some(Scancode::LeftShift),
            39 => Some(Scancode::Z),
            40 => Some(Scancode::X),
            41 => Some(Scancode::C),
            42 => Some(Scancode::V),
            43 => Some(Scancode::B),
            44 => Some(Scancode::N),
            45 => Some(Scancode::M),
            46 => Some(Scancode::Comma),
            47 => Some(Scancode::Period),
            48 => Some(Scancode::Slash),
            49 => Some(Scancode::RightShift),
            50 => Some(Scancode::Ctrl),
            51 => Some(Scancode::Opt),
            52 => Some(Scancode::Alt),
            53 => Some(Scancode::Space),
            54 => Some(Scancode::AltOpt),
            55 => Some(Scancode::ArrowLeft),
            56 => Some(Scancode::ArrowUp),
            57 => Some(Scancode::ArrowDown),
            58 => Some(Scancode::ArrowRight),
            59 => Some(Scancode::Power),
            _ => None,
        }
    }

    /// Decodes a kernel key code by the static table of this keyboard.
    #[must_use]
    pub fn from_evdev(code: u16) -> (s: Option<Scancode>)
        ensures
            s == Scancode::spec_from_code(code),
    {
        match code {
            KEY_1 => Some(Scancode::Num1),
            KEY_2 => Some(Scancode::Num2),
            KEY_3 => Some(Scancode::Num3),
            KEY_4 => Some(Scancode::Num4),
            KEY_5 => Some(Scancode::Num5),
            KEY_6 => Some(Scancode::Num6),
            KEY_7 => Some(Scancode::Num7),
            KEY_8 => Some(Scancode::Num8),
            KEY_9 => Some(Scancode::Num9),
            KEY_0 => Some(Scancode::Num0),
            KEY_EQUAL => Some(Scancode::Hyphen),
            KEY_BACKSPACE => Some(Scancode::Backspace),
            KEY_TAB => Some(Scancode::Tab),
            KEY_Q => Some(Scancode::Q),
            KEY_W => Some(Scancode::W),
            KEY_E => Some(Scancode::E),
            KEY_R => Some(Scancode::R),
            KEY_T => Some(Scancode::T),
            KEY_Y => Some(Scancode::Y),
            KEY_U => Some(Scancode::U),
            KEY_I => Some(Scancode::I),
            KEY_O => Some(Scancode::O),
            KEY_P => Some(Scancode::P),
            KEY_GRAVE => Some(Scancode::Grave),
            KEY_BACKSLASH => Some(Scancode::Tilde),
            KEY_CAPSLOCK => Some(Scancode::CapsLock),
            KEY_A => Some(Scancode::A),
            KEY_S => Some(Scancode::S),
            KEY_D => Some(Scancode::D),
            KEY_F => Some(Scancode::F),
            KEY_G => Some(Scancode::G),
            KEY_H => Some(Scancode::H),
            KEY_J => Some(Scancode::J),
            KEY_K => Some(Scancode::K),
            KEY_L => Some(Scancode::L),
            KEY_SEMICOLON => Some(Scancode::Semicolon),
            KEY_APOSTROPHE => Some(Scancode::Apostrophe),
            KEY_ENTER => Some(Scancode::Enter),
            KEY_LEFTSHIFT => Some(Scancode::LeftShift),
            KEY_Z => Some(Scancode::Z),
            KEY_X => Some(Scancode::X),
            KEY_C => Some(Scancode::C),
            KEY_V => Some(Scancode::V),
            KEY_B => Some(Scancode::B),
            KEY_N => Some(Scancode::N),
            KEY_M => Some(Scancode::M),
            KEY_COMMA => Some(Scancode::Comma),
            KEY_DOT => Some(Scancode::Period),
            KEY_SLASH => Some(Scancode::Slash),
            KEY_RIGHTSHIFT => Some(Scancode::RightShift),
            KEY_LEFTCTRL => Some(Scancode::Ctrl),
            KEY_END => Some(Scancode::Opt),
            KEY_LEFTALT => Some(Scancode::Alt),
            KEY_SPACE => Some(Scancode::Space),
            KEY_RIGHTALT => Some(Scancode::AltOpt),
            KEY_LEFT => Some(Scancode::ArrowLeft),
            KEY_UP => Some(Scancode::ArrowUp),
            KEY_DOWN => Some(Scancode::ArrowDown),
            KEY_RIGHT => Some(Scancode::ArrowRight),
            KEY_POWER => Some(Scancode::Power),
            _ => None,
        }
    }

    /// Every physical key stands for the virtual key of the same name in its
    /// base state.
    #[inline]
    #[must_use]
    #[verifier::when_used_as_spec(spec_to_key_base)]
    pub fn to_key_base(self) -> (k: Key)
        ensures
            k == self.spec_to_key_base(),
    {
        match self {
            Scancode::Num1 => Key::Num1,
            Scancode::Num2 => Key::Num2,
            Scancode::Num3 => Key::Num3,
            Scancode::Num4 => Key::Num4,
            Scancode::Num5 => Key::Num5,
            Scancode::Num6 => Key::Num6,
            Scancode::Num7 => Key::Num7,
            Scancode::Num8 => Key::Num8,
            Scancode::Num9 => Key::Num9,
            Scancode::Num0 => Key::Num0,
            Scancode::Hyphen => Key::Hyphen,
            Scancode::Backspace => Key::Backspace,
            Scancode::Tab => Key::Tab,
            Scancode::Q => Key::Q,
            Scancode::W => Key::W,
            Scancode::E => Key::E,
            Scancode::R => Key::R,
            Scancode::T => Key::T,
            Scancode::Y => Key::Y,
            Scancode::U => Key::U,
            Scancode::I => Key::I,
            Scancode::O => Key::O,
            Scancode::P => Key::P,
            Scancode::Grave => Key::Grave,
            Scancode::Tilde => Key::Tilde,
            Scancode::CapsLock => Key::CapsLock,
            Scancode::A => Key::A,
            Scancode::S => Key::S,
            Scancode::D => Key::D,
            Scancode::F => Key::F,
            Scancode::G => Key::G,
            Scancode::H => Key::H,
            Scancode::J => Key::J,
            Scancode::K => Key::K,
            Scancode::L => Key::L,
            Scancode::Semicolon => Key::Semicolon,
            Scancode::Apostrophe => Key::Apostrophe,
            Scancode::Enter => Key::Enter,
            Scancode::LeftShift => Key::LeftShift,
            Scancode::Z => Key::Z,
            Scancode::X => Key::X,
            Scancode::C => Key::C,
            Scancode::V => Key::V,
            Scancode::B => Key::B,
            Scancode::N => Key::N,
            Scancode::M => Key::M,
            Scancode::Comma => Key::Comma,
            Scancode::Period => Key::Period,
            Scancode::Slash => Key::Slash,
            Scancode::RightShift => Key::RightShift,
            Scancode::Ctrl => Key::Ctrl,
            Scancode::Opt => Key::Opt,
            Scancode::Alt => Key::Alt,
            Scancode::Space => Key::Space,
            Scancode::AltOpt => Key::AltOpt,
            Scancode::ArrowLeft => Key::ArrowLeft,
            Scancode::ArrowUp => Key::ArrowUp,
            Scancode::ArrowDown => Key::ArrowDown,
            Scancode::ArrowRight => Key::ArrowRight,
            Scancode::Power => Key::Power,
        }
    }
}

} // verus!
