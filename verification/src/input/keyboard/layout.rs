//! Keyboard layouts: from physical keys to virtual keys, and from virtual
//! keys to text or modifier changes.

use vstd::prelude::*;

use crate::input::keyboard::key::{Key, Scancode};
use crate::input::keyboard::modifiers::{Modifier, Modifiers};

verus! {

/// What a keystroke amounts to once the layout has looked at the key and the
/// modifiers.
#[derive(Debug, Clone, PartialEq, Eq)]
pub enum Resolved {
    /// The keystroke types this text.
    Text(String),
    /// The key is this modifier.
    Modifier(Modifier),
    NoneOfThese,
}

/// `Resolved` with the text as a sequence of characters.
pub enum ResolvedView {
    Text(Seq<char>),
    Modifier(Modifier),
    NoneOfThese,
}

impl View for Resolved {
    type V = ResolvedView;

    open spec fn view(&self) -> ResolvedView {
        match self {
            Resolved::Text(text) => ResolvedView::Text(text@),
            Resolved::Modifier(modifier) => ResolvedView::Modifier(*modifier),
            Resolved::NoneOfThese => ResolvedView::NoneOfThese,
        }
    }
}

/// A keyboard layout: maps scancodes (with a modifier snapshot that it may
/// consume from) to keys, and resolves a key under given modifiers to a
/// modifier, to text, or to neither. Both maps are functions of their
/// arguments alone.
pub trait KeyboardLayout {
    /// The key that `scancode` stands for under `modifiers`, and the
    /// modifiers left once those that served as accessors are consumed.
    spec fn spec_scancode_to_key(&self, scancode: Scancode, modifiers: Modifiers) -> (
        Option<Key>,
        Modifiers,
    );

    /// What `key` amounts to under `modifiers`.
    spec fn spec_resolve(&self, key: Key, modifiers: Modifiers) -> ResolvedView;

    /// `modifiers` is provided mutably so that any modifiers that act as
    /// accessors for alternate keys can be consumed.
    fn scancode_to_key(&self, scancode: Scancode, modifiers: &mut Modifiers) -> (key: Option<Key>)
        ensures
            (key, *final(modifiers)) == self.spec_scancode_to_key(scancode, *old(modifiers)),
    ;

    /// In this case `modifiers` cannot be modified because the `Key` has
    /// already been resolved and nothing at this point would justify hiding a
    /// modifier from the client.
    fn resolve(&self, key: Key, modifiers: Modifiers) -> (resolved: Resolved)
        ensures
            resolved@ == self.spec_resolve(key, modifiers),
    ;
}

/// What a key of the default layout stands for, before modifiers select
/// among its layers.
#[derive(Debug, Clone, Copy, PartialEq, Eq, Structural)]
pub enum KeyRole {
    /// A character key with four layers, selected by Opt and Shift. For an
    /// alphabetic key Caps Lock inverts Shift on the layers without Opt.
    Layers { base: char, shifted: char, opt: char, opt_shifted: char, alphabetic: bool },
    /// A key that types the same character under all modifiers.
    Fixed(char),
    /// A modifier key.
    Modifier(Modifier),
    /// A key without text: navigation, editing, power.
    Nothing,
}

/// The table of the default layout: digits with their symbols, Dvorak-like
/// letters, and the punctuation that the Opt layer adds.
pub open spec fn spec_key_role(key: Key) -> KeyRole {
    match key {
        Key::Num1 => KeyRole::Layers {
            base: '1',
            shifted: '!',
            opt: '`',
            opt_shifted: '~',
            alphabetic: false,
        },
        Key::Num2 => KeyRole::Layers {
            base: '2',
            shifted: '@',
            opt: '2',
            opt_shifted: '@',
            alphabetic: false,
        },
        Key::Num3 => KeyRole::Layers {
            base: '3',
            shifted: '#',
            opt: '3',
            opt_shifted: '#',
            alphabetic: false,
        },
        Key::Num4 => KeyRole::Layers {
            base: '4',
            shifted: '$',
            opt: '4',
            opt_shifted: '$',
            alphabetic: false,
        },
        Key::Num5 => KeyRole::Layers {
            base: '5',
            shifted: '%',
            opt: '5',
            opt_shifted: '%',
            alphabetic: false,
        },
        Key::Num6 => KeyRole::Layers {
            base: '6',
            shifted: '^',
            opt: '6',
            opt_shifted: '^',
            alphabetic: false,
        },
        Key::Num7 => KeyRole::Layers {
            base: '7',
            shifted: '&',
            opt: '7',
            opt_shifted: '&',
            alphabetic: false,
        },
        Key::Num8 => KeyRole::Layers {
            base: '8',
            shifted: '*',
            opt: '8',
            opt_shifted: '*',
            alphabetic: false,
        },
        Key::Num9 => KeyRole::Layers {
            base: '9',
            shifted: '(',
            opt: '9',
            opt_shifted: '(',
            alphabetic: false,
        },
        Key::Num0 => KeyRole::Layers {
            base: '0',
            shifted: ')',
            opt: '0',
            opt_shifted: ')',
            alphabetic: false,
        },
        Key::Hyphen => KeyRole::Layers {
            base: '[',
            shifted: '{',
            opt: ']',
            opt_shifted: '}',
            alphabetic: false,
        },
        Key::Backspace => KeyRole::Nothing,
        Key::Tab => KeyRole::Fixed('\t'),
        Key::Q => KeyRole::Layers {
            base: '\'',
            shifted: '"',
            opt: '\'',
            opt_shifted: '"',
            alphabetic: false,
        },
        Key::W => KeyRole::Layers {
            base: ',',
            shifted: '<',
            opt: ',',
            opt_shifted: '<',
            alphabetic: false,
        },
        Key::E => KeyRole::Layers {
            base: '.',
            shifted: '>',
            opt: '.',
            opt_shifted: '>',
            alphabetic: false,
        },
        Key::R => KeyRole::Layers {
            base: 'p',
            shifted: 'P',
            opt: 'p',
            opt_shifted: 'P',
            alphabetic: true,
        },
        Key::T => KeyRole::Layers {
            base: 'y',
            shifted: 'Y',
            opt: 'y',
            opt_shifted: 'Y',
            alphabetic: true,
        },
        Key::Y => KeyRole::Layers {
            base: 'f',
            shifted: 'F',
            opt: 'f',
            opt_shifted: 'F',
            alphabetic: true,
        },
        Key::U => KeyRole::Layers {
            base: 'g',
            shifted: 'G',
            opt: 'g',
            opt_shifted: 'G',
            alphabetic: true,
        },
        Key::I => KeyRole::Layers {
            base: 'c',
            shifted: 'C',
            opt: 'c',
            opt_shifted: 'C',
            alphabetic: true,
        },
        Key::O => KeyRole::Layers {
            base: 'r',
            shifted: 'R',
            opt: 'r',
            opt_shifted: 'R',
            alphabetic: true,
        },
        Key::P => KeyRole::Layers {
            base: 'l',
            shifted: 'L',
            opt: 'l',
            opt_shifted: 'L',
            alphabetic: true,
        },
        Key::Grave => KeyRole::Layers {
            base: '/',
            shifted: '?',
            opt: '/',
            opt_shifted: '?',
            alphabetic: false,
        },
        Key::Tilde => KeyRole::Layers {
            base: '=',
            shifted: '+',
            opt: '\\',
            opt_shifted: '|',
            alphabetic: false,
        },
        Key::CapsLock => KeyRole::Modifier(Modifier::CapsLock),
        Key::A => KeyRole::Layers {
            base: 'a',
            shifted: 'A',
            opt: 'a',
            opt_shifted: 'A',
            alphabetic: true,
        },
        Key::S => KeyRole::Layers {
            base: 'o',
            shifted: 'O',
            opt: 'o',
            opt_shifted: 'O',
            alphabetic: true,
        },
        Key::D => KeyRole::Layers {
            base: 'e',
            shifted: 'E',
            opt: 'e',
            opt_shifted: 'E',
            alphabetic: true,
        },
        Key::F => KeyRole::Layers {
            base: 'u',
            shifted: 'U',
            opt: 'u',
            opt_shifted: 'U',
            alphabetic: true,
        },
        Key::G => KeyRole::Layers {
            base: 'i',
            shifted: 'I',
            opt: 'i',
            opt_shifted: 'I',
            alphabetic: true,
        },
        Key::H => KeyRole::Layers {
            base: 'd',
            shifted: 'D',
            opt: 'd',
            opt_shifted: 'D',
            alphabetic: true,
        },
        Key::J => KeyRole::Layers {
            base: 'h',
            shifted: 'H',
            opt: 'h',
            opt_shifted: 'H',
            alphabetic: true,
        },
        Key::K => KeyRole::Layers {
            base: 't',
            shifted: 'T',
            opt: 't',
            opt_shifted: 'T',
            alphabetic: true,
        },
        Key::L => KeyRole::Layers {
            base: 'n',
            shifted: 'N',
            opt: 'n',
            opt_shifted: 'N',
            alphabetic: true,
        },
        Key::Semicolon => KeyRole::Layers {
            base: 's',
            shifted: 'S',
            opt: 's',
            opt_shifted: 'S',
            alphabetic: true,
        },
        Key::Apostrophe => KeyRole::Layers {
            base: '-',
            shifted: '_',
            opt: '-',
            opt_shifted: '_',
            alphabetic: false,
        },
        Key::Enter => KeyRole::Fixed('\n'),
        Key::LeftShift => KeyRole::Modifier(Modifier::LeftShift),
        Key::Z => KeyRole::Layers {
            base: ';',
            shifted: ':',
            opt: ';',
            opt_shifted: ':',
            alphabetic: false,
        },
        Key::X => KeyRole::Layers {
            base: 'q',
            shifted: 'Q',
            opt: 'q',
            opt_shifted: 'Q',
            alphabetic: true,
        },
        Key::C => KeyRole::Layers {
            base: 'j',
            shifted: 'J',
            opt: 'j',
            opt_shifted: 'J',
            alphabetic: true,
        },
        Key::V => KeyRole::Layers {
            base: 'k',
            shifted: 'K',
            opt: 'k',
            opt_shifted: 'K',
            alphabetic: true,
        },
        Key::B => KeyRole::Layers {
            base: 'x',
            shifted: 'X',
            opt: 'x',
            opt_shifted: 'X',
            alphabetic: true,
        },
        Key::N => KeyRole::Layers {
            base: 'b',
            shifted: 'B',
            opt: 'b',
            opt_shifted: 'B',
            alphabetic: true,
        },
        Key::M => KeyRole::Layers {
            base: 'm',
            shifted: 'M',
            opt: 'm',
            opt_shifted: 'M',
            alphabetic: true,
        },
        Key::Comma => KeyRole::Layers {
            base: 'w',
            shifted: 'W',
            opt: 'w',
            opt_shifted: 'W',
            alphabetic: true,
        },
        Key::Period => KeyRole::Layers {
            base: 'v',
            shifted: 'V',
            opt: 'v',
            opt_shifted: 'V',
            alphabetic: true,
        },
        Key::Slash => KeyRole::Layers {
            base: 'z',
            shifted: 'Z',
            opt: 'z',
            opt_shifted: 'Z',
            alphabetic: true,
        },
        Key::RightShift => KeyRole::Modifier(Modifier::RightShift),
        Key::Ctrl => KeyRole::Modifier(Modifier::Ctrl),
        Key::Opt => KeyRole::Modifier(Modifier::Opt),
        Key::Alt => KeyRole::Modifier(Modifier::Alt),
        Key::Space => KeyRole::Fixed(' '),
        Key::AltOpt => KeyRole::Modifier(Modifier::AltOpt),
        Key::ArrowLeft => KeyRole::Nothing,
        Key::ArrowUp => KeyRole::Nothing,
        Key::ArrowDown => KeyRole::Nothing,
        Key::ArrowRight => KeyRole::Nothing,
        Key::Power => KeyRole::Nothing,
        Key::Escape => KeyRole::Nothing,
        Key::Insert => KeyRole::Nothing,
        Key::Delete => KeyRole::Nothing,
        Key::PageUp => KeyRole::Nothing,
        Key::PageDown => KeyRole::Nothing,
        Key::Home => KeyRole::Nothing,
        Key::End => KeyRole::Nothing,
    }
}

/// The key that AltOpt turns `scancode` into, if it has such an alternative.
pub open spec fn spec_alternative_key(scancode: Scancode) -> Option<Key> {
    match scancode {
        Scancode::Tab => Some(Key::Escape),
        Scancode::ArrowLeft => Some(Key::Home),
        Scancode::ArrowRight => Some(Key::End),
        Scancode::ArrowUp => Some(Key::PageUp),
        Scancode::ArrowDown => Some(Key::PageDown),
        Scancode::Backspace => Some(Key::Delete),
        Scancode::Enter => Some(Key::Insert),
        _ => None,
    }
}

/// The character that a layered key types under `modifiers`.
pub open spec fn spec_pick_layer(role: KeyRole, modifiers: Modifiers) -> char
    recommends
        role is Layers,
{
    if modifiers.has(Modifier::Opt) {
        if modifiers.spec_shift(false) {
            role->opt_shifted
        } else {
            role->opt
        }
    } else if modifiers.spec_shift(role->alphabetic) {
        role->shifted
    } else {
        role->base
    }
}

/// A string that holds the single character `c`.
///
/// Wraps `String::from` for a `char`, which the standard library documents
/// as allocating an owned string from a single character.
#[verifier::external_body]
fn text_of(c: char) -> (text: String)
    ensures
        text@ == seq![c],
{
    String::from(c)
}

/// The layout of the attachable keyboard.
#[derive(Debug, Clone, Copy)]
pub struct DefaultLayout;

impl DefaultLayout {
    /// What `key` stands for, by the table of this layout.
    #[must_use]
    pub fn key_role(key: Key) -> (role: KeyRole)
        ensures
            role == spec_key_role(key),
    {
        match key {
            Key::Num1 => KeyRole::Layers {
                base: '1',
                shifted: '!',
                opt: '`',
                opt_shifted: '~',
                alphabetic: false,
            },
            Key::Num2 => KeyRole::Layers {
                base: '2',
                shifted: '@',
                opt: '2',
                opt_shifted: '@',
                alphabetic: false,
            },
            Key::Num3 => KeyRole::Layers {
                base: '3',
                shifted: '#',
                opt: '3',
                opt_shifted: '#',
                alphabetic: false,
            },
            Key::Num4 => KeyRole::Layers {
                base: '4',
                shifted: '$',
                opt: '4',
                opt_shifted: '$',
                alphabetic: false,
            },
            Key::Num5 => KeyRole::Layers {
                base: '5',
                shifted: '%',
                opt: '5',
                opt_shifted: '%',
                alphabetic: false,
            },
            Key::Num6 => KeyRole::Layers {
                base: '6',
                shifted: '^',
                opt: '6',
                opt_shifted: '^',
                alphabetic: false,
            },
            Key::Num7 => KeyRole::Layers {
                base: '7',
                shifted: '&',
                opt: '7',
                opt_shifted: '&',
                alphabetic: false,
            },
            Key::Num8 => KeyRole::Layers {
                base: '8',
                shifted: '*',
                opt: '8',
                opt_shifted: '*',
                alphabetic: false,
            },
            Key::Num9 => KeyRole::Layers {
                base: '9',
                shifted: '(',
                opt: '9',
                opt_shifted: '(',
                alphabetic: false,
            },
            Key::Num0 => KeyRole::Layers {
                base: '0',
                shifted: ')',
                opt: '0',
                opt_shifted: ')',
                alphabetic: false,
            },
            Key::Hyphen => KeyRole::Layers {
                base: '[',
                shifted: '{',
                opt: ']',
                opt_shifted: '}',
                alphabetic: false,
            },
            Key::Backspace => KeyRole::Nothing,
            Key::Tab => KeyRole::Fixed('\t'),
            Key::Q => KeyRole::Layers {
                base: '\'',
                shifted: '"',
                opt: '\'',
                opt_shifted: '"',
                alphabetic: false,
            },
            Key::W => KeyRole::Layers {
                base: ',',
                shifted: '<',
                opt: ',',
                opt_shifted: '<',
                alphabetic: false,
            },
            Key::E => KeyRole::Layers {
                base: '.',
                shifted: '>',
                opt: '.',
                opt_shifted: '>',
                alphabetic: false,
            },
            Key::R => KeyRole::Layers {
                base: 'p',
                shifted: 'P',
                opt: 'p',
                opt_shifted: 'P',
                alphabetic: true,
            },
            Key::T => KeyRole::Layers {
                base: 'y',
                shifted: 'Y',
                opt: 'y',
                opt_shifted: 'Y',
                alphabetic: true,
            },
            Key::Y => KeyRole::Layers {
                base: 'f',
                shifted: 'F',
                opt: 'f',
                opt_shifted: 'F',
                alphabetic: true,
            },
            Key::U => KeyRole::Layers {
                base: 'g',
                shifted: 'G',
                opt: 'g',
                opt_shifted: 'G',
                alphabetic: true,
            },
            Key::I => KeyRole::Layers {
                base: 'c',
                shifted: 'C',
                opt: 'c',
                opt_shifted: 'C',
                alphabetic: true,
            },
            Key::O => KeyRole::Layers {
                base: 'r',
                shifted: 'R',
                opt: 'r',
                opt_shifted: 'R',
                alphabetic: true,
            },
            Key::P => KeyRole::Layers {
                base: 'l',
                shifted: 'L',
                opt: 'l',
                opt_shifted: 'L',
                alphabetic: true,
            },
            Key::Grave => KeyRole::Layers {
                base: '/',
                shifted: '?',
                opt: '/',
                opt_shifted: '?',
                alphabetic: false,
            },
            Key::Tilde => KeyRole::Layers {
                base: '=',
                shifted: '+',
                opt: '\\',
                opt_shifted: '|',
                alphabetic: false,
            },
            Key::CapsLock => KeyRole::Modifier(Modifier::CapsLock),
            Key::A => KeyRole::Layers {
                base: 'a',
                shifted: 'A',
                opt: 'a',
                opt_shifted: 'A',
                alphabetic: true,
            },
            Key::S => KeyRole::Layers {
                base: 'o',
                shifted: 'O',
                opt: 'o',
                opt_shifted: 'O',
                alphabetic: true,
            },
            Key::D => KeyRole::Layers {
                base: 'e',
                shifted: 'E',
                opt: 'e',
                opt_shifted: 'E',
                alphabetic: true,
            },
            Key::F => KeyRole::Layers {
                base: 'u',
                shifted: 'U',
                opt: 'u',
                opt_shifted: 'U',
                alphabetic: true,
            },
            Key::G => KeyRole::Layers {
                base: 'i',
                shifted: 'I',
                opt: 'i',
                opt_shifted: 'I',
                alphabetic: true,
            },
            Key::H => KeyRole::Layers {
                base: 'd',
                shifted: 'D',
                opt: 'd',
                opt_shifted: 'D',
                alphabetic: true,
            },
            Key::J => KeyRole::Layers {
                base: 'h',
                shifted: 'H',
                opt: 'h',
                opt_shifted: 'H',
                alphabetic: true,
            },
            Key::K => KeyRole::Layers {
                base: 't',
                shifted: 'T',
                opt: 't',
                opt_shifted: 'T',
                alphabetic: true,
            },
            Key::L => KeyRole::Layers {
                base: 'n',
                shifted: 'N',
                opt: 'n',
                opt_shifted: 'N',
                alphabetic: true,
            },
            Key::Semicolon => KeyRole::Layers {
                base: 's',
                shifted: 'S',
                opt: 's',
                opt_shifted: 'S',
                alphabetic: true,
            },
            Key::Apostrophe => KeyRole::Layers {
                base: '-',
                shifted: '_',
                opt: '-',
                opt_shifted: '_',
                alphabetic: false,
            },
            Key::Enter => KeyRole::Fixed('\n'),
            Key::LeftShift => KeyRole::Modifier(Modifier::LeftShift),
            Key::Z => KeyRole::Layers {
                base: ';',
                shifted: ':',
                opt: ';',
                opt_shifted: ':',
                alphabetic: false,
            },
            Key::X => KeyRole::Layers {
                base: 'q',
                shifted: 'Q',
                opt: 'q',
                opt_shifted: 'Q',
                alphabetic: true,
            },
            Key::C => KeyRole::Layers {
                base: 'j',
                shifted: 'J',
                opt: 'j',
                opt_shifted: 'J',
                alphabetic: true,
            },
            Key::V => KeyRole::Layers {
                base: 'k',
                shifted: 'K',
                opt: 'k',
                opt_shifted: 'K',
                alphabetic: true,
            },
            Key::B => KeyRole::Layers {
                base: 'x',
                shifted: 'X',
                opt: 'x',
                opt_shifted: 'X',
                alphabetic: true,
            },
            Key::N => KeyRole::Layers {
                base: 'b',
                shifted: 'B',
                opt: 'b',
                opt_shifted: 'B',
                alphabetic: true,
            },
            Key::M => KeyRole::Layers {
                base: 'm',
                shifted: 'M',
                opt: 'm',
                opt_shifted: 'M',
                alphabetic: true,
            },
            Key::Comma => KeyRole::Layers {
                base: 'w',
                shifted: 'W',
                opt: 'w',
                opt_shifted: 'W',
                alphabetic: true,
            },
            Key::Period => KeyRole::Layers {
                base: 'v',
                shifted: 'V',
                opt: 'v',
                opt_shifted: 'V',
                alphabetic: true,
            },
            Key::Slash => KeyRole::Layers {
                base: 'z',
                shifted: 'Z',
                opt: 'z',
                opt_shifted: 'Z',
                alphabetic: true,
            },
            Key::RightShift => KeyRole::Modifier(Modifier::RightShift),
            Key::Ctrl => KeyRole::Modifier(Modifier::Ctrl),
            Key::Opt => KeyRole::Modifier(Modifier::Opt),
            Key::Alt => KeyRole::Modifier(Modifier::Alt),
            Key::Space => KeyRole::Fixed(' '),
            Key::AltOpt => KeyRole::Modifier(Modifier::AltOpt),
            Key::ArrowLeft => KeyRole::Nothing,
            Key::ArrowUp => KeyRole::Nothing,
            Key::ArrowDown => KeyRole::Nothing,
            Key::ArrowRight => KeyRole::Nothing,
            Key::Power => KeyRole::Nothing,
            Key::Escape => KeyRole::Nothing,
            Key::Insert => KeyRole::Nothing,
            Key::Delete => KeyRole::Nothing,
            Key::PageUp => KeyRole::Nothing,
            Key::PageDown => KeyRole::Nothing,
            Key::Home => KeyRole::Nothing,
            Key::End => KeyRole::Nothing,
        }
    }
}

impl KeyboardLayout for DefaultLayout {
    /// With AltOpt held, a key that has an alternative stands for it, and Opt
    /// is consumed from the snapshot; every other keystroke is the key's base
    /// state and leaves the snapshot alone.
    open spec fn spec_scancode_to_key(&self, scancode: Scancode, modifiers: Modifiers) -> (
        Option<Key>,
        Modifiers,
    ) {
        if modifiers.has(Modifier::AltOpt) && spec_alternative_key(scancode).is_some() {
            (
                spec_alternative_key(scancode),
                modifiers.spec_difference(Modifiers::spec_just(Modifier::Opt)),
            )
        } else {
            (Some(scancode.spec_to_key_base()), modifiers)
        }
    }

    open spec fn spec_resolve(&self, key: Key, modifiers: Modifiers) -> ResolvedView {
        match spec_key_role(key) {
            KeyRole::Layers { .. } => ResolvedView::Text(
                seq![spec_pick_layer(spec_key_role(key), modifiers)],
            ),
            KeyRole::Fixed(c) => ResolvedView::Text(seq![c]),
            KeyRole::Modifier(modifier) => ResolvedView::Modifier(modifier),
            KeyRole::Nothing => ResolvedView::NoneOfThese,
        }
    }

    fn scancode_to_key(&self, scancode: Scancode, modifiers: &mut Modifiers) -> (key: Option<Key>) {
        // We are using AltOpt as the accessor for alternative keys.
        if modifiers.contains(Modifier::AltOpt) {
            let key = match scancode {
                Scancode::Tab => Some(Key::Escape),
                Scancode::ArrowLeft => Some(Key::Home),
                Scancode::ArrowRight => Some(Key::End),
                Scancode::ArrowUp => Some(Key::PageUp),
                Scancode::ArrowDown => Some(Key::PageDown),
                Scancode::Backspace => Some(Key::Delete),
                Scancode::Enter => Some(Key::Insert),
                _ => None,
            };
            if key.is_some() {
                *modifiers = *modifiers - Modifier::Opt;
                return key;
            }
        }
        Some(scancode.to_key_base())
    }

    fn resolve(&self, key: Key, modifiers: Modifiers) -> (resolved: Resolved) {
        match DefaultLayout::key_role(key) {
            KeyRole::Layers { base, shifted, opt, opt_shifted, alphabetic } => {
                let c = if modifiers.opt() {
                    if modifiers.shift(false) {
                        opt_shifted
                    } else {
                        opt
                    }
                } else if modifiers.shift(alphabetic) {
                    shifted
                } else {
                    base
                };
                Resolved::Text(text_of(c))
            },
            KeyRole::Fixed(c) => Resolved::Text(text_of(c)),
            KeyRole::Modifier(modifier) => Resolved::Modifier(modifier),
            KeyRole::Nothing => Resolved::NoneOfThese,
        }
    }
}

} // verus!
