//! What a keystroke means to the composition controller.

use vstd::prelude::*;

verus! {

#[derive(Clone, Copy, Debug, PartialEq, Eq, Structural)]
pub enum Navigation {
    Left,
    Right,
    Up,
    Down,
}

#[derive(Clone, Copy, Debug, PartialEq, Eq, Structural)]
pub enum UserAction {
    /// A character to spell with.
    Input(char),
    /// A digit key, by the digit's value.
    Number(u8),
    Navigation(Navigation),
    Backspace,
    Enter,
    Escape,
    ToggleInputMode,
}

/// The modifier keys held down together with a key.
#[derive(Clone, Copy, Debug, PartialEq, Eq, Structural)]
pub struct Modifiers {
    pub control: bool,
    pub shift: bool,
}

// Virtual-key codes, as the host delivers them with a key event.
pub const KEY_BACK: usize = 0x08;

pub const KEY_RETURN: usize = 0x0D;

/// The kanji key and the two half-width/full-width keys switch the input
/// mode.
pub const KEY_KANJI: usize = 0x19;

pub const KEY_ESCAPE: usize = 0x1B;

pub const KEY_LEFT: usize = 0x25;

pub const KEY_UP: usize = 0x26;

pub const KEY_RIGHT: usize = 0x27;

pub const KEY_DOWN: usize = 0x28;

pub const KEY_0: usize = 0x30;

pub const KEY_9: usize = 0x39;

pub const KEY_A: usize = 0x41;

pub const KEY_Z: usize = 0x5A;

pub const KEY_NUMPAD0: usize = 0x60;

pub const KEY_NUMPAD9: usize = 0x69;

/// The comma, minus and period keys type the same character on every
/// keyboard layout.
pub const KEY_COMMA: usize = 0xBC;

pub const KEY_MINUS: usize = 0xBD;

pub const KEY_PERIOD: usize = 0xBE;

pub const KEY_HANKAKU: usize = 0xF3;

pub const KEY_ZENKAKU: usize = 0xF4;

/// The letter that the `index`-th letter key types: a capital while shift is
/// held, a small letter otherwise.
pub open spec fn letter(index: int, shift: bool) -> char
    recommends
        0 <= index < 26,
{
    if shift {
        (0x41 + index) as char
    } else {
        (0x61 + index) as char
    }
}

/// The meaning of a virtual-key code under the given modifiers, or `None`
/// for a key that means nothing to composition.
///
/// A key pressed together with control is a shortcut of the host and never
/// composition input. Digits and punctuation are read without shift only:
/// what they type with shift depends on the keyboard layout.
pub open spec fn classified(raw_key: usize, modifiers: Modifiers) -> Option<UserAction> {
    if modifiers.control {
        None
    } else if raw_key == KEY_BACK {
        Some(UserAction::Backspace)
    } else if raw_key == KEY_RETURN {
        Some(UserAction::Enter)
    } else if raw_key == KEY_ESCAPE {
        Some(UserAction::Escape)
    } else if raw_key == KEY_LEFT {
        Some(UserAction::Navigation(Navigation::Left))
    } else if raw_key == KEY_UP {
        Some(UserAction::Navigation(Navigation::Up))
    } else if raw_key == KEY_RIGHT {
        Some(UserAction::Navigation(Navigation::Right))
    } else if raw_key == KEY_DOWN {
        Some(UserAction::Navigation(Navigation::Down))
    } else if raw_key == KEY_KANJI || raw_key == KEY_HANKAKU || raw_key == KEY_ZENKAKU {
        Some(UserAction::ToggleInputMode)
    } else if KEY_A <= raw_key <= KEY_Z {
        Some(UserAction::Input(letter(raw_key - KEY_A, modifiers.shift)))
    } else if KEY_NUMPAD0 <= raw_key <= KEY_NUMPAD9 {
        Some(UserAction::Number((raw_key - KEY_NUMPAD0) as u8))
    } else if modifiers.shift {
        None
    } else if KEY_0 <= raw_key <= KEY_9 {
        Some(UserAction::Number((raw_key - KEY_0) as u8))
    } else if raw_key == KEY_COMMA {
        Some(UserAction::Input(','))
    } else if raw_key == KEY_MINUS {
        Some(UserAction::Input('-'))
    } else if raw_key == KEY_PERIOD {
        Some(UserAction::Input('.'))
    } else {
        None
    }
}

/// Classifies a keystroke. Every key code has an answer; `None` says that
/// the key is not composition input and belongs to the host.
pub fn classify(raw_key: usize, modifiers: Modifiers) -> (r: Option<UserAction>)
    ensures
        r == classified(raw_key, modifiers),
{
    if modifiers.control {
        return None;
    }
    match raw_key {
        KEY_BACK => Some(UserAction::Backspace),
        KEY_RETURN => Some(UserAction::Enter),
        KEY_ESCAPE => Some(UserAction::Escape),
        KEY_LEFT => Some(UserAction::Navigation(Navigation::Left)),
        KEY_UP => Some(UserAction::Navigation(Navigation::Up)),
        KEY_RIGHT => Some(UserAction::Navigation(Navigation::Right)),
        KEY_DOWN => Some(UserAction::Navigation(Navigation::Down)),
        KEY_KANJI | KEY_HANKAKU | KEY_ZENKAKU => Some(UserAction::ToggleInputMode),
        KEY_A..=KEY_Z => {
            let index: u8 = (raw_key - KEY_A) as u8;
            let base: u8 = if modifiers.shift {
                0x41
            } else {
                0x61
            };
            Some(UserAction::Input((base + index) as char))
        },
        KEY_NUMPAD0..=KEY_NUMPAD9 => Some(UserAction::Number((raw_key - KEY_NUMPAD0) as u8)),
        _ => {
            if modifiers.shift {
                None
            } else {
                match raw_key {
                    KEY_0..=KEY_9 => Some(UserAction::Number((raw_key - KEY_0) as u8)),
                    KEY_COMMA => Some(UserAction::Input(',')),
                    KEY_MINUS => Some(UserAction::Input('-')),
                    KEY_PERIOD => Some(UserAction::Input('.')),
                    _ => None,
                }
            }
        },
    }
}

/// A classified digit is a single decimal digit, and a classified letter is
/// an ASCII letter.
pub proof fn lemma_classified_values(raw_key: usize, modifiers: Modifiers)
    ensures
        classified(raw_key, modifiers) matches Some(UserAction::Number(n)) ==> n <= 9,
        classified(raw_key, modifiers) matches Some(UserAction::Input(c)) ==> c as u32 <= 0x7F,
        modifiers.control ==> classified(raw_key, modifiers) is None,
{
}

} // verus!
