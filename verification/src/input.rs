//! Keyboard input: which bytes a key press sends to the PTY.

use vstd::prelude::*;

verus! {

/// The keys that the terminal tells apart by their position.
#[derive(Debug, Clone, Copy, PartialEq, Eq, Structural)]
pub enum KeyCode {
    Enter,
    Backspace,
    Escape,
    Tab,
    ArrowUp,
    ArrowDown,
    ArrowRight,
    ArrowLeft,
    KeyC,
    KeyV,
    Other,
}

/// The modifier keys held during a key press.
#[derive(Debug, Clone, Copy, PartialEq, Eq, Structural)]
pub struct Modifiers {
    pub control: bool,
    pub shift: bool,
    pub super_key: bool,
}

/// A key press: the key's position, the first character of the key's
/// meaning in lower case, if it has one, and the text that the press
/// produces, which may be empty.
#[derive(Debug, Clone)]
pub struct KeyPress {
    pub code: KeyCode,
    pub letter: Option<char>,
    pub text: Vec<u8>,
}

/// What a key press asks for.
#[derive(Debug, Clone, PartialEq, Eq)]
pub enum KeyAction {
    /// Copy the selection to the clipboard.
    Copy,
    /// Send the clipboard's text to the PTY.
    Paste,
    /// Send these bytes to the PTY.
    Send(Vec<u8>),
    /// Nothing.
    Nothing,
}

/// Mathematical value of a [`KeyAction`].
pub enum KeyActionModel {
    Copy,
    Paste,
    Send(Seq<u8>),
    Nothing,
}

impl View for KeyAction {
    type V = KeyActionModel;

    open spec fn view(&self) -> KeyActionModel {
        match self {
            KeyAction::Copy => KeyActionModel::Copy,
            KeyAction::Paste => KeyActionModel::Paste,
            KeyAction::Send(bytes) => KeyActionModel::Send(bytes@),
            KeyAction::Nothing => KeyActionModel::Nothing,
        }
    }
}

/// Whether the shortcut modifier is held: the super key where
/// `shortcut_is_super` is set, control together with shift elsewhere.
pub open spec fn shortcut_held(mods: Modifiers, shortcut_is_super: bool) -> bool {
    if shortcut_is_super {
        mods.super_key
    } else {
        mods.control && mods.shift
    }
}

/// The bytes of a special key: carriage return for Enter, delete for
/// Backspace, escape for Escape, a tab for Tab and the back-tab sequence for
/// Tab with shift, and the cursor sequences for the arrows. Other keys have
/// none.
pub open spec fn special_bytes(code: KeyCode, shift: bool) -> Seq<u8> {
    match code {
        KeyCode::Enter => seq![0x0Du8],
        KeyCode::Backspace => seq![0x7Fu8],
        KeyCode::Escape => seq![0x1Bu8],
        KeyCode::Tab => if shift {
            seq![0x1Bu8, 0x5Bu8, 0x5Au8]
        } else {
            seq![0x09u8]
        },
        KeyCode::ArrowUp => seq![0x1Bu8, 0x5Bu8, 0x41u8],
        KeyCode::ArrowDown => seq![0x1Bu8, 0x5Bu8, 0x42u8],
        KeyCode::ArrowRight => seq![0x1Bu8, 0x5Bu8, 0x43u8],
        KeyCode::ArrowLeft => seq![0x1Bu8, 0x5Bu8, 0x44u8],
        _ => Seq::empty(),
    }
}

/// The bytes of a key press without a modifier combination: those of a
/// special key, or else the text of the press.
pub open spec fn plain_bytes(code: KeyCode, shift: bool, text: Seq<u8>) -> Seq<u8> {
    if special_bytes(code, shift).len() > 0 {
        special_bytes(code, shift)
    } else {
        text
    }
}

/// Whether `c` is one of the letters `a` to `z`.
pub open spec fn is_lower_letter(c: char) -> bool {
    'a' <= c && c <= 'z'
}

/// The control byte of a letter: 1 for `a` up to 26 for `z`.
pub open spec fn control_byte(c: char) -> u8 {
    (c as u32 - 'a' as u32 + 1) as u8
}

/// Sending `bytes`, or nothing where there are none.
pub open spec fn send_or_nothing(bytes: Seq<u8>) -> KeyActionModel {
    if bytes.len() > 0 {
        KeyActionModel::Send(bytes)
    } else {
        KeyActionModel::Nothing
    }
}

/// What a key press asks for. With the shortcut modifier, C copies and V
/// pastes. With control alone, a letter sends its control byte. Otherwise,
/// and for other keys with a modifier, a special key sends its bytes and any
/// other key its text, if it has any.
pub open spec fn key_action_spec(
    code: KeyCode,
    letter: Option<char>,
    text: Seq<u8>,
    mods: Modifiers,
    shortcut_is_super: bool,
) -> KeyActionModel {
    if shortcut_held(mods, shortcut_is_super) {
        if code == KeyCode::KeyC {
            KeyActionModel::Copy
        } else if code == KeyCode::KeyV {
            KeyActionModel::Paste
        } else {
            send_or_nothing(plain_bytes(code, mods.shift, text))
        }
    } else if mods.control && letter is Some && is_lower_letter(letter->0) {
        KeyActionModel::Send(seq![control_byte(letter->0)])
    } else {
        send_or_nothing(plain_bytes(code, mods.shift, text))
    }
}

/// The bytes of a special key, empty for any other key.
fn special_key_bytes(code: KeyCode, shift: bool) -> (bytes: Vec<u8>)
    ensures
        bytes@ == special_bytes(code, shift),
{
    let mut bytes: Vec<u8> = Vec::new();
    match code {
        KeyCode::Enter => {
            bytes.push(0x0D);
        },
        KeyCode::Backspace => {
            bytes.push(0x7F);
        },
        KeyCode::Escape => {
            bytes.push(0x1B);
        },
        KeyCode::Tab => {
            if shift {
                bytes.push(0x1B);
                bytes.push(0x5B);
                bytes.push(0x5A);
            } else {
                bytes.push(0x09);
            }
        },
        KeyCode::ArrowUp => {
            bytes.push(0x1B);
            bytes.push(0x5B);
            bytes.push(0x41);
        },
        KeyCode::ArrowDown => {
            bytes.push(0x1B);
            bytes.push(0x5B);
            bytes.push(0x42);
        },
        KeyCode::ArrowRight => {
            bytes.push(0x1B);
            bytes.push(0x5B);
            bytes.push(0x43);
        },
        KeyCode::ArrowLeft => {
            bytes.push(0x1B);
            bytes.push(0x5B);
            bytes.push(0x44);
        },
        _ => {},
    }
    assert(bytes@ =~= special_bytes(code, shift));
    bytes
}

/// The bytes that a key press sends when no modifier combination applies:
/// those of a special key, or else the text of the press.
pub fn plain_key_bytes(press: &KeyPress, mods: Modifiers) -> (bytes: Vec<u8>)
    ensures
        bytes@ == plain_bytes(press.code, mods.shift, press.text@),
{
    let special = special_key_bytes(press.code, mods.shift);
    if special.len() > 0 {
        special
    } else {
        press.text.clone()
    }
}

/// Decides what a key press asks for.
pub fn key_action(press: &KeyPress, mods: Modifiers, shortcut_is_super: bool) -> (action: KeyAction)
    ensures
        action@ == key_action_spec(press.code, press.letter, press.text@, mods, shortcut_is_super),
{
    let shortcut = if shortcut_is_super {
        mods.super_key
    } else {
        mods.control && mods.shift
    };
    if shortcut {
        match press.code {
            KeyCode::KeyC => {
                return KeyAction::Copy;
            },
            KeyCode::KeyV => {
                return KeyAction::Paste;
            },
            _ => {},
        }
    } else if mods.control {
        match press.letter {
            Some(c) => {
                if 'a' <= c && c <= 'z' {
                    let byte = (c as u32 - 'a' as u32 + 1) as u8;
                    let mut bytes: Vec<u8> = Vec::new();
                    bytes.push(byte);
                    assert(bytes@ =~= seq![control_byte(c)]);
                    return KeyAction::Send(bytes);
                }
            },
            None => {},
        }
    }
    let bytes = plain_key_bytes(press, mods);
    if bytes.len() > 0 {
        KeyAction::Send(bytes)
    } else {
        KeyAction::Nothing
    }
}

} // verus!
