use vstd::prelude::*;

use crate::text::{char_from_u32, char_to_string, is_scalar_value};

verus! {
/// The physical keys a VST3 host reports by virtual key code, named as in the
/// W3C UI Events `code` values.
#[derive(Clone, Copy, Debug, PartialEq, Eq, Structural)]
pub enum KeyCode {
    Backspace,
    Tab,
    Enter,
    Escape,
    Space,
    End,
    Home,
    ArrowLeft,
    ArrowUp,
    ArrowRight,
    ArrowDown,
    PageUp,
    PageDown,
    NumpadEnter,
    Insert,
    Delete,
    Numpad0,
    Numpad1,
    Numpad2,
    Numpad3,
    Numpad4,
    Numpad5,
    Numpad6,
    Numpad7,
    Numpad8,
    Numpad9,
    NumpadMultiply,
    NumpadAdd,
    NumpadSubtract,
    NumpadComma,
    NumpadDivide,
    F1,
    F2,
    F3,
    F4,
    F5,
    F6,
    F7,
    F8,
    F9,
    F10,
    F11,
    F12,
    Equal,
    ContextMenu,
    Unidentified,
}

pub const KEY_BACK: i32 = 1;

pub const KEY_TAB: i32 = 2;

pub const KEY_RETURN: i32 = 4;

pub const KEY_ESCAPE: i32 = 6;

pub const KEY_SPACE: i32 = 7;

pub const KEY_END: i32 = 9;

pub const KEY_HOME: i32 = 10;

pub const KEY_LEFT: i32 = 11;

pub const KEY_UP: i32 = 12;

pub const KEY_RIGHT: i32 = 13;

pub const KEY_DOWN: i32 = 14;

pub const KEY_PAGEUP: i32 = 15;

pub const KEY_PAGEDOWN: i32 = 16;

pub const KEY_ENTER: i32 = 19;

pub const KEY_INSERT: i32 = 21;

pub const KEY_DELETE: i32 = 22;

pub const KEY_NUMPAD0: i32 = 24;

pub const KEY_NUMPAD1: i32 = 25;

pub const KEY_NUMPAD2: i32 = 26;

pub const KEY_NUMPAD3: i32 = 27;

pub const KEY_NUMPAD4: i32 = 28;

pub const KEY_NUMPAD5: i32 = 29;

pub const KEY_NUMPAD6: i32 = 30;

pub const KEY_NUMPAD7: i32 = 31;

pub const KEY_NUMPAD8: i32 = 32;

pub const KEY_NUMPAD9: i32 = 33;

pub const KEY_MULTIPLY: i32 = 34;

pub const KEY_ADD: i32 = 35;

pub const KEY_SUBTRACT: i32 = 37;

pub const KEY_DECIMAL: i32 = 38;

pub const KEY_DIVIDE: i32 = 39;

pub const KEY_F1: i32 = 40;

pub const KEY_F2: i32 = 41;

pub const KEY_F3: i32 = 42;

pub const KEY_F4: i32 = 43;

pub const KEY_F5: i32 = 44;

pub const KEY_F6: i32 = 45;

pub const KEY_F7: i32 = 46;

pub const KEY_F8: i32 = 47;

pub const KEY_F9: i32 = 48;

pub const KEY_F10: i32 = 49;

pub const KEY_F11: i32 = 50;

pub const KEY_F12: i32 = 51;

pub const KEY_EQUALS: i32 = 57;

pub const KEY_CONTEXTMENU: i32 = 58;

/// The key a VST3 virtual key code stands for; codes without a key here are unidentified.
pub open spec fn key_code_of(code: i32) -> KeyCode {
    if code == KEY_BACK {
        KeyCode::Backspace
    } else if code == KEY_TAB {
        KeyCode::Tab
    } else if code == KEY_RETURN {
        KeyCode::Enter
    } else if code == KEY_ESCAPE {
        KeyCode::Escape
    } else if code == KEY_SPACE {
        KeyCode::Space
    } else if code == KEY_END {
        KeyCode::End
    } else if code == KEY_HOME {
        KeyCode::Home
    } else if code == KEY_LEFT {
        KeyCode::ArrowLeft
    } else if code == KEY_UP {
        KeyCode::ArrowUp
    } else if code == KEY_RIGHT {
        KeyCode::ArrowRight
    } else if code == KEY_DOWN {
        KeyCode::ArrowDown
    } else if code == KEY_PAGEUP {
        KeyCode::PageUp
    } else if code == KEY_PAGEDOWN {
        KeyCode::PageDown
    } else if code == KEY_ENTER {
        KeyCode::NumpadEnter
    } else if code == KEY_INSERT {
        KeyCode::Insert
    } else if code == KEY_DELETE {
        KeyCode::Delete
    } else if code == KEY_NUMPAD0 {
        KeyCode::Numpad0
    } else if code == KEY_NUMPAD1 {
        KeyCode::Numpad1
    } else if code == KEY_NUMPAD2 {
        KeyCode::Numpad2
    } else if code == KEY_NUMPAD3 {
        KeyCode::Numpad3
    } else if code == KEY_NUMPAD4 {
        KeyCode::Numpad4
    } else if code == KEY_NUMPAD5 {
        KeyCode::Numpad5
    } else if code == KEY_NUMPAD6 {
        KeyCode::Numpad6
    } else if code == KEY_NUMPAD7 {
        KeyCode::Numpad7
    } else if code == KEY_NUMPAD8 {
        KeyCode::Numpad8
    } else if code == KEY_NUMPAD9 {
        KeyCode::Numpad9
    } else if code == KEY_MULTIPLY {
        KeyCode::NumpadMultiply
    } else if code == KEY_ADD {
        KeyCode::NumpadAdd
    } else if code == KEY_SUBTRACT {
        KeyCode::NumpadSubtract
    } else if code == KEY_DECIMAL {
        KeyCode::NumpadComma
    } else if code == KEY_DIVIDE {
        KeyCode::NumpadDivide
    } else if code == KEY_F1 {
        KeyCode::F1
    } else if code == KEY_F2 {
        KeyCode::F2
    } else if code == KEY_F3 {
        KeyCode::F3
    } else if code == KEY_F4 {
        KeyCode::F4
    } else if code == KEY_F5 {
        KeyCode::F5
    } else if code == KEY_F6 {
        KeyCode::F6
    } else if code == KEY_F7 {
        KeyCode::F7
    } else if code == KEY_F8 {
        KeyCode::F8
    } else if code == KEY_F9 {
        KeyCode::F9
    } else if code == KEY_F10 {
        KeyCode::F10
    } else if code == KEY_F11 {
        KeyCode::F11
    } else if code == KEY_F12 {
        KeyCode::F12
    } else if code == KEY_EQUALS {
        KeyCode::Equal
    } else if code == KEY_CONTEXTMENU {
        KeyCode::ContextMenu
    } else {
        KeyCode::Unidentified
    }
}

/// The VST3 virtual key code of each key, the table of the VST3 SDK's `VirtualKeyCodes`;
/// `None` for a key VST3 has no code for here.
pub open spec fn vst3_virtual_key(key: KeyCode) -> Option<i32> {
    match key {
        KeyCode::Backspace => Some(KEY_BACK),
        KeyCode::Tab => Some(KEY_TAB),
        KeyCode::Enter => Some(KEY_RETURN),
        KeyCode::Escape => Some(KEY_ESCAPE),
        KeyCode::Space => Some(KEY_SPACE),
        KeyCode::End => Some(KEY_END),
        KeyCode::Home => Some(KEY_HOME),
        KeyCode::ArrowLeft => Some(KEY_LEFT),
        KeyCode::ArrowUp => Some(KEY_UP),
        KeyCode::ArrowRight => Some(KEY_RIGHT),
        KeyCode::ArrowDown => Some(KEY_DOWN),
        KeyCode::PageUp => Some(KEY_PAGEUP),
        KeyCode::PageDown => Some(KEY_PAGEDOWN),
        KeyCode::NumpadEnter => Some(KEY_ENTER),
        KeyCode::Insert => Some(KEY_INSERT),
        KeyCode::Delete => Some(KEY_DELETE),
        KeyCode::Numpad0 => Some(KEY_NUMPAD0),
        KeyCode::Numpad1 => Some(KEY_NUMPAD1),
        KeyCode::Numpad2 => Some(KEY_NUMPAD2),
        KeyCode::Numpad3 => Some(KEY_NUMPAD3),
        KeyCode::Numpad4 => Some(KEY_NUMPAD4),
        KeyCode::Numpad5 => Some(KEY_NUMPAD5),
        KeyCode::Numpad6 => Some(KEY_NUMPAD6),
        KeyCode::Numpad7 => Some(KEY_NUMPAD7),
        KeyCode::Numpad8 => Some(KEY_NUMPAD8),
        KeyCode::Numpad9 => Some(KEY_NUMPAD9),
        KeyCode::NumpadMultiply => Some(KEY_MULTIPLY),
        KeyCode::NumpadAdd => Some(KEY_ADD),
        KeyCode::NumpadSubtract => Some(KEY_SUBTRACT),
        KeyCode::NumpadComma => Some(KEY_DECIMAL),
        KeyCode::NumpadDivide => Some(KEY_DIVIDE),
        KeyCode::F1 => Some(KEY_F1),
        KeyCode::F2 => Some(KEY_F2),
        KeyCode::F3 => Some(KEY_F3),
        KeyCode::F4 => Some(KEY_F4),
        KeyCode::F5 => Some(KEY_F5),
        KeyCode::F6 => Some(KEY_F6),
        KeyCode::F7 => Some(KEY_F7),
        KeyCode::F8 => Some(KEY_F8),
        KeyCode::F9 => Some(KEY_F9),
        KeyCode::F10 => Some(KEY_F10),
        KeyCode::F11 => Some(KEY_F11),
        KeyCode::F12 => Some(KEY_F12),
        KeyCode::Equal => Some(KEY_EQUALS),
        KeyCode::ContextMenu => Some(KEY_CONTEXTMENU),
        KeyCode::Unidentified => None,
    }
}

/// Every key with a VST3 virtual key code is what that code translates to, and a code
/// that translates to a key is that key's code: the translation is the table above, one
/// to one, and every other code is unidentified.
pub proof fn lemma_key_codes_follow_vst3_table(key: KeyCode, code: i32)
    ensures
        vst3_virtual_key(key) matches Some(c) ==> key_code_of(c) == key,
        key_code_of(code) != KeyCode::Unidentified ==> vst3_virtual_key(key_code_of(code)) == Some(code),
        key_code_of(code) == KeyCode::Unidentified ==> forall|k: KeyCode| #[trigger] vst3_virtual_key(k) != Some(code),
{
}

/// Maps a VST3 virtual key code to the key it stands for.
pub fn to_key_code(code: i32) -> (key: KeyCode)
    ensures
        key == key_code_of(code),
{
    if code == KEY_BACK {
        KeyCode::Backspace
    } else if code == KEY_TAB {
        KeyCode::Tab
    } else if code == KEY_RETURN {
        KeyCode::Enter
    } else if code == KEY_ESCAPE {
        KeyCode::Escape
    } else if code == KEY_SPACE {
        KeyCode::Space
    } else if code == KEY_END {
        KeyCode::End
    } else if code == KEY_HOME {
        KeyCode::Home
    } else if code == KEY_LEFT {
        KeyCode::ArrowLeft
    } else if code == KEY_UP {
        KeyCode::ArrowUp
    } else if code == KEY_RIGHT {
        KeyCode::ArrowRight
    } else if code == KEY_DOWN {
        KeyCode::ArrowDown
    } else if code == KEY_PAGEUP {
        KeyCode::PageUp
    } else if code == KEY_PAGEDOWN {
        KeyCode::PageDown
    } else if code == KEY_ENTER {
        KeyCode::NumpadEnter
    } else if code == KEY_INSERT {
        KeyCode::Insert
    } else if code == KEY_DELETE {
        KeyCode::Delete
    } else if code == KEY_NUMPAD0 {
        KeyCode::Numpad0
    } else if code == KEY_NUMPAD1 {
        KeyCode::Numpad1
    } else if code == KEY_NUMPAD2 {
        KeyCode::Numpad2
    } else if code == KEY_NUMPAD3 {
        KeyCode::Numpad3
    } else if code == KEY_NUMPAD4 {
        KeyCode::Numpad4
    } else if code == KEY_NUMPAD5 {
        KeyCode::Numpad5
    } else if code == KEY_NUMPAD6 {
        KeyCode::Numpad6
    } else if code == KEY_NUMPAD7 {
        KeyCode::Numpad7
    } else if code == KEY_NUMPAD8 {
        KeyCode::Numpad8
    } else if code == KEY_NUMPAD9 {
        KeyCode::Numpad9
    } else if code == KEY_MULTIPLY {
        KeyCode::NumpadMultiply
    } else if code == KEY_ADD {
        KeyCode::NumpadAdd
    } else if code == KEY_SUBTRACT {
        KeyCode::NumpadSubtract
    } else if code == KEY_DECIMAL {
        KeyCode::NumpadComma
    } else if code == KEY_DIVIDE {
        KeyCode::NumpadDivide
    } else if code == KEY_F1 {
        KeyCode::F1
    } else if code == KEY_F2 {
        KeyCode::F2
    } else if code == KEY_F3 {
        KeyCode::F3
    } else if code == KEY_F4 {
        KeyCode::F4
    } else if code == KEY_F5 {
        KeyCode::F5
    } else if code == KEY_F6 {
        KeyCode::F6
    } else if code == KEY_F7 {
        KeyCode::F7
    } else if code == KEY_F8 {
        KeyCode::F8
    } else if code == KEY_F9 {
        KeyCode::F9
    } else if code == KEY_F10 {
        KeyCode::F10
    } else if code == KEY_F11 {
        KeyCode::F11
    } else if code == KEY_F12 {
        KeyCode::F12
    } else if code == KEY_EQUALS {
        KeyCode::Equal
    } else if code == KEY_CONTEXTMENU {
        KeyCode::ContextMenu
    } else {
        KeyCode::Unidentified
    }
}

/// The text a host's character code stands for: one character, or `None` for a number
/// that is no Unicode scalar value.
pub fn unicode_to_string(unicode: u32) -> (text: Option<String>)
    ensures
        is_scalar_value(unicode) ==> (text matches Some(s) && s@ == seq![unicode as char]),
        !is_scalar_value(unicode) ==> text is None,
{
    match char_from_u32(unicode) {
        Some(c) => Some(char_to_string(c)),
        None => None,
    }
}

} // verus!
