//! The keymap: which keyboard symbols the interface knows, and as what.
use vstd::prelude::*;

verus! {

/// A logical key of the interface engine's vocabulary.
#[derive(Clone, Copy, Debug, PartialEq, Eq, Hash, Structural)]
pub enum Key {
    ArrowDown,
    ArrowLeft,
    ArrowRight,
    ArrowUp,
    Escape,
    Tab,
    Backspace,
    Enter,
    Space,
    Insert,
    Delete,
    Home,
    End,
    PageUp,
    PageDown,
    Copy,
    Cut,
    Paste,
    /// `:`
    Colon,
    /// `,`
    Comma,
    /// `\`
    Backslash,
    /// `/`
    Slash,
    /// `|`
    Pipe,
    /// `?`
    Questionmark,
    /// `!`
    Exclamationmark,
    /// `[`
    OpenBracket,
    /// `]`
    CloseBracket,
    /// `{`
    OpenCurlyBracket,
    /// `}`
    CloseCurlyBracket,
    /// `` ` ``
    Backtick,
    /// `-`
    Minus,
    /// `.`
    Period,
    /// `+`
    Plus,
    /// `=`
    Equals,
    /// `;`
    Semicolon,
    /// `'`
    Quote,
    /// `0`, from the main row or the keypad
    Num0,
    /// `1`, from the main row or the keypad
    Num1,
    /// `2`, from the main row or the keypad
    Num2,
    /// `3`, from the main row or the keypad
    Num3,
    /// `4`, from the main row or the keypad
    Num4,
    /// `5`, from the main row or the keypad
    Num5,
    /// `6`, from the main row or the keypad
    Num6,
    /// `7`, from the main row or the keypad
    Num7,
    /// `8`, from the main row or the keypad
    Num8,
    /// `9`, from the main row or the keypad
    Num9,
    A,
    B,
    C,
    D,
    E,
    F,
    G,
    H,
    I,
    J,
    K,
    L,
    M,
    N,
    O,
    P,
    Q,
    R,
    S,
    T,
    U,
    V,
    W,
    X,
    Y,
    Z,
    F1,
    F2,
    F3,
    F4,
    F5,
    F6,
    F7,
    F8,
    F9,
    F10,
    F11,
    F12,
    F13,
    F14,
    F15,
    F16,
    F17,
    F18,
    F19,
    F20,
    F21,
    F22,
    F23,
    F24,
    F25,
    F26,
    F27,
    F28,
    F29,
    F30,
    F31,
    F32,
    F33,
    F34,
    F35,
}

/// The keyboard symbol of the first function key; the others follow it
/// without a gap.
pub const KEYSYM_F1: u32 = 0xffbe;

/// The keyboard symbol of the keypad's `0`; the other digits follow it.
pub const KEYSYM_KP_0: u32 = 0xffb0;

/// The letter key with the given position in the alphabet, counted from zero.
pub open spec fn letter_key(index: int) -> Key {
    if index == 0 {
        Key::A
    } else if index == 1 {
        Key::B
    } else if index == 2 {
        Key::C
    } else if index == 3 {
        Key::D
    } else if index == 4 {
        Key::E
    } else if index == 5 {
        Key::F
    } else if index == 6 {
        Key::G
    } else if index == 7 {
        Key::H
    } else if index == 8 {
        Key::I
    } else if index == 9 {
        Key::J
    } else if index == 10 {
        Key::K
    } else if index == 11 {
        Key::L
    } else if index == 12 {
        Key::M
    } else if index == 13 {
        Key::N
    } else if index == 14 {
        Key::O
    } else if index == 15 {
        Key::P
    } else if index == 16 {
        Key::Q
    } else if index == 17 {
        Key::R
    } else if index == 18 {
        Key::S
    } else if index == 19 {
        Key::T
    } else if index == 20 {
        Key::U
    } else if index == 21 {
        Key::V
    } else if index == 22 {
        Key::W
    } else if index == 23 {
        Key::X
    } else if index == 24 {
        Key::Y
    } else {
        Key::Z
    }
}

/// The digit key for the given digit.
pub open spec fn digit_key(digit: int) -> Key {
    if digit == 0 {
        Key::Num0
    } else if digit == 1 {
        Key::Num1
    } else if digit == 2 {
        Key::Num2
    } else if digit == 3 {
        Key::Num3
    } else if digit == 4 {
        Key::Num4
    } else if digit == 5 {
        Key::Num5
    } else if digit == 6 {
        Key::Num6
    } else if digit == 7 {
        Key::Num7
    } else if digit == 8 {
        Key::Num8
    } else {
        Key::Num9
    }
}

/// The function key with the given number, counted from one.
pub open spec fn function_key(number: int) -> Key {
    if number == 1 {
        Key::F1
    } else if number == 2 {
        Key::F2
    } else if number == 3 {
        Key::F3
    } else if number == 4 {
        Key::F4
    } else if number == 5 {
        Key::F5
    } else if number == 6 {
        Key::F6
    } else if number == 7 {
        Key::F7
    } else if number == 8 {
        Key::F8
    } else if number == 9 {
        Key::F9
    } else if number == 10 {
        Key::F10
    } else if number == 11 {
        Key::F11
    } else if number == 12 {
        Key::F12
    } else if number == 13 {
        Key::F13
    } else if number == 14 {
        Key::F14
    } else if number == 15 {
        Key::F15
    } else if number == 16 {
        Key::F16
    } else if number == 17 {
        Key::F17
    } else if number == 18 {
        Key::F18
    } else if number == 19 {
        Key::F19
    } else if number == 20 {
        Key::F20
    } else if number == 21 {
        Key::F21
    } else if number == 22 {
        Key::F22
    } else if number == 23 {
        Key::F23
    } else if number == 24 {
        Key::F24
    } else if number == 25 {
        Key::F25
    } else if number == 26 {
        Key::F26
    } else if number == 27 {
        Key::F27
    } else if number == 28 {
        Key::F28
    } else if number == 29 {
        Key::F29
    } else if number == 30 {
        Key::F30
    } else if number == 31 {
        Key::F31
    } else if number == 32 {
        Key::F32
    } else if number == 33 {
        Key::F33
    } else if number == 34 {
        Key::F34
    } else {
        Key::F35
    }
}

/// The key that a keyboard symbol outside the letters, digits and function
/// keys stands for, if the interface knows it.
pub open spec fn named_key(keysym: u32) -> Option<Key> {
    if keysym == 0xff08 {
        // BackSpace
        Some(Key::Backspace)
    } else if keysym == 0xff09 {
        // Tab
        Some(Key::Tab)
    } else if keysym == 0xfe20 {
        // ISO_Left_Tab
        Some(Key::Tab)
    } else if keysym == 0xff0d {
        // Return
        Some(Key::Enter)
    } else if keysym == 0xff8d {
        // KP_Enter
        Some(Key::Enter)
    } else if keysym == 0xff1b {
        // Escape
        Some(Key::Escape)
    } else if keysym == 0xffff {
        // Delete
        Some(Key::Delete)
    } else if keysym == 0xff63 {
        // Insert
        Some(Key::Insert)
    } else if keysym == 0xff50 {
        // Home
        Some(Key::Home)
    } else if keysym == 0xff57 {
        // End
        Some(Key::End)
    } else if keysym == 0xff55 {
        // Page_Up
        Some(Key::PageUp)
    } else if keysym == 0xff56 {
        // Page_Down
        Some(Key::PageDown)
    } else if keysym == 0xff51 {
        // Left
        Some(Key::ArrowLeft)
    } else if keysym == 0xff52 {
        // Up
        Some(Key::ArrowUp)
    } else if keysym == 0xff53 {
        // Right
        Some(Key::ArrowRight)
    } else if keysym == 0xff54 {
        // Down
        Some(Key::ArrowDown)
    } else if keysym == 0x1008ff57 {
        // XF86Copy
        Some(Key::Copy)
    } else if keysym == 0x1008ff58 {
        // XF86Cut
        Some(Key::Cut)
    } else if keysym == 0x1008ff6d {
        // XF86Paste
        Some(Key::Paste)
    } else if keysym == 0x20 {
        // space
        Some(Key::Space)
    } else if keysym == 0x21 {
        // exclam
        Some(Key::Exclamationmark)
    } else if keysym == 0x27 {
        // apostrophe
        Some(Key::Quote)
    } else if keysym == 0x2b {
        // plus
        Some(Key::Plus)
    } else if keysym == 0x2c {
        // comma
        Some(Key::Comma)
    } else if keysym == 0x2d {
        // minus
        Some(Key::Minus)
    } else if keysym == 0x2e {
        // period
        Some(Key::Period)
    } else if keysym == 0x2f {
        // slash
        Some(Key::Slash)
    } else if keysym == 0x3a {
        // colon
        Some(Key::Colon)
    } else if keysym == 0x3b {
        // semicolon
        Some(Key::Semicolon)
    } else if keysym == 0x3d {
        // equal
        Some(Key::Equals)
    } else if keysym == 0x3f {
        // question
        Some(Key::Questionmark)
    } else if keysym == 0x5b {
        // bracketleft
        Some(Key::OpenBracket)
    } else if keysym == 0x5c {
        // backslash
        Some(Key::Backslash)
    } else if keysym == 0x5d {
        // bracketright
        Some(Key::CloseBracket)
    } else if keysym == 0x60 {
        // grave
        Some(Key::Backtick)
    } else if keysym == 0x7b {
        // braceleft
        Some(Key::OpenCurlyBracket)
    } else if keysym == 0x7c {
        // bar
        Some(Key::Pipe)
    } else if keysym == 0x7d {
        // braceright
        Some(Key::CloseCurlyBracket)
    } else {
        None
    }
}

/// The key that a keyboard symbol stands for, or `None` for a symbol that
/// the interface does not know.
///
/// Letters map to their key whatever their case, digits map to their key
/// from the main row and from the keypad, the function keys `F1` to `F35`
/// map to themselves, and the editing, navigation and punctuation symbols
/// map as `named_key` lists them.
pub open spec fn keysym_key(keysym: u32) -> Option<Key> {
    if 0x41 <= keysym <= 0x5a {
        Some(letter_key(keysym - 0x41))
    } else if 0x61 <= keysym <= 0x7a {
        Some(letter_key(keysym - 0x61))
    } else if 0x30 <= keysym <= 0x39 {
        Some(digit_key(keysym - 0x30))
    } else if KEYSYM_KP_0 <= keysym <= KEYSYM_KP_0 + 9 {
        Some(digit_key(keysym - KEYSYM_KP_0))
    } else if KEYSYM_F1 <= keysym <= KEYSYM_F1 + 34 {
        Some(function_key(keysym - KEYSYM_F1 + 1))
    } else {
        named_key(keysym)
    }
}

/// Whether the interface knows the keyboard symbol.
pub open spec fn recognized(keysym: u32) -> bool {
    keysym_key(keysym) is Some
}

fn letter(index: u32) -> (key: Key)
    requires
        index < 26,
    ensures
        key == letter_key(index as int),
{
    match index {
        0 => Key::A,
        1 => Key::B,
        2 => Key::C,
        3 => Key::D,
        4 => Key::E,
        5 => Key::F,
        6 => Key::G,
        7 => Key::H,
        8 => Key::I,
        9 => Key::J,
        10 => Key::K,
        11 => Key::L,
        12 => Key::M,
        13 => Key::N,
        14 => Key::O,
        15 => Key::P,
        16 => Key::Q,
        17 => Key::R,
        18 => Key::S,
        19 => Key::T,
        20 => Key::U,
        21 => Key::V,
        22 => Key::W,
        23 => Key::X,
        24 => Key::Y,
        _ => Key::Z,
    }
}

fn digit(value: u32) -> (key: Key)
    requires
        value < 10,
    ensures
        key == digit_key(value as int),
{
    match value {
        0 => Key::Num0,
        1 => Key::Num1,
        2 => Key::Num2,
        3 => Key::Num3,
        4 => Key::Num4,
        5 => Key::Num5,
        6 => Key::Num6,
        7 => Key::Num7,
        8 => Key::Num8,
        _ => Key::Num9,
    }
}

fn function(number: u32) -> (key: Key)
    requires
        1 <= number <= 35,
    ensures
        key == function_key(number as int),
{
    match number {
        1 => Key::F1,
        2 => Key::F2,
        3 => Key::F3,
        4 => Key::F4,
        5 => Key::F5,
        6 => Key::F6,
        7 => Key::F7,
        8 => Key::F8,
        9 => Key::F9,
        10 => Key::F10,
        11 => Key::F11,
        12 => Key::F12,
        13 => Key::F13,
        14 => Key::F14,
        15 => Key::F15,
        16 => Key::F16,
        17 => Key::F17,
        18 => Key::F18,
        19 => Key::F19,
        20 => Key::F20,
        21 => Key::F21,
        22 => Key::F22,
        23 => Key::F23,
        24 => Key::F24,
        25 => Key::F25,
        26 => Key::F26,
        27 => Key::F27,
        28 => Key::F28,
        29 => Key::F29,
        30 => Key::F30,
        31 => Key::F31,
        32 => Key::F32,
        33 => Key::F33,
        34 => Key::F34,
        _ => Key::F35,
    }
}

fn named(keysym: u32) -> (key: Option<Key>)
    ensures
        key == named_key(keysym),
{
    match keysym {
        0xff08 => Some(Key::Backspace),
        0xff09 | 0xfe20 => Some(Key::Tab),
        0xff0d | 0xff8d => Some(Key::Enter),
        0xff1b => Some(Key::Escape),
        0xffff => Some(Key::Delete),
        0xff63 => Some(Key::Insert),
        0xff50 => Some(Key::Home),
        0xff57 => Some(Key::End),
        0xff55 => Some(Key::PageUp),
        0xff56 => Some(Key::PageDown),
        0xff51 => Some(Key::ArrowLeft),
        0xff52 => Some(Key::ArrowUp),
        0xff53 => Some(Key::ArrowRight),
        0xff54 => Some(Key::ArrowDown),
        0x1008ff57 => Some(Key::Copy),
        0x1008ff58 => Some(Key::Cut),
        0x1008ff6d => Some(Key::Paste),
        0x20 => Some(Key::Space),
        0x21 => Some(Key::Exclamationmark),
        0x27 => Some(Key::Quote),
        0x2b => Some(Key::Plus),
        0x2c => Some(Key::Comma),
        0x2d => Some(Key::Minus),
        0x2e => Some(Key::Period),
        0x2f => Some(Key::Slash),
        0x3a => Some(Key::Colon),
        0x3b => Some(Key::Semicolon),
        0x3d => Some(Key::Equals),
        0x3f => Some(Key::Questionmark),
        0x5b => Some(Key::OpenBracket),
        0x5c => Some(Key::Backslash),
        0x5d => Some(Key::CloseBracket),
        0x60 => Some(Key::Backtick),
        0x7b => Some(Key::OpenCurlyBracket),
        0x7c => Some(Key::Pipe),
        0x7d => Some(Key::CloseCurlyBracket),
        _ => None,
    }
}

/// Translates a keyboard symbol of the display protocol into the key of the
/// interface engine, or `None` for a symbol without a key.
pub fn wl_to_egui(keysym: u32) -> (key: Option<Key>)
    ensures
        key == keysym_key(keysym),
{
    if 0x41 <= keysym && keysym <= 0x5a {
        Some(letter(keysym - 0x41))
    } else if 0x61 <= keysym && keysym <= 0x7a {
        Some(letter(keysym - 0x61))
    } else if 0x30 <= keysym && keysym <= 0x39 {
        Some(digit(keysym - 0x30))
    } else if KEYSYM_KP_0 <= keysym && keysym <= KEYSYM_KP_0 + 9 {
        Some(digit(keysym - KEYSYM_KP_0))
    } else if KEYSYM_F1 <= keysym && keysym <= KEYSYM_F1 + 34 {
        Some(function(keysym - KEYSYM_F1 + 1))
    } else {
        named(keysym)
    }
}

} // verus!
