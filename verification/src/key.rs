//! Logical keys, and the table from virtual-key codes to them.

use vstd::prelude::*;

verus! {

/// A logical key of the keyboard.
#[derive(Clone, Copy, Debug, PartialEq, Eq, Structural)]
pub enum Key {
    ArrowDown,
    ArrowLeft,
    ArrowRight,
    ArrowUp,
    Escape,
    Tab,
    Backspace,
    Enter,
    Space,
    Insert,
    Delete,
    Home,
    End,
    PageUp,
    PageDown,
    Minus,
    Num0,
    Num1,
    Num2,
    Num3,
    Num4,
    Num5,
    Num6,
    Num7,
    Num8,
    Num9,
    A,
    B,
    C,
    D,
    E,
    F,
    G,
    H,
    I,
    J,
    K,
    L,
    M,
    N,
    O,
    P,
    Q,
    R,
    S,
    T,
    U,
    V,
    W,
    X,
    Y,
    Z,
    F1,
    F2,
    F3,
    F4,
    F5,
    F6,
    F7,
    F8,
    F9,
    F10,
    F11,
    F12,
    F13,
    F14,
    F15,
    F16,
    F17,
    F18,
    F19,
    F20,
}

impl Key {
    /// The key of the decimal digit `d`, for `0 <= d <= 9`.
    pub open spec fn digit(d: int) -> Key {
        if d == 0 {
            Key::Num0
        } else if d == 1 {
            Key::Num1
        } else if d == 2 {
            Key::Num2
        } else if d == 3 {
            Key::Num3
        } else if d == 4 {
            Key::Num4
        } else if d == 5 {
            Key::Num5
        } else if d == 6 {
            Key::Num6
        } else if d == 7 {
            Key::Num7
        } else if d == 8 {
            Key::Num8
        } else {
            Key::Num9
        }
    }

    /// The key of the `i`-th letter of the alphabet, counted from `A` at 0.
    pub open spec fn letter(i: int) -> Key {
        if i == 0 {
            Key::A
        } else if i == 1 {
            Key::B
        } else if i == 2 {
            Key::C
        } else if i == 3 {
            Key::D
        } else if i == 4 {
            Key::E
        } else if i == 5 {
            Key::F
        } else if i == 6 {
            Key::G
        } else if i == 7 {
            Key::H
        } else if i == 8 {
            Key::I
        } else if i == 9 {
            Key::J
        } else if i == 10 {
            Key::K
        } else if i == 11 {
            Key::L
        } else if i == 12 {
            Key::M
        } else if i == 13 {
            Key::N
        } else if i == 14 {
            Key::O
        } else if i == 15 {
            Key::P
        } else if i == 16 {
            Key::Q
        } else if i == 17 {
            Key::R
        } else if i == 18 {
            Key::S
        } else if i == 19 {
            Key::T
        } else if i == 20 {
            Key::U
        } else if i == 21 {
            Key::V
        } else if i == 22 {
            Key::W
        } else if i == 23 {
            Key::X
        } else if i == 24 {
            Key::Y
        } else {
            Key::Z
        }
    }

    /// The `n`-th function key, for `1 <= n <= 20`.
    pub open spec fn function(n: int) -> Key {
        if n == 1 {
            Key::F1
        } else if n == 2 {
            Key::F2
        } else if n == 3 {
            Key::F3
        } else if n == 4 {
            Key::F4
        } else if n == 5 {
            Key::F5
        } else if n == 6 {
            Key::F6
        } else if n == 7 {
            Key::F7
        } else if n == 8 {
            Key::F8
        } else if n == 9 {
            Key::F9
        } else if n == 10 {
            Key::F10
        } else if n == 11 {
            Key::F11
        } else if n == 12 {
            Key::F12
        } else if n == 13 {
            Key::F13
        } else if n == 14 {
            Key::F14
        } else if n == 15 {
            Key::F15
        } else if n == 16 {
            Key::F16
        } else if n == 17 {
            Key::F17
        } else if n == 18 {
            Key::F18
        } else if n == 19 {
            Key::F19
        } else {
            Key::F20
        }
    }
}

/// Virtual-key code of the backspace key.
pub const VK_BACK: u16 = 0x08;

/// Virtual-key code of the tab key.
pub const VK_TAB: u16 = 0x09;

/// Virtual-key code of the enter key.
pub const VK_RETURN: u16 = 0x0D;

/// Virtual-key code of the escape key.
pub const VK_ESCAPE: u16 = 0x1B;

/// Virtual-key code of the space bar.
pub const VK_SPACE: u16 = 0x20;

/// Virtual-key code of the page-up key.
pub const VK_PRIOR: u16 = 0x21;

/// Virtual-key code of the page-down key.
pub const VK_NEXT: u16 = 0x22;

/// Virtual-key code of the end key.
pub const VK_END: u16 = 0x23;

/// Virtual-key code of the home key.
pub const VK_HOME: u16 = 0x24;

/// Virtual-key code of the left arrow.
pub const VK_LEFT: u16 = 0x25;

/// Virtual-key code of the up arrow.
pub const VK_UP: u16 = 0x26;

/// Virtual-key code of the right arrow.
pub const VK_RIGHT: u16 = 0x27;

/// Virtual-key code of the down arrow.
pub const VK_DOWN: u16 = 0x28;

/// Virtual-key code of the insert key.
pub const VK_INSERT: u16 = 0x2D;

/// Virtual-key code of the delete key.
pub const VK_DELETE: u16 = 0x2E;

/// Virtual-key code of the minus key of the number pad.
pub const VK_SUBTRACT: u16 = 0x6D;

/// The key that a virtual-key code names on its own, outside the digit,
/// letter and function-key ranges.
pub open spec fn named_key(code: int) -> Option<Key> {
    if code == VK_DOWN {
        Some(Key::ArrowDown)
    } else if code == VK_LEFT {
        Some(Key::ArrowLeft)
    } else if code == VK_RIGHT {
        Some(Key::ArrowRight)
    } else if code == VK_UP {
        Some(Key::ArrowUp)
    } else if code == VK_ESCAPE {
        Some(Key::Escape)
    } else if code == VK_TAB {
        Some(Key::Tab)
    } else if code == VK_BACK {
        Some(Key::Backspace)
    } else if code == VK_RETURN {
        Some(Key::Enter)
    } else if code == VK_SPACE {
        Some(Key::Space)
    } else if code == VK_INSERT {
        Some(Key::Insert)
    } else if code == VK_DELETE {
        Some(Key::Delete)
    } else if code == VK_HOME {
        Some(Key::Home)
    } else if code == VK_END {
        Some(Key::End)
    } else if code == VK_PRIOR {
        Some(Key::PageUp)
    } else if code == VK_NEXT {
        Some(Key::PageDown)
    } else if code == VK_SUBTRACT {
        Some(Key::Minus)
    } else {
        None
    }
}

/// The logical key of a key message whose first parameter is `wparam`.
///
/// Digits `0x30..=0x39`, letters `0x41..=0x5A`, number-pad digits
/// `0x60..=0x69` and function keys `0x70..=0x83` map by their offset within
/// the range; the number pad gives the same keys as the digit row. Outside
/// those ranges the parameter must be one of the named codes. The whole
/// parameter counts: no value above `0x83` has a key.
pub open spec fn key_of(wparam: int) -> Option<Key> {
    if 0x30 <= wparam <= 0x39 {
        Some(Key::digit(wparam - 0x30))
    } else if 0x41 <= wparam <= 0x5A {
        Some(Key::letter(wparam - 0x41))
    } else if 0x60 <= wparam <= 0x69 {
        Some(Key::digit(wparam - 0x60))
    } else if 0x70 <= wparam <= 0x83 {
        Some(Key::function(wparam - 0x6F))
    } else {
        named_key(wparam)
    }
}

/// Exactly these values have a key: the four ranges, and the sixteen named
/// codes, which are backspace, tab, enter, escape, `0x20..=0x28` (space, page
/// up, page down, end, home and the four arrows), insert, delete and the
/// minus of the number pad.
pub proof fn lemma_mapped_codes(wparam: int)
    ensures
        key_of(wparam) is Some <==> {
            ||| 0x30 <= wparam <= 0x39
            ||| 0x41 <= wparam <= 0x5A
            ||| 0x60 <= wparam <= 0x69
            ||| 0x70 <= wparam <= 0x83
            ||| wparam == 0x08
            ||| wparam == 0x09
            ||| wparam == 0x0D
            ||| wparam == 0x1B
            ||| 0x20 <= wparam <= 0x28
            ||| wparam == 0x2D
            ||| wparam == 0x2E
            ||| wparam == 0x6D
        },
{
}

fn digit_key(d: usize) -> (key: Key)
    requires
        d <= 9,
    ensures
        key == Key::digit(d as int),
{
    match d {
        0 => Key::Num0,
        1 => Key::Num1,
        2 => Key::Num2,
        3 => Key::Num3,
        4 => Key::Num4,
        5 => Key::Num5,
        6 => Key::Num6,
        7 => Key::Num7,
        8 => Key::Num8,
        _ => Key::Num9,
    }
}

fn letter_key(i: usize) -> (key: Key)
    requires
        i <= 25,
    ensures
        key == Key::letter(i as int),
{
    match i {
        0 => Key::A,
        1 => Key::B,
        2 => Key::C,
        3 => Key::D,
        4 => Key::E,
        5 => Key::F,
        6 => Key::G,
        7 => Key::H,
        8 => Key::I,
        9 => Key::J,
        10 => Key::K,
        11 => Key::L,
        12 => Key::M,
        13 => Key::N,
        14 => Key::O,
        15 => Key::P,
        16 => Key::Q,
        17 => Key::R,
        18 => Key::S,
        19 => Key::T,
        20 => Key::U,
        21 => Key::V,
        22 => Key::W,
        23 => Key::X,
        24 => Key::Y,
        _ => Key::Z,
    }
}

fn function_key(n: usize) -> (key: Key)
    requires
        1 <= n <= 20,
    ensures
        key == Key::function(n as int),
{
    match n {
        1 => Key::F1,
        2 => Key::F2,
        3 => Key::F3,
        4 => Key::F4,
        5 => Key::F5,
        6 => Key::F6,
        7 => Key::F7,
        8 => Key::F8,
        9 => Key::F9,
        10 => Key::F10,
        11 => Key::F11,
        12 => Key::F12,
        13 => Key::F13,
        14 => Key::F14,
        15 => Key::F15,
        16 => Key::F16,
        17 => Key::F17,
        18 => Key::F18,
        19 => Key::F19,
        _ => Key::F20,
    }
}

fn key_named(code: u16) -> (key: Option<Key>)
    ensures
        key == named_key(code as int),
{
    match code {
        VK_DOWN => Some(Key::ArrowDown),
        VK_LEFT => Some(Key::ArrowLeft),
        VK_RIGHT => Some(Key::ArrowRight),
        VK_UP => Some(Key::ArrowUp),
        VK_ESCAPE => Some(Key::Escape),
        VK_TAB => Some(Key::Tab),
        VK_BACK => Some(Key::Backspace),
        VK_RETURN => Some(Key::Enter),
        VK_SPACE => Some(Key::Space),
        VK_INSERT => Some(Key::Insert),
        VK_DELETE => Some(Key::Delete),
        VK_HOME => Some(Key::Home),
        VK_END => Some(Key::End),
        VK_PRIOR => Some(Key::PageUp),
        VK_NEXT => Some(Key::PageDown),
        VK_SUBTRACT => Some(Key::Minus),
        _ => None,
    }
}

/// Maps the first parameter of a key message to its logical key, if it has
/// one.
pub fn get_key(wparam: usize) -> (key: Option<Key>)
    ensures
        key == key_of(wparam as int),
{
    if 0x30 <= wparam && wparam <= 0x39 {
        Some(digit_key(wparam - 0x30))
    } else if 0x41 <= wparam && wparam <= 0x5A {
        Some(letter_key(wparam - 0x41))
    } else if 0x60 <= wparam && wparam <= 0x69 {
        Some(digit_key(wparam - 0x60))
    } else if 0x70 <= wparam && wparam <= 0x83 {
        Some(function_key(wparam - 0x6F))
    } else if wparam <= 0xFFFF {
        key_named(wparam as u16)
    } else {
        None
    }
}

} // verus!
