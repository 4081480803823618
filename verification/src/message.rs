//! Raw window messages: their codes, their categories, and the fields packed
//! into their two parameter words.

use crate::event::{Modifiers, PointerButton, Pos};
use vstd::prelude::*;

verus! {

/// A key went down.
pub const WM_KEYDOWN: u32 = 0x0100;

/// A key went up.
pub const WM_KEYUP: u32 = 0x0101;

/// A character was typed.
pub const WM_CHAR: u32 = 0x0102;

/// A key went down while alt was held.
pub const WM_SYSKEYDOWN: u32 = 0x0104;

/// A key went up while alt was held.
pub const WM_SYSKEYUP: u32 = 0x0105;

/// The pointer moved.
pub const WM_MOUSEMOVE: u32 = 0x0200;

/// The left button went down.
pub const WM_LBUTTONDOWN: u32 = 0x0201;

/// The left button went up.
pub const WM_LBUTTONUP: u32 = 0x0202;

/// The left button was double-clicked.
pub const WM_LBUTTONDBLCLK: u32 = 0x0203;

/// The right button went down.
pub const WM_RBUTTONDOWN: u32 = 0x0204;

/// The right button went up.
pub const WM_RBUTTONUP: u32 = 0x0205;

/// The right button was double-clicked.
pub const WM_RBUTTONDBLCLK: u32 = 0x0206;

/// The middle button went down.
pub const WM_MBUTTONDOWN: u32 = 0x0207;

/// The middle button went up.
pub const WM_MBUTTONUP: u32 = 0x0208;

/// The middle button was double-clicked.
pub const WM_MBUTTONDBLCLK: u32 = 0x0209;

/// The vertical wheel turned.
pub const WM_MOUSEWHEEL: u32 = 0x020A;

/// One of the two extra buttons went down.
pub const WM_XBUTTONDOWN: u32 = 0x020B;

/// One of the two extra buttons went up.
pub const WM_XBUTTONUP: u32 = 0x020C;

/// One of the two extra buttons was double-clicked.
pub const WM_XBUTTONDBLCLK: u32 = 0x020D;

/// The horizontal wheel turned.
pub const WM_MOUSEHWHEEL: u32 = 0x020E;

/// Bit of the first parameter of a mouse message: shift is held.
pub const MK_SHIFT: usize = 0x0004;

/// Bit of the first parameter of a mouse message: control is held.
pub const MK_CONTROL: usize = 0x0008;

/// Bit of the upper word of the first parameter: the first extra button.
pub const XBUTTON1: usize = 0x0001;

/// Bit of the upper word of the first parameter: the second extra button.
pub const XBUTTON2: usize = 0x0002;

/// Bit of the second parameter of a key message that is read as "repeated".
pub const KF_REPEAT: isize = 0x4000;

/// The group of physical buttons that a button message speaks of.
#[derive(Clone, Copy, Debug, PartialEq, Eq, Structural)]
pub enum ButtonGroup {
    Left,
    Right,
    Middle,
    /// One of the two extra buttons; the first parameter says which.
    Extra,
}

/// The category of a message code.
#[derive(Clone, Copy, Debug, PartialEq, Eq, Structural)]
pub enum MessageKind {
    PointerMove,
    /// A button went down (a double click counts as down) or up.
    Button { group: ButtonGroup, pressed: bool },
    Char,
    Wheel { horizontal: bool },
    /// A key went down or up; `system` marks the variants sent while alt is
    /// held.
    Key { pressed: bool, system: bool },
    /// Any code that the overlay does not translate.
    Other,
}

/// The category of the message code `umsg`.
pub open spec fn kind_of(umsg: u32) -> MessageKind {
    if umsg == WM_MOUSEMOVE {
        MessageKind::PointerMove
    } else if umsg == WM_LBUTTONDOWN || umsg == WM_LBUTTONDBLCLK {
        MessageKind::Button { group: ButtonGroup::Left, pressed: true }
    } else if umsg == WM_LBUTTONUP {
        MessageKind::Button { group: ButtonGroup::Left, pressed: false }
    } else if umsg == WM_RBUTTONDOWN || umsg == WM_RBUTTONDBLCLK {
        MessageKind::Button { group: ButtonGroup::Right, pressed: true }
    } else if umsg == WM_RBUTTONUP {
        MessageKind::Button { group: ButtonGroup::Right, pressed: false }
    } else if umsg == WM_MBUTTONDOWN || umsg == WM_MBUTTONDBLCLK {
        MessageKind::Button { group: ButtonGroup::Middle, pressed: true }
    } else if umsg == WM_MBUTTONUP {
        MessageKind::Button { group: ButtonGroup::Middle, pressed: false }
    } else if umsg == WM_XBUTTONDOWN || umsg == WM_XBUTTONDBLCLK {
        MessageKind::Button { group: ButtonGroup::Extra, pressed: true }
    } else if umsg == WM_XBUTTONUP {
        MessageKind::Button { group: ButtonGroup::Extra, pressed: false }
    } else if umsg == WM_CHAR {
        MessageKind::Char
    } else if umsg == WM_MOUSEWHEEL {
        MessageKind::Wheel { horizontal: false }
    } else if umsg == WM_MOUSEHWHEEL {
        MessageKind::Wheel { horizontal: true }
    } else if umsg == WM_KEYDOWN {
        MessageKind::Key { pressed: true, system: false }
    } else if umsg == WM_SYSKEYDOWN {
        MessageKind::Key { pressed: true, system: true }
    } else if umsg == WM_KEYUP {
        MessageKind::Key { pressed: false, system: false }
    } else if umsg == WM_SYSKEYUP {
        MessageKind::Key { pressed: false, system: true }
    } else {
        MessageKind::Other
    }
}

/// Sorts a message code into its category.
pub fn classify(umsg: u32) -> (kind: MessageKind)
    ensures
        kind == kind_of(umsg),
{
    match umsg {
        WM_MOUSEMOVE => MessageKind::PointerMove,
        WM_LBUTTONDOWN | WM_LBUTTONDBLCLK => MessageKind::Button {
            group: ButtonGroup::Left,
            pressed: true,
        },
        WM_LBUTTONUP => MessageKind::Button { group: ButtonGroup::Left, pressed: false },
        WM_RBUTTONDOWN | WM_RBUTTONDBLCLK => MessageKind::Button {
            group: ButtonGroup::Right,
            pressed: true,
        },
        WM_RBUTTONUP => MessageKind::Button { group: ButtonGroup::Right, pressed: false },
        WM_MBUTTONDOWN | WM_MBUTTONDBLCLK => MessageKind::Button {
            group: ButtonGroup::Middle,
            pressed: true,
        },
        WM_MBUTTONUP => MessageKind::Button { group: ButtonGroup::Middle, pressed: false },
        WM_XBUTTONDOWN | WM_XBUTTONDBLCLK => MessageKind::Button {
            group: ButtonGroup::Extra,
            pressed: true,
        },
        WM_XBUTTONUP => MessageKind::Button { group: ButtonGroup::Extra, pressed: false },
        WM_CHAR => MessageKind::Char,
        WM_MOUSEWHEEL => MessageKind::Wheel { horizontal: false },
        WM_MOUSEHWHEEL => MessageKind::Wheel { horizontal: true },
        WM_KEYDOWN => MessageKind::Key { pressed: true, system: false },
        WM_SYSKEYDOWN => MessageKind::Key { pressed: true, system: true },
        WM_KEYUP => MessageKind::Key { pressed: false, system: false },
        WM_SYSKEYUP => MessageKind::Key { pressed: false, system: true },
        _ => MessageKind::Other,
    }
}

/// The low 16 bits of `v`, as a number in `0..0x1_0000`.
pub open spec fn low_word(v: int) -> int {
    v % 0x1_0000
}

/// Bits 16 to 31 of `v`, as a number in `0..0x1_0000`.
pub open spec fn high_word(v: int) -> int {
    (v / 0x1_0000) % 0x1_0000
}

/// The 16-bit word `w` read as a two's-complement number.
pub open spec fn signed_word(w: int) -> int {
    if w >= 0x8000 {
        w - 0x1_0000
    } else {
        w
    }
}

/// Whether `v` has the bit whose value is `mask`, a power of two.
pub open spec fn has_bit(v: int, mask: int) -> bool {
    (v / mask) % 2 == 1
}

/// The position that the second parameter of a pointer message holds: x in
/// its low word and y in the word above, both signed.
pub open spec fn pos_of(lparam: int) -> Pos {
    Pos {
        x: signed_word(low_word(lparam)) as i16,
        y: signed_word(high_word(lparam)) as i16,
    }
}

/// Whether `lparam` holds the point `(x, y)` in its two low words, whatever
/// lies above them.
pub open spec fn encodes_point(lparam: int, x: i16, y: i16) -> bool {
    &&& low_word(lparam) == x as int % 0x1_0000
    &&& high_word(lparam) == y as int % 0x1_0000
}

fn sign_extend(w: u16) -> (v: i16)
    ensures
        v == signed_word(w as int),
{
    let v: i16 = #[verifier::truncate] (w as i16);
    assert(v == if w >= 0x8000 { w - 0x1_0000 } else { w as int }) by (bit_vector)
        requires
            v == w as i16,
    ;
    v
}

/// Decodes the pointer position from the second parameter of a pointer
/// message.
pub fn get_pos(lparam: isize) -> (pos: Pos)
    ensures
        pos == pos_of(lparam as int),
{
    let low: isize = lparam & 0xFFFF;
    let high: isize = (lparam >> 16) & 0xFFFF;
    assert(0 <= low < 0x1_0000 && low == lparam % 0x1_0000) by (bit_vector)
        requires
            low == lparam & 0xFFFF,
    ;
    assert(0 <= high < 0x1_0000 && high == (lparam / 0x1_0000) % 0x1_0000) by (bit_vector)
        requires
            high == (lparam >> 16) & 0xFFFF,
    ;
    Pos { x: sign_extend(low as u16), y: sign_extend(high as u16) }
}

/// A position is read back as it was packed, whatever the bits above the two
/// words hold.
pub proof fn lemma_pos_round_trip(lparam: int, x: i16, y: i16)
    requires
        encodes_point(lparam, x, y),
    ensures
        pos_of(lparam) == (Pos { x, y }),
{
}

/// The modifiers that the first parameter of a mouse message reports.
pub open spec fn mouse_modifiers_of(wparam: int) -> Modifiers {
    Modifiers {
        alt: false,
        ctrl: has_bit(wparam, MK_CONTROL as int),
        shift: has_bit(wparam, MK_SHIFT as int),
        mac_cmd: false,
        command: has_bit(wparam, MK_CONTROL as int),
    }
}

/// Reads control and shift from the first parameter of a mouse message.
pub fn get_mouse_modifiers(wparam: usize) -> (modifiers: Modifiers)
    ensures
        modifiers == mouse_modifiers_of(wparam as int),
{
    let ctrl = wparam & MK_CONTROL != 0;
    let shift = wparam & MK_SHIFT != 0;
    assert((wparam & 0x0008 != 0) == ((wparam / 0x0008) % 2 == 1) && (wparam & 0x0004 != 0) == ((
    wparam / 0x0004) % 2 == 1)) by (bit_vector);
    Modifiers { alt: false, ctrl, shift, mac_cmd: false, command: ctrl }
}

/// The modifiers in force at a key message: alt exactly for a system key,
/// going down or up, control and shift as the keyboard reported them just
/// now.
pub open spec fn key_modifiers_of(umsg: u32, ctrl_down: bool, shift_down: bool) -> Modifiers {
    Modifiers {
        alt: umsg == WM_SYSKEYDOWN || umsg == WM_SYSKEYUP,
        ctrl: ctrl_down,
        shift: shift_down,
        mac_cmd: false,
        command: ctrl_down,
    }
}

/// Derives the modifiers of a key message from its code and the live state of
/// the control and shift keys.
pub fn get_key_modifiers(umsg: u32, ctrl_down: bool, shift_down: bool) -> (modifiers: Modifiers)
    ensures
        modifiers == key_modifiers_of(umsg, ctrl_down, shift_down),
{
    Modifiers {
        alt: umsg == WM_SYSKEYDOWN || umsg == WM_SYSKEYUP,
        ctrl: ctrl_down,
        shift: shift_down,
        mac_cmd: false,
        command: ctrl_down,
    }
}

/// The signed wheel movement in the upper word of the first parameter, in
/// units of which 120 make one notch.
pub open spec fn wheel_units_of(wparam: int) -> int {
    signed_word(high_word(wparam))
}

/// Reads the signed wheel movement from the first parameter of a wheel
/// message.
pub fn wheel_units(wparam: usize) -> (units: i16)
    ensures
        units == wheel_units_of(wparam as int),
{
    let high: usize = (wparam >> 16) & 0xFFFF;
    assert(high < 0x1_0000 && high == (wparam / 0x1_0000) % 0x1_0000) by (bit_vector)
        requires
            high == (wparam >> 16) & 0xFFFF,
    ;
    sign_extend(high as u16)
}

/// Which extra button the first parameter of an extra-button message names:
/// the first if its bit is set, else the second if that bit is set.
pub open spec fn extra_button_of(wparam: int) -> Option<PointerButton> {
    if has_bit(wparam, 0x1_0000) {
        Some(PointerButton::Extra1)
    } else if has_bit(wparam, 0x2_0000) {
        Some(PointerButton::Extra2)
    } else {
        None
    }
}

/// Tells the two extra buttons apart, or returns nothing where the message
/// names neither.
pub fn extra_button(wparam: usize) -> (button: Option<PointerButton>)
    ensures
        button == extra_button_of(wparam as int),
{
    let high: usize = wparam >> 16;
    assert((high & 0x0001 != 0) == ((wparam / 0x1_0000) % 2 == 1) && (high & 0x0002 != 0) == ((
    wparam / 0x2_0000) % 2 == 1)) by (bit_vector)
        requires
            high == wparam >> 16,
    ;
    if high & XBUTTON1 != 0 {
        Some(PointerButton::Extra1)
    } else if high & XBUTTON2 != 0 {
        Some(PointerButton::Extra2)
    } else {
        None
    }
}

/// The logical button of a button message, where it has one.
pub open spec fn button_of(group: ButtonGroup, wparam: int) -> Option<PointerButton> {
    match group {
        ButtonGroup::Left => Some(PointerButton::Primary),
        ButtonGroup::Right => Some(PointerButton::Secondary),
        ButtonGroup::Middle => Some(PointerButton::Middle),
        ButtonGroup::Extra => extra_button_of(wparam),
    }
}

/// Whether the second parameter of a key message marks it as repeated.
pub open spec fn repeat_of(lparam: int) -> bool {
    has_bit(lparam, KF_REPEAT as int)
}

/// Reads the repeat mark from the second parameter of a key message.
pub fn is_repeat(lparam: isize) -> (repeat: bool)
    ensures
        repeat == repeat_of(lparam as int),
{
    assert((lparam & 0x4000 > 0) == ((lparam / 0x4000) % 2 == 1)) by (bit_vector);
    lparam & KF_REPEAT > 0
}

} // verus!
