//! Characters carried by character messages.

use vstd::prelude::*;

verus! {

/// Whether `code` is a Unicode scalar value: a code point up to U+10FFFF that
/// is no surrogate.
pub open spec fn is_scalar_value(code: int) -> bool {
    0 <= code <= 0xD7FF || 0xE000 <= code <= 0x10_FFFF
}

/// Whether `c` is a control code: U+0000 to U+001F, or U+007F to U+009F.
pub open spec fn is_control(c: char) -> bool {
    c as int <= 0x1F || 0x7F <= c as int <= 0x9F
}

/// The character that a character message carries in the low 32 bits of its
/// first parameter, unless those bits are no scalar value or name a control
/// code.
pub open spec fn printable_char_of(wparam: int) -> Option<char> {
    let code = wparam % 0x1_0000_0000;
    if is_scalar_value(code) && !is_control(code as char) {
        Some(code as char)
    } else {
        None
    }
}

/// Calls `char::from_u32`, which gives the character whose scalar value is
/// `code`, and nothing where `code` is not the scalar value of any character.
#[verifier::external_body]
fn char_from_code(code: u32) -> (c: Option<char>)
    ensures
        c == if is_scalar_value(code as int) {
            Some(code as char)
        } else {
            None
        },
{
    char::from_u32(code)
}

/// Calls `String::from` on one character, which gives the string that holds
/// exactly that character.
#[verifier::external_body]
pub(crate) fn string_of_char(c: char) -> (text: String)
    ensures
        text@ == seq![c],
{
    String::from(c)
}

/// Tells whether a character is a control code.
pub fn is_control_char(c: char) -> (control: bool)
    ensures
        control == is_control(c),
{
    let code: u32 = c as u32;
    code <= 0x1F || (0x7F <= code && code <= 0x9F)
}

/// Extracts the printable character of a character message, if it has one.
pub fn printable_char(wparam: usize) -> (c: Option<char>)
    ensures
        c == printable_char_of(wparam as int),
{
    let code: u32 = #[verifier::truncate] (wparam as u32);
    assert(code == (wparam as u64) % 0x1_0000_0000) by (bit_vector)
        requires
            code == wparam as u32,
    ;
    match char_from_code(code) {
        Some(c) => if is_control_char(c) {
            None
        } else {
            Some(c)
        },
        None => None,
    }
}

} // verus!
