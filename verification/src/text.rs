//! Hexadecimal rendering of bytes and words, as used in traces and
//! disassembly.

use vstd::prelude::*;
use vstd::string::StringExecFns;

verus! {

/// The lowercase hexadecimal digit for a value below sixteen.
pub open spec fn hex_digit(value: int) -> char
    recommends
        0 <= value < 16,
{
    "0123456789abcdef"@[value]
}

/// A byte as two hexadecimal digits, high nibble first.
pub open spec fn byte_hex(value: u8) -> Seq<char> {
    seq![hex_digit(value as int / 16), hex_digit(value as int % 16)]
}

/// A word as four hexadecimal digits, high byte first.
pub open spec fn word_hex(value: u16) -> Seq<char> {
    byte_hex((value / 256) as u8) + byte_hex((value % 256) as u8)
}

/// The one-character string that holds the hexadecimal digit of `value`.
fn hex_digit_text(value: u8) -> (text: &'static str)
    requires
        value < 16,
    ensures
        text@ == seq![hex_digit(value as int)],
{
    proof {
        reveal_strlit("0123456789abcdef");
        reveal_strlit("0");
        reveal_strlit("1");
        reveal_strlit("2");
        reveal_strlit("3");
        reveal_strlit("4");
        reveal_strlit("5");
        reveal_strlit("6");
        reveal_strlit("7");
        reveal_strlit("8");
        reveal_strlit("9");
        reveal_strlit("a");
        reveal_strlit("b");
        reveal_strlit("c");
        reveal_strlit("d");
        reveal_strlit("e");
        reveal_strlit("f");
    }
    match value {
        0 => "0",
        1 => "1",
        2 => "2",
        3 => "3",
        4 => "4",
        5 => "5",
        6 => "6",
        7 => "7",
        8 => "8",
        9 => "9",
        10 => "a",
        11 => "b",
        12 => "c",
        13 => "d",
        14 => "e",
        _ => "f",
    }
}

/// Appends the two hexadecimal digits of `value` to `text`.
pub(crate) fn push_byte_hex(text: &mut String, value: u8)
    ensures
        final(text)@ == old(text)@ + byte_hex(value),
{
    text.append(hex_digit_text(value / 16));
    text.append(hex_digit_text(value % 16));
}

/// Appends the four hexadecimal digits of `value` to `text`.
pub(crate) fn push_word_hex(text: &mut String, value: u16)
    ensures
        final(text)@ == old(text)@ + word_hex(value),
{
    push_byte_hex(text, (value / 256) as u8);
    push_byte_hex(text, (value % 256) as u8);
}

} // verus!
