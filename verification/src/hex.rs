//! Hexadecimal text, as the protocol writes it: the salt in upper case,
//! password hashes and hardware addresses in lower case.

use vstd::prelude::*;

verus! {

/// The ASCII digit of a value below sixteen, in upper or lower case.
pub open spec fn hex_digit(value: int, upper: bool) -> u8 {
    if value < 10 {
        ('0' as u8 + value) as u8
    } else if upper {
        ('A' as u8 + value - 10) as u8
    } else {
        ('a' as u8 + value - 10) as u8
    }
}

/// The eight upper-case digits of a 32-bit number, most significant
/// first, with leading zeros.
pub open spec fn upper_hex_u32(number: u32) -> Seq<u8> {
    seq![
        hex_digit(number as int / 0x1000_0000 % 16, true),
        hex_digit(number as int / 0x100_0000 % 16, true),
        hex_digit(number as int / 0x10_0000 % 16, true),
        hex_digit(number as int / 0x1_0000 % 16, true),
        hex_digit(number as int / 0x1000 % 16, true),
        hex_digit(number as int / 0x100 % 16, true),
        hex_digit(number as int / 0x10 % 16, true),
        hex_digit(number as int % 16, true),
    ]
}

/// The lower-case digits of a byte string: two for each byte, the high
/// half first.
pub open spec fn lower_hex(bytes: Seq<u8>) -> Seq<u8> {
    Seq::new(
        2 * bytes.len(),
        |index: int|
            if index % 2 == 0 {
                hex_digit(bytes[index / 2] as int / 16, false)
            } else {
                hex_digit(bytes[index / 2] as int % 16, false)
            },
    )
}

/// A hardware address as text: the lower-case digits of each of its
/// bytes, with a colon between two bytes.
pub open spec fn colon_hex(bytes: Seq<u8>) -> Seq<u8> {
    Seq::new(
        if bytes.len() == 0 {
            0
        } else {
            (3 * bytes.len() - 1) as nat
        },
        |index: int|
            if index % 3 == 0 {
                hex_digit(bytes[index / 3] as int / 16, false)
            } else if index % 3 == 1 {
                hex_digit(bytes[index / 3] as int % 16, false)
            } else {
                ':' as u8
            },
    )
}

/// The ASCII digit of a value below sixteen.
fn hex_digit_of(value: u8, upper: bool) -> (digit: u8)
    requires
        value < 16,
    ensures
        digit == hex_digit(value as int, upper),
{
    if value < 10 {
        '0' as u8 + value
    } else if upper {
        'A' as u8 + (value - 10)
    } else {
        'a' as u8 + (value - 10)
    }
}

/// Writes a 32-bit number as eight upper-case digits.
pub fn format_upper_hex_u32(number: u32) -> (text: Vec<u8>)
    ensures
        text@ == upper_hex_u32(number),
{
    let mut text: Vec<u8> = Vec::new();
    text.push(hex_digit_of((number / 0x1000_0000 % 16) as u8, true));
    text.push(hex_digit_of((number / 0x100_0000 % 16) as u8, true));
    text.push(hex_digit_of((number / 0x10_0000 % 16) as u8, true));
    text.push(hex_digit_of((number / 0x1_0000 % 16) as u8, true));
    text.push(hex_digit_of((number / 0x1000 % 16) as u8, true));
    text.push(hex_digit_of((number / 0x100 % 16) as u8, true));
    text.push(hex_digit_of((number / 0x10 % 16) as u8, true));
    text.push(hex_digit_of((number % 16) as u8, true));
    assert(text@ =~= upper_hex_u32(number));
    text
}

/// Writes a byte string as lower-case digits.
pub fn format_lower_hex(bytes: &[u8]) -> (text: Vec<u8>)
    ensures
        text@ == lower_hex(bytes@),
{
    let mut text: Vec<u8> = Vec::new();
    let mut index: usize = 0;
    while index < bytes.len()
        invariant
            index <= bytes.len(),
            text@ == lower_hex(bytes@.subrange(0, index as int)),
        decreases bytes.len() - index,
    {
        let byte = bytes[index];
        text.push(hex_digit_of(byte / 16, false));
        text.push(hex_digit_of(byte % 16, false));
        assert(text@ =~= lower_hex(bytes@.subrange(0, index + 1)));
        index += 1;
    }
    assert(bytes@.subrange(0, index as int) =~= bytes@);
    text
}

/// Writes a hardware address of six bytes as text.
pub fn format_colon_hex(bytes: &[u8; 6]) -> (text: Vec<u8>)
    ensures
        text@ == colon_hex(bytes@),
{
    let mut text: Vec<u8> = Vec::new();
    let mut index: usize = 0;
    while index < 6
        invariant
            index <= 6,
            text@.len() == if index == 0 {
                0
            } else {
                3 * index - 1
            },
            forall|at: int| 0 <= at < text@.len() ==> text@[at] == colon_hex(bytes@)[at],
        decreases 6 - index,
    {
        let byte = bytes[index];
        if index > 0 {
            text.push(':' as u8);
        }
        text.push(hex_digit_of(byte / 16, false));
        text.push(hex_digit_of(byte % 16, false));
        index += 1;
    }
    assert(text@ =~= colon_hex(bytes@));
    text
}

} // verus!
