//! Classification of a credential's bytes: hexadecimal digits and
//! printable ASCII, as the per-type password rules measure them.

use vstd::prelude::*;

verus! {

/// True of the ASCII bytes `0-9`, `A-F` and `a-f`.
pub open spec fn is_hex_digit_byte(b: u8) -> bool {
    (0x30 <= b && b <= 0x39) || (0x41 <= b && b <= 0x46) || (0x61 <= b && b <= 0x66)
}

/// True of the printable ASCII bytes, space through tilde.
pub open spec fn is_printable_ascii_byte(b: u8) -> bool {
    0x20 <= b && b <= 0x7e
}

/// True when the value is non-empty and every byte is an ASCII
/// hexadecimal digit.
pub open spec fn all_hex_digits(bytes: Seq<u8>) -> bool {
    bytes.len() > 0 && forall|i: int| 0 <= i < bytes.len() ==> is_hex_digit_byte(#[trigger] bytes[i])
}

/// True when the value is non-empty and every byte is printable ASCII.
pub open spec fn all_printable_ascii(bytes: Seq<u8>) -> bool {
    bytes.len() > 0 && forall|i: int|
        0 <= i < bytes.len() ==> is_printable_ascii_byte(#[trigger] bytes[i])
}

/// Decides whether the value is non-empty and entirely hexadecimal digits.
pub fn bytes_all_hex(bytes: &Vec<u8>) -> (r: bool)
    ensures
        r == all_hex_digits(bytes@),
{
    if bytes.len() == 0 {
        return false;
    }
    let mut i: usize = 0;
    while i < bytes.len()
        invariant
            i <= bytes@.len(),
            forall|j: int| 0 <= j < i ==> is_hex_digit_byte(#[trigger] bytes@[j]),
        decreases bytes@.len() - i,
    {
        let b = bytes[i];
        if !((0x30 <= b && b <= 0x39) || (0x41 <= b && b <= 0x46) || (0x61 <= b && b <= 0x66)) {
            return false;
        }
        i += 1;
    }
    true
}

/// Decides whether the value is non-empty and entirely printable ASCII.
pub fn bytes_all_printable(bytes: &Vec<u8>) -> (r: bool)
    ensures
        r == all_printable_ascii(bytes@),
{
    if bytes.len() == 0 {
        return false;
    }
    let mut i: usize = 0;
    while i < bytes.len()
        invariant
            i <= bytes@.len(),
            forall|j: int| 0 <= j < i ==> is_printable_ascii_byte(#[trigger] bytes@[j]),
        decreases bytes@.len() - i,
    {
        let b = bytes[i];
        if !(0x20 <= b && b <= 0x7e) {
            return false;
        }
        i += 1;
    }
    true
}

} // verus!
