use vstd::prelude::*;

use rustc_hex::FromHex;

verus! {

/// The value of a hexadecimal digit, of either case.
pub open spec fn hex_value(b: u8) -> Option<u8> {
    if 0x30 <= b <= 0x39 {
        Some((b - 0x30) as u8)
    } else if 0x61 <= b <= 0x66 {
        Some((b - 0x61 + 10) as u8)
    } else if 0x41 <= b <= 0x46 {
        Some((b - 0x41 + 10) as u8)
    } else {
        None
    }
}

/// Whether every byte of `s` is a hexadecimal digit.
pub open spec fn all_hex_digits(s: Seq<u8>) -> bool {
    forall|i: int| 0 <= i < s.len() ==> (#[trigger] hex_value(s[i])).is_some()
}

/// Whether `b` is a hexadecimal digit, of either case.
pub fn is_hex_digit(b: u8) -> (r: bool)
    ensures
        r == hex_value(b).is_some(),
{
    (0x30 <= b && b <= 0x39) || (0x61 <= b && b <= 0x66) || (0x41 <= b && b <= 0x46)
}

/// Whether every byte of `s` is a hexadecimal digit: no space, no sign.
pub fn is_hex_digits(s: &[u8]) -> (r: bool)
    ensures
        r == all_hex_digits(s@),
{
    let mut i: usize = 0;
    while i < s.len()
        invariant
            i <= s@.len(),
            forall|j: int| 0 <= j < i ==> (#[trigger] hex_value(s@[j])).is_some(),
        decreases s@.len() - i,
    {
        if !is_hex_digit(s[i]) {
            return false;
        }
        i = i + 1;
    }
    true
}

/// Space, tab, carriage return and line feed, which the decoder skips.
pub open spec fn is_hex_space(b: u8) -> bool {
    b == 0x20 || b == 0x09 || b == 0x0d || b == 0x0a
}

/// The digit values of `s` with the spaces left out, or `None` where a byte is
/// neither a digit nor a space.
pub open spec fn hex_nibbles(s: Seq<u8>) -> Option<Seq<u8>>
    decreases s.len(),
{
    if s.len() == 0 {
        Some(Seq::empty())
    } else {
        let rest = hex_nibbles(s.drop_first());
        if is_hex_space(s[0]) {
            rest
        } else {
            match (hex_value(s[0]), rest) {
                (Some(v), Some(r)) => Some(seq![v] + r),
                _ => None,
            }
        }
    }
}

/// The bytes that consecutive pairs of digit values make, high digit first.
pub open spec fn nibble_pairs(n: Seq<u8>) -> Seq<u8>
    decreases n.len(),
{
    if n.len() < 2 {
        Seq::empty()
    } else {
        seq![(n[0] * 16 + n[1]) as u8] + nibble_pairs(n.subrange(2, n.len() as int))
    }
}

/// The bytes that hexadecimal text encodes, or `None` where it holds a byte
/// other than a digit or a space, or an odd number of digits.
pub open spec fn hex_decode(s: Seq<u8>) -> Option<Seq<u8>> {
    match hex_nibbles(s) {
        Some(n) => if n.len() % 2 == 0 {
            Some(nibble_pairs(n))
        } else {
            None
        },
        None => None,
    }
}

/// Relies on `str::from_utf8` and rustc-hex's `FromHex::from_hex` on `str`:
/// digits of either case, spaces skipped, an odd count or another character
/// refused; text that is not UTF-8 holds a byte that is no digit.
#[verifier::external_body]
pub(crate) fn decode_hex(text: &[u8]) -> (r: Option<Vec<u8>>)
    ensures
        match r {
            Some(v) => hex_decode(text@) == Some(v@),
            None => hex_decode(text@).is_none(),
        },
{
    std::str::from_utf8(text).ok().and_then(|s| s.from_hex::<Vec<u8>>().ok())
}

} // verus!
