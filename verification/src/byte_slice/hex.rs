//! Bytes written as text, two hexadecimal digits each.

use vstd::prelude::*;
use vstd::string::StringSliceAdditionalSpecFns;

verus! {

/// The value of the hexadecimal digit whose ASCII code is `c`: `0` to `9`,
/// `a` to `f` or `A` to `F`.
pub open spec fn hex_digit(c: u8) -> Option<u8> {
    if 0x30 <= c <= 0x39 {
        Some((c - 0x30) as u8)
    } else if 0x61 <= c <= 0x66 {
        Some((c - 0x61 + 10) as u8)
    } else if 0x41 <= c <= 0x46 {
        Some((c - 0x41 + 10) as u8)
    } else {
        None
    }
}

/// The byte that two characters spell: two digits, the upper one first, or,
/// as the standard integer parser reads it, a plus sign and one digit.
pub open spec fn hex_pair(first: u8, second: u8) -> Option<u8> {
    match (hex_digit(first), hex_digit(second)) {
        (Some(high), Some(low)) => Some((16 * high + low) as u8),
        (None, Some(low)) => if first == 0x2b {
            Some(low)
        } else {
            None
        },
        _ => None,
    }
}

/// The byte that the `i`-th pair of characters of `text` spells.
pub open spec fn hex_pair_at(text: Seq<u8>, i: int) -> Option<u8> {
    hex_pair(text[2 * i], text[2 * i + 1])
}

/// Whether every pair of characters of `text` spells a byte. A last
/// character without a partner does not count.
pub open spec fn is_hex_stream(text: Seq<u8>) -> bool {
    forall|i: int| 0 <= i < text.len() / 2 ==> (#[trigger] hex_pair_at(text, i)) is Some
}

/// The bytes that the pairs of characters of `text` spell, in their order.
pub open spec fn hex_stream_bytes(text: Seq<u8>) -> Seq<u8> {
    Seq::new(text.len() / 2, |i: int| hex_pair_at(text, i).unwrap())
}

/// What a text of hexadecimal digits decodes to: its bytes, or nothing where
/// some pair of characters spells no byte.
pub open spec fn spec_parse_hex_stream(text: Seq<u8>) -> Option<Seq<u8>> {
    if is_hex_stream(text) {
        Some(hex_stream_bytes(text))
    } else {
        None
    }
}

fn digit_value(c: u8) -> (res: Option<u8>)
    ensures
        res == hex_digit(c),
{
    if 0x30 <= c && c <= 0x39 {
        Some(c - 0x30)
    } else if 0x61 <= c && c <= 0x66 {
        Some(c - 0x61 + 10)
    } else if 0x41 <= c && c <= 0x46 {
        Some(c - 0x41 + 10)
    } else {
        None
    }
}

fn pair_value(first: u8, second: u8) -> (res: Option<u8>)
    ensures
        res == hex_pair(first, second),
{
    match (digit_value(first), digit_value(second)) {
        (Some(high), Some(low)) => Some(16 * high + low),
        (None, Some(low)) => if first == 0x2b {
            Some(low)
        } else {
            None
        },
        _ => None,
    }
}

/// Decodes a text of hexadecimal digits, given as its ASCII codes, into
/// bytes. Gives nothing where some pair of characters spells no byte.
pub fn parse_hex_stream(text: &[u8]) -> (res: Option<Vec<u8>>)
    ensures
        match res {
            Some(bytes) => spec_parse_hex_stream(text@) == Some(bytes@),
            None => spec_parse_hex_stream(text@) is None,
        },
{
    let count = text.len() / 2;
    let mut bytes: Vec<u8> = Vec::new();
    let mut i: usize = 0;
    while i < count
        invariant
            count == text@.len() / 2,
            i <= count,
            bytes@.len() == i,
            forall|j: int| 0 <= j < i ==> (#[trigger] hex_pair_at(text@, j)) == Some(bytes@[j]),
        decreases count - i,
    {
        match pair_value(text[2 * i], text[2 * i + 1]) {
            Some(byte) => {
                bytes.push(byte);
            },
            None => {
                assert(hex_pair_at(text@, i as int) is None);
                return None;
            },
        }
        i = i + 1;
    }
    proof {
        assert(bytes@ =~= hex_stream_bytes(text@));
    }
    Some(bytes)
}

/// A text of hexadecimal digits that can be turned into the bytes it spells.
pub trait Hex {
    /// The characters of the text, as their codes.
    spec fn hex_text(&self) -> Seq<u8>;

    /// The bytes that the text spells, two digits each. A text in which
    /// some pair of characters spells no byte is not accepted.
    fn hex_stream_to_vec(&self) -> (res: Vec<u8>)
        requires
            is_hex_stream(self.hex_text()),
        ensures
            res@ == hex_stream_bytes(self.hex_text()),
    ;
}

impl Hex for &str {
    open spec fn hex_text(&self) -> Seq<u8> {
        (*self).spec_bytes()
    }

    fn hex_stream_to_vec(&self) -> (res: Vec<u8>) {
        parse_hex_stream(self.as_bytes()).unwrap()
    }
}

} // verus!
