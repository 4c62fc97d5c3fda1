//! Link and network addresses, held as packed integers.

use crate::byte_slice::codec::be_bytes;
use crate::byte_slice::codec::be_value;
use crate::byte_slice::codec::lemma_be_round_trip;
use crate::byte_slice::codec::lemma_be_value_concat;
use crate::byte_slice::codec::lemma_be_value_bound;
use crate::byte_slice::codec::lemma_span_widths;
use crate::byte_slice::codec::span;
use vstd::prelude::*;

verus! {

/// An IPv4 address: its four bytes read as one big-endian number.
#[derive(Clone, Copy, Debug, Default, PartialEq, Eq, Structural)]
pub struct Ipv4addr(pub u32);

proof fn lemma_octets_u32(x: u32)
    by (bit_vector)
    ensures
        (x >> 24) as u8 == ((x / 256) / 256) / 256 % 256,
        ((x >> 16) & 0xff) as u8 == (x / 256) / 256 % 256,
        ((x >> 8) & 0xff) as u8 == x / 256 % 256,
        (x & 0xff) as u8 == x % 256,
        (((x / 256) / 256) / 256) / 256 == 0,
{
}

impl Ipv4addr {
    /// The four bytes of the address, in the order in which they are written.
    pub open spec fn spec_octets(self) -> Seq<u8> {
        be_bytes(self.0 as nat, 4)
    }

    /// The four bytes of the address, in the order in which they are written.
    pub fn octets(&self) -> (res: [u8; 4])
        ensures
            res@ == self.spec_octets(),
    {
        let x = self.0;
        let res = [(x >> 24) as u8, ((x >> 16) & 0xff) as u8, ((x >> 8) & 0xff) as u8, (x & 0xff) as u8];
        proof {
            reveal_with_fuel(be_bytes, 5);
            lemma_octets_u32(x);
            assert(res@ =~= self.spec_octets());
        }
        res
    }
}

/// An IPv6 address: its sixteen bytes read as one big-endian number.
#[derive(Clone, Copy, Debug, Default, PartialEq, Eq, Structural)]
pub struct Ipv6addr(pub u128);

proof fn lemma_segments_u128(x: u128)
    by (bit_vector)
    ensures
        ((x >> 112) & 0xffff) as u16 == x / 0x1_0000_0000_0000_0000_0000_0000_0000,
        ((x >> 96) & 0xffff) as u16 == x / 0x1_0000_0000_0000_0000_0000_0000 % 0x1_0000,
        ((x >> 80) & 0xffff) as u16 == x / 0x1_0000_0000_0000_0000_0000 % 0x1_0000,
        ((x >> 64) & 0xffff) as u16 == x / 0x1_0000_0000_0000_0000 % 0x1_0000,
        ((x >> 48) & 0xffff) as u16 == x / 0x1_0000_0000_0000 % 0x1_0000,
        ((x >> 32) & 0xffff) as u16 == x / 0x1_0000_0000 % 0x1_0000,
        ((x >> 16) & 0xffff) as u16 == x / 0x1_0000 % 0x1_0000,
        (x & 0xffff) as u16 == x % 0x1_0000,
{
}

impl Ipv6addr {
    /// The eight 16-bit groups of the address, in the order in which they are
    /// written.
    pub open spec fn spec_segments(self) -> Seq<u16> {
        let x = self.0 as nat;
        seq![
            (x / 0x1_0000_0000_0000_0000_0000_0000_0000) as u16,
            (x / 0x1_0000_0000_0000_0000_0000_0000 % 0x1_0000) as u16,
            (x / 0x1_0000_0000_0000_0000_0000 % 0x1_0000) as u16,
            (x / 0x1_0000_0000_0000_0000 % 0x1_0000) as u16,
            (x / 0x1_0000_0000_0000 % 0x1_0000) as u16,
            (x / 0x1_0000_0000 % 0x1_0000) as u16,
            (x / 0x1_0000 % 0x1_0000) as u16,
            (x % 0x1_0000) as u16,
        ]
    }

    /// The eight 16-bit groups of the address, in the order in which they are
    /// written.
    pub fn segments(&self) -> (res: [u16; 8])
        ensures
            res@ == self.spec_segments(),
    {
        let x = self.0;
        let res = [
            ((x >> 112) & 0xffff) as u16,
            ((x >> 96) & 0xffff) as u16,
            ((x >> 80) & 0xffff) as u16,
            ((x >> 64) & 0xffff) as u16,
            ((x >> 48) & 0xffff) as u16,
            ((x >> 32) & 0xffff) as u16,
            ((x >> 16) & 0xffff) as u16,
            (x & 0xffff) as u16,
        ];
        proof {
            lemma_segments_u128(x);
            assert(res@ =~= self.spec_segments());
        }
        res
    }
}

/// A 48-bit hardware address, packed into its upper 16 and lower 32 bits.
#[derive(Clone, Copy, Debug, Default, PartialEq, Eq, Structural)]
pub struct MacAddress(u16, u32);

proof fn lemma_pack_u64(x: u64)
    by (bit_vector)
    ensures
        ((x >> 32) & 0xffff) as u16 == x / 0x1_0000_0000 % 0x1_0000,
        (x & 0xffff_ffff) as u32 == x % 0x1_0000_0000,
{
}

proof fn lemma_octets_mac(high: u32, low: u32)
    by (bit_vector)
    requires
        high < 0x1_0000,
    ensures
        (high >> 8) as u8 == high / 256,
        (high & 0xff) as u8 == high % 256,
        (low >> 24) as u8 == ((low / 256) / 256) / 256,
        ((low >> 16) & 0xff) as u8 == (low / 256) / 256 % 256,
        ((low >> 8) & 0xff) as u8 == low / 256 % 256,
        (low & 0xff) as u8 == low % 256,
{
}

proof fn lemma_div_step(a: nat, b: nat)
    ensures
        (a * 256 + b) / 256 == a + b / 256,
        (a * 256 + b) % 256 == b % 256,
{
}

impl MacAddress {
    /// The address as one number below `2^48`.
    pub closed spec fn value(self) -> nat {
        (self.0 as nat) * 0x1_0000_0000 + self.1 as nat
    }

    /// The address made of the low 48 bits of `value`.
    pub closed spec fn pack(value: u64) -> MacAddress {
        MacAddress(((value >> 32) & 0xffff) as u16, (value & 0xffff_ffff) as u32)
    }

    /// The six bytes of the address, in the order in which they are written.
    pub open spec fn spec_octets(self) -> Seq<u8> {
        be_bytes(self.value(), 6)
    }

    /// An address is a 48-bit number, and is determined by it.
    pub proof fn lemma_value(self, other: MacAddress)
        ensures
            self.value() < 0x1_0000_0000_0000,
            self.value() == other.value() ==> self == other,
    {
    }

    /// Packing keeps the low 48 bits of the number.
    pub proof fn lemma_pack(value: u64)
        ensures
            Self::pack(value).value() == value % 0x1_0000_0000_0000,
    {
        lemma_pack_u64(value);
    }

    /// The six bytes of the address, in the order in which they are written.
    pub fn octets(&self) -> (res: [u8; 6])
        ensures
            res@ == self.spec_octets(),
    {
        let high = self.0 as u32;
        let low = self.1;
        let res = [
            (high >> 8) as u8,
            (high & 0xff) as u8,
            (low >> 24) as u8,
            ((low >> 16) & 0xff) as u8,
            ((low >> 8) & 0xff) as u8,
            (low & 0xff) as u8,
        ];
        proof {
            let h = high as nat;
            let l = low as nat;
            let q1 = self.value() / 256;
            let q2 = q1 / 256;
            let q3 = q2 / 256;
            let q4 = q3 / 256;
            let q5 = q4 / 256;
            lemma_octets_mac(high, low);
            lemma_div_step(h * 0x100_0000, l);
            assert(q1 == h * 0x100_0000 + l / 256);
            lemma_div_step(h * 0x1_0000, l / 256);
            assert(q2 == h * 0x1_0000 + l / 256 / 256);
            lemma_div_step(h * 0x100, l / 256 / 256);
            assert(q3 == h * 0x100 + l / 256 / 256 / 256);
            lemma_div_step(h, l / 256 / 256 / 256);
            assert(q4 == h);
            assert(q5 == h / 256);
            reveal_with_fuel(be_bytes, 7);
            assert(self.spec_octets() =~= seq![
                (q5 % 256) as u8,
                (q4 % 256) as u8,
                (q3 % 256) as u8,
                (q2 % 256) as u8,
                (q1 % 256) as u8,
                (self.value() % 256) as u8,
            ]);
            assert(res@ =~= self.spec_octets());
        }
        res
    }
}

impl From<u64> for MacAddress {
    /// Keeps the low 48 bits of `value`.
    fn from(value: u64) -> (res: Self)
        ensures
            res.value() == value % 0x1_0000_0000_0000,
    {
        proof {
            Self::lemma_pack(value);
        }
        Self(((value >> 32) & 0xffff) as u16, (value & 0xffff_ffff) as u32)
    }
}

impl vstd::std_specs::convert::FromSpecImpl<u64> for MacAddress {
    open spec fn obeys_from_spec() -> bool {
        true
    }

    open spec fn from_spec(value: u64) -> Self {
        MacAddress::pack(value)
    }
}

/// Six bytes, read as a number, packed into an address and written out
/// again, are the same six bytes.
pub proof fn lemma_mac_round_trip(bytes: Seq<u8>)
    requires
        bytes.len() == 6,
    ensures
        be_value(bytes) <= u64::MAX,
        MacAddress::pack(be_value(bytes) as u64).spec_octets() == bytes,
{
    reveal_with_fuel(span, 7);
    lemma_be_value_bound(bytes);
    lemma_be_round_trip(bytes);
    MacAddress::lemma_pack(be_value(bytes) as u64);
}

/// Four bytes, read as a number and written out again as an IPv4 address,
/// are the same four bytes.
pub proof fn lemma_ipv4_round_trip(bytes: Seq<u8>)
    requires
        bytes.len() == 4,
    ensures
        be_value(bytes) <= u32::MAX,
        Ipv4addr(be_value(bytes) as u32).spec_octets() == bytes,
{
    lemma_span_widths();
    lemma_be_value_bound(bytes);
    lemma_be_round_trip(bytes);
}

proof fn lemma_group_step(bytes: Seq<u8>, k: int)
    requires
        0 <= k,
        2 * k + 2 <= bytes.len(),
    ensures
        be_value(bytes.take(2 * k + 2)) == be_value(bytes.take(2 * k)) * 0x1_0000 + be_value(
            bytes.subrange(2 * k, 2 * k + 2),
        ),
        be_value(bytes.subrange(2 * k, 2 * k + 2)) < 0x1_0000,
{
    let group = bytes.subrange(2 * k, 2 * k + 2);
    reveal_with_fuel(span, 3);
    lemma_be_value_concat(bytes.take(2 * k), group);
    lemma_be_value_bound(group);
    assert(bytes.take(2 * k + 2) =~= bytes.take(2 * k) + group);
}

proof fn lemma_quotient(x: nat, p: nat, g: nat)
    requires
        x == p * 0x1_0000 + g,
        g < 0x1_0000,
    ensures
        x / 0x1_0000 == p,
        x % 0x1_0000 == g,
{
}

/// Sixteen bytes, read as a number and split again into the groups of an
/// IPv6 address, give the eight numbers that the eight pairs of bytes spell.
pub proof fn lemma_ipv6_round_trip(bytes: Seq<u8>)
    requires
        bytes.len() == 16,
    ensures
        be_value(bytes) <= u128::MAX,
        forall|k: int|
            0 <= k < 8 ==> (#[trigger] Ipv6addr(be_value(bytes) as u128).spec_segments()[k])
                == be_value(bytes.subrange(2 * k, 2 * k + 2)),
{
    lemma_span_widths();
    lemma_be_value_bound(bytes);
    let x = be_value(bytes);
    let p1 = be_value(bytes.take(2));
    let p2 = be_value(bytes.take(4));
    let p3 = be_value(bytes.take(6));
    let p4 = be_value(bytes.take(8));
    let p5 = be_value(bytes.take(10));
    let p6 = be_value(bytes.take(12));
    let p7 = be_value(bytes.take(14));
    let g0 = be_value(bytes.subrange(0, 2));
    let g1 = be_value(bytes.subrange(2, 4));
    let g2 = be_value(bytes.subrange(4, 6));
    let g3 = be_value(bytes.subrange(6, 8));
    let g4 = be_value(bytes.subrange(8, 10));
    let g5 = be_value(bytes.subrange(10, 12));
    let g6 = be_value(bytes.subrange(12, 14));
    let g7 = be_value(bytes.subrange(14, 16));
    assert(p1 == g0 && g0 < 0x1_0000) by {
        lemma_group_step(bytes, 0);
        assert(bytes.take(0) =~= Seq::<u8>::empty());
    }
    assert(p2 == p1 * 0x1_0000 + g1 && g1 < 0x1_0000) by {
        lemma_group_step(bytes, 1);
    }
    assert(p3 == p2 * 0x1_0000 + g2 && g2 < 0x1_0000) by {
        lemma_group_step(bytes, 2);
    }
    assert(p4 == p3 * 0x1_0000 + g3 && g3 < 0x1_0000) by {
        lemma_group_step(bytes, 3);
    }
    assert(p5 == p4 * 0x1_0000 + g4 && g4 < 0x1_0000) by {
        lemma_group_step(bytes, 4);
    }
    assert(p6 == p5 * 0x1_0000 + g5 && g5 < 0x1_0000) by {
        lemma_group_step(bytes, 5);
    }
    assert(p7 == p6 * 0x1_0000 + g6 && g6 < 0x1_0000) by {
        lemma_group_step(bytes, 6);
    }
    assert(x == p7 * 0x1_0000 + g7 && g7 < 0x1_0000) by {
        lemma_group_step(bytes, 7);
        assert(bytes.take(16) =~= bytes);
    }
    lemma_quotient(x, p7, g7);
    lemma_quotient(p7, p6, g6);
    lemma_quotient(p6, p5, g5);
    lemma_quotient(p5, p4, g4);
    lemma_quotient(p4, p3, g3);
    lemma_quotient(p3, p2, g2);
    lemma_quotient(p2, p1, g1);
    assert(x / 0x1_0000_0000 == p6) by {
        vstd::arithmetic::div_mod::lemma_div_denominator(x as int, 0x1_0000, 0x1_0000);
    }
    assert(x / 0x1_0000_0000_0000 == p5) by {
        vstd::arithmetic::div_mod::lemma_div_denominator(x as int, 0x1_0000_0000, 0x1_0000);
    }
    assert(x / 0x1_0000_0000_0000_0000 == p4) by {
        vstd::arithmetic::div_mod::lemma_div_denominator(x as int, 0x1_0000_0000_0000, 0x1_0000);
    }
    assert(x / 0x1_0000_0000_0000_0000_0000 == p3) by {
        vstd::arithmetic::div_mod::lemma_div_denominator(
            x as int,
            0x1_0000_0000_0000_0000,
            0x1_0000,
        );
    }
    assert(x / 0x1_0000_0000_0000_0000_0000_0000 == p2) by {
        vstd::arithmetic::div_mod::lemma_div_denominator(
            x as int,
            0x1_0000_0000_0000_0000_0000,
            0x1_0000,
        );
    }
    assert(x / 0x1_0000_0000_0000_0000_0000_0000_0000 == p1) by {
        vstd::arithmetic::div_mod::lemma_div_denominator(
            x as int,
            0x1_0000_0000_0000_0000_0000_0000,
            0x1_0000,
        );
    }
    let segments = Ipv6addr(x as u128).spec_segments();
    assert(segments[0] == g0);
    assert(segments[1] == g1);
    assert(segments[2] == g2);
    assert(segments[3] == g3);
    assert(segments[4] == g4);
    assert(segments[5] == g5);
    assert(segments[6] == g6);
    assert(segments[7] == g7);
}

} // verus!
