//! Big-endian unsigned integers read from byte ranges.

use vstd::prelude::*;

verus! {

/// The number that `bytes` spell, most significant byte first.
pub open spec fn be_value(bytes: Seq<u8>) -> nat
    decreases bytes.len(),
{
    if bytes.len() == 0 {
        0
    } else {
        be_value(bytes.drop_last()) * 256 + bytes.last() as nat
    }
}

/// The 16-bit number that at most two bytes spell.
pub open spec fn be_u16(bytes: Seq<u8>) -> u16 {
    be_value(bytes) as u16
}

/// The 32-bit number that at most four bytes spell.
pub open spec fn be_u32(bytes: Seq<u8>) -> u32 {
    be_value(bytes) as u32
}

/// The 64-bit number that at most eight bytes spell.
pub open spec fn be_u64(bytes: Seq<u8>) -> u64 {
    be_value(bytes) as u64
}

/// The 128-bit number that at most sixteen bytes spell.
pub open spec fn be_u128(bytes: Seq<u8>) -> u128 {
    be_value(bytes) as u128
}

/// The `width` bytes that spell `value` (modulo `256^width`), most
/// significant byte first.
pub open spec fn be_bytes(value: nat, width: nat) -> Seq<u8>
    decreases width,
{
    if width == 0 {
        Seq::empty()
    } else {
        be_bytes(value / 256, (width - 1) as nat).push((value % 256) as u8)
    }
}

/// `256^width`: the number of values that `width` bytes can spell.
pub open spec fn span(width: nat) -> nat
    decreases width,
{
    if width == 0 {
        1
    } else {
        256 * span((width - 1) as nat)
    }
}

/// `width` bytes spell a number below `256^width`.
pub proof fn lemma_be_value_bound(bytes: Seq<u8>)
    ensures
        be_value(bytes) < span(bytes.len()),
    decreases bytes.len(),
{
    if bytes.len() > 0 {
        lemma_be_value_bound(bytes.drop_last());
    }
}

/// Decoding a byte range and spelling the result out again in as many bytes
/// gives the range back: no two ranges of one width decode alike.
pub proof fn lemma_be_round_trip(bytes: Seq<u8>)
    ensures
        be_bytes(be_value(bytes), bytes.len()) == bytes,
    decreases bytes.len(),
{
    if bytes.len() > 0 {
        let head = bytes.drop_last();
        let v = be_value(head);
        lemma_be_round_trip(head);
        assert((v * 256 + bytes.last() as nat) / 256 == v);
        assert((v * 256 + bytes.last() as nat) % 256 == bytes.last() as nat);
        assert(be_bytes(be_value(bytes), bytes.len()) =~= bytes);
    }
}

/// Spelling a number that fits in `width` bytes and decoding the bytes gives
/// the number back.
pub proof fn lemma_be_value_of_bytes(value: nat, width: nat)
    requires
        value < span(width),
    ensures
        be_bytes(value, width).len() == width,
        be_value(be_bytes(value, width)) == value,
    decreases width,
{
    if width > 0 {
        let rest = be_bytes(value / 256, (width - 1) as nat);
        lemma_be_value_of_bytes(value / 256, (width - 1) as nat);
        assert(be_bytes(value, width).drop_last() =~= rest);
    }
}

/// A range decodes to its leading part, moved up by the width of the rest,
/// plus the rest.
pub proof fn lemma_be_value_concat(high: Seq<u8>, low: Seq<u8>)
    ensures
        be_value(high + low) == be_value(high) * span(low.len()) + be_value(low),
    decreases low.len(),
{
    if low.len() == 0 {
        assert(high + low =~= high);
        assert(span(low.len()) == 1);
        assert(be_value(low) == 0);
        assert(be_value(high) * 1 == be_value(high));
    } else {
        let rest = low.drop_last();
        let h = be_value(high);
        let s = span(rest.len());
        lemma_be_value_concat(high, rest);
        assert((high + low).drop_last() =~= high + rest);
        assert((high + low).last() == low.last());
        assert(span(low.len()) == 256 * s);
        assert(h * (256 * s) == (h * s) * 256) by (nonlinear_arith);
        assert(be_value(high + low) == be_value(high + rest) * 256 + low.last() as nat);
        assert(be_value(low) == be_value(rest) * 256 + low.last() as nat);
    }
}

proof fn lemma_span_values()
    ensures
        span(0) == 1,
        span(1) == 0x100,
        span(2) == 0x1_0000,
        span(3) == 0x100_0000,
        span(4) == 0x1_0000_0000,
        span(5) == 0x100_0000_0000,
        span(6) == 0x1_0000_0000_0000,
        span(7) == 0x100_0000_0000_0000,
        span(8) == 0x1_0000_0000_0000_0000,
        span(9) == 0x100_0000_0000_0000_0000,
        span(10) == 0x1_0000_0000_0000_0000_0000,
        span(11) == 0x100_0000_0000_0000_0000_0000,
        span(12) == 0x1_0000_0000_0000_0000_0000_0000,
        span(13) == 0x100_0000_0000_0000_0000_0000_0000,
        span(14) == 0x1_0000_0000_0000_0000_0000_0000_0000,
        span(15) == 0x100_0000_0000_0000_0000_0000_0000_0000,
        span(16) == 0x1_0000_0000_0000_0000_0000_0000_0000_0000,
{
    reveal_with_fuel(span, 18);
}

/// The values of `span` for the widths of the machine integers.
pub proof fn lemma_span_widths()
    ensures
        span(1) == u8::MAX + 1,
        span(2) == u16::MAX + 1,
        span(4) == u32::MAX + 1,
        span(8) == u64::MAX + 1,
        span(16) == u128::MAX + 1,
{
    lemma_span_values();
}

/// `span` grows with the width.
pub proof fn lemma_span_monotonic(a: nat, b: nat)
    requires
        a <= b,
    ensures
        span(a) <= span(b),
    decreases b,
{
    if a < b {
        lemma_span_monotonic(a, (b - 1) as nat);
    }
}

proof fn lemma_append_u16(acc: u16, byte: u8)
    by (bit_vector)
    requires
        acc < 0x100,
    ensures
        (acc << 8) | (byte as u16) == acc * 256 + byte,
{
}

proof fn lemma_append_u32(acc: u32, byte: u8)
    by (bit_vector)
    requires
        acc < 0x100_0000,
    ensures
        (acc << 8) | (byte as u32) == acc * 256 + byte,
{
}

proof fn lemma_append_u64(acc: u64, byte: u8)
    by (bit_vector)
    requires
        acc < 0x100_0000_0000_0000,
    ensures
        (acc << 8) | (byte as u64) == acc * 256 + byte,
{
}

proof fn lemma_append_u128(acc: u128, byte: u8)
    by (bit_vector)
    requires
        acc < 0x100_0000_0000_0000_0000_0000_0000_0000,
    ensures
        (acc << 8) | (byte as u128) == acc * 256 + byte,
{
}

/// Reading a byte range as an unsigned integer of a fixed width, most
/// significant byte first. A range wider than the integer is not accepted.
pub trait SliceToUnsigned {
    /// The bytes of the range.
    spec fn octets(&self) -> Seq<u8>;

    fn to_u8(&self) -> (res: u8)
        requires
            self.octets().len() == 1,
        ensures
            res == be_value(self.octets()),
            res == self.octets()[0],
    ;

    fn to_u16(&self) -> (res: u16)
        requires
            self.octets().len() <= 2,
        ensures
            res == be_value(self.octets()),
    ;

    fn to_u32(&self) -> (res: u32)
        requires
            self.octets().len() <= 4,
        ensures
            res == be_value(self.octets()),
    ;

    fn to_u64(&self) -> (res: u64)
        requires
            self.octets().len() <= 8,
        ensures
            res == be_value(self.octets()),
    ;

    fn to_u128(&self) -> (res: u128)
        requires
            self.octets().len() <= 16,
        ensures
            res == be_value(self.octets()),
    ;
}

impl SliceToUnsigned for [u8] {
    open spec fn octets(&self) -> Seq<u8> {
        self@
    }

    fn to_u8(&self) -> (res: u8) {
        proof {
            reveal_with_fuel(be_value, 2);
        }
        self[0]
    }

    fn to_u16(&self) -> (res: u16) {
        let mut res: u16 = 0;
        let mut i: usize = 0;
        while i < self.len()
            invariant
                i <= self.len() <= 2,
                res == be_value(self@.take(i as int)),
            decreases self.len() - i,
        {
            let byte = self[i];
            proof {
                lemma_be_value_bound(self@.take(i as int));
                lemma_span_monotonic(i as nat, 1);
                lemma_span_values();
                lemma_append_u16(res, byte);
                assert(self@.take(i + 1).drop_last() =~= self@.take(i as int));
            }
            res = (res << 8) | (byte as u16);
            i = i + 1;
        }
        proof {
            assert(self@.take(i as int) =~= self@);
        }
        res
    }

    fn to_u32(&self) -> (res: u32) {
        let mut res: u32 = 0;
        let mut i: usize = 0;
        while i < self.len()
            invariant
                i <= self.len() <= 4,
                res == be_value(self@.take(i as int)),
            decreases self.len() - i,
        {
            let byte = self[i];
            proof {
                lemma_be_value_bound(self@.take(i as int));
                lemma_span_monotonic(i as nat, 3);
                lemma_span_values();
                lemma_append_u32(res, byte);
                assert(self@.take(i + 1).drop_last() =~= self@.take(i as int));
            }
            res = (res << 8) | (byte as u32);
            i = i + 1;
        }
        proof {
            assert(self@.take(i as int) =~= self@);
        }
        res
    }

    fn to_u64(&self) -> (res: u64) {
        let mut res: u64 = 0;
        let mut i: usize = 0;
        while i < self.len()
            invariant
                i <= self.len() <= 8,
                res == be_value(self@.take(i as int)),
            decreases self.len() - i,
        {
            let byte = self[i];
            proof {
                lemma_be_value_bound(self@.take(i as int));
                lemma_span_monotonic(i as nat, 7);
                lemma_span_values();
                lemma_append_u64(res, byte);
                assert(self@.take(i + 1).drop_last() =~= self@.take(i as int));
            }
            res = (res << 8) | (byte as u64);
            i = i + 1;
        }
        proof {
            assert(self@.take(i as int) =~= self@);
        }
        res
    }

    fn to_u128(&self) -> (res: u128) {
        let mut res: u128 = 0;
        let mut i: usize = 0;
        while i < self.len()
            invariant
                i <= self.len() <= 16,
                res == be_value(self@.take(i as int)),
            decreases self.len() - i,
        {
            let byte = self[i];
            proof {
                lemma_be_value_bound(self@.take(i as int));
                lemma_span_monotonic(i as nat, 15);
                lemma_span_values();
                lemma_append_u128(res, byte);
                assert(self@.take(i + 1).drop_last() =~= self@.take(i as int));
            }
            res = (res << 8) | (byte as u128);
            i = i + 1;
        }
        proof {
            assert(self@.take(i as int) =~= self@);
        }
        res
    }
}

} // verus!
