//! Byte order of multibyte values in a SAV file.
use vstd::prelude::*;

verus! {

/// The unsigned number that `s` spells least-significant byte first.
pub open spec fn le_value(s: Seq<u8>) -> nat
    decreases s.len(),
{
    if s.len() == 0 {
        0
    } else {
        s[0] as nat + 256 * le_value(s.drop_first())
    }
}

/// The `n` bytes of `v` (taken modulo `256^n`), least significant first.
pub open spec fn le_bytes(v: nat, n: nat) -> Seq<u8>
    decreases n,
{
    if n == 0 {
        Seq::empty()
    } else {
        seq![(v % 256) as u8] + le_bytes(v / 256, (n - 1) as nat)
    }
}

/// A four-byte little-endian value, digit by digit.
proof fn lemma_le_value_4(s: Seq<u8>)
    requires
        s.len() == 4,
    ensures
        le_value(s) == s[0] + 256 * s[1] + 65536 * s[2] + 16777216 * s[3],
{
    reveal_with_fuel(le_value, 5);
    assert(s.drop_first()[0] == s[1]);
    assert(s.drop_first().drop_first()[0] == s[2]);
    assert(s.drop_first().drop_first().drop_first()[0] == s[3]);
}

/// An eight-byte little-endian value from its two four-byte halves.
proof fn lemma_le_value_8(s: Seq<u8>)
    requires
        s.len() == 8,
    ensures
        le_value(s) == le_value(s.take(4)) + 4294967296 * le_value(s.skip(4)),
{
    lemma_le_value_split(s, 4);
    reveal_with_fuel(vstd::arithmetic::power::pow, 5);
    assert(vstd::arithmetic::power::pow(256, 4) == 4294967296);
}

/// A little-endian value from its first `k` bytes and the rest.
proof fn lemma_le_value_split(s: Seq<u8>, k: int)
    requires
        0 <= k <= s.len(),
    ensures
        le_value(s) == le_value(s.take(k)) + vstd::arithmetic::power::pow(256, k as nat) * le_value(
            s.skip(k),
        ),
    decreases k,
{
    vstd::arithmetic::power::lemma_pow0(256);
    if k == 0 {
        assert(s.skip(0) =~= s);
        assert(s.take(0) =~= Seq::<u8>::empty());
    } else {
        let t = s.drop_first();
        lemma_le_value_split(t, k - 1);
        assert(t.take(k - 1) =~= s.take(k).drop_first());
        assert(t.skip(k - 1) =~= s.skip(k));
        assert(s.take(k)[0] == s[0]);
        vstd::arithmetic::power::lemma_pow_adds(256, 1, (k - 1) as nat);
        vstd::arithmetic::power::lemma_pow1(256);
        let p = vstd::arithmetic::power::pow(256, (k - 1) as nat);
        let r = le_value(s.skip(k));
        assert(256 * (p * r) == (256 * p) * r) by (nonlinear_arith);
    }
}

/// Byte order of multibyte values in a SAV file.
#[derive(Debug, Clone, Copy, PartialEq, Eq, Hash, Structural)]
pub enum ByteOrder {
    /// Least significant byte first.
    LittleEndian,
    /// Most significant byte first.
    BigEndian,
}

impl ByteOrder {
    /// `bytes` rearranged so that the least significant comes first.
    pub open spec fn to_le(self, bytes: Seq<u8>) -> Seq<u8> {
        match self {
            ByteOrder::LittleEndian => bytes,
            ByteOrder::BigEndian => bytes.reverse(),
        }
    }

    /// The unsigned number `bytes` spell in this byte order.
    pub open spec fn unsigned(self, bytes: Seq<u8>) -> nat {
        le_value(self.to_le(bytes))
    }

    /// Reads a 4-byte unsigned integer in this byte order.
    pub fn read_u32(self, bytes: [u8; 4]) -> (res: u32)
        ensures
            res as nat == self.unsigned(bytes@),
    {
        let (b0, b1, b2, b3) = match self {
            ByteOrder::LittleEndian => (bytes[0], bytes[1], bytes[2], bytes[3]),
            ByteOrder::BigEndian => (bytes[3], bytes[2], bytes[1], bytes[0]),
        };
        proof {
            let s = self.to_le(bytes@);
            assert(s =~= seq![b0, b1, b2, b3]);
            lemma_le_value_4(s);
        }
        b0 as u32 + (b1 as u32) * 256 + (b2 as u32) * 65536 + (b3 as u32) * 16777216
    }

    /// Reads a 4-byte two's-complement integer in this byte order.
    pub fn read_i32(self, bytes: [u8; 4]) -> (res: i32)
        ensures
            res == (self.unsigned(bytes@) as u32) as i32,
    {
        let unsigned = self.read_u32(bytes);
        unsigned as i32
    }

    /// Reads an 8-byte unsigned integer in this byte order.
    pub fn read_u64(self, bytes: [u8; 8]) -> (res: u64)
        ensures
            res as nat == self.unsigned(bytes@),
    {
        let (low, high) = match self {
            ByteOrder::LittleEndian => (
                [bytes[0], bytes[1], bytes[2], bytes[3]],
                [bytes[4], bytes[5], bytes[6], bytes[7]],
            ),
            ByteOrder::BigEndian => (
                [bytes[7], bytes[6], bytes[5], bytes[4]],
                [bytes[3], bytes[2], bytes[1], bytes[0]],
            ),
        };
        let lo = ByteOrder::LittleEndian.read_u32(low);
        let hi = ByteOrder::LittleEndian.read_u32(high);
        proof {
            let s = self.to_le(bytes@);
            assert(s.take(4) =~= low@);
            assert(s.skip(4) =~= high@);
            lemma_le_value_8(s);
        }
        lo as u64 + (hi as u64) * 4294967296
    }

    /// Reads an 8-byte two's-complement integer in this byte order.
    pub fn read_i64(self, bytes: [u8; 8]) -> (res: i64)
        ensures
            res == (self.unsigned(bytes@) as u64) as i64,
    {
        let unsigned = self.read_u64(bytes);
        unsigned as i64
    }

    /// Writes `value` as eight bytes in this byte order.
    pub fn write_u64(self, value: u64) -> (res: [u8; 8])
        ensures
            self.to_le(res@) == le_bytes(value as nat, 8),
    {
        let b0 = (value % 256) as u8;
        let b1 = ((value / 256) % 256) as u8;
        let b2 = ((value / 65536) % 256) as u8;
        let b3 = ((value / 16777216) % 256) as u8;
        let b4 = ((value / 4294967296) % 256) as u8;
        let b5 = ((value / 1099511627776) % 256) as u8;
        let b6 = ((value / 281474976710656) % 256) as u8;
        let b7 = ((value / 72057594037927936) % 256) as u8;
        let res = match self {
            ByteOrder::LittleEndian => [b0, b1, b2, b3, b4, b5, b6, b7],
            ByteOrder::BigEndian => [b7, b6, b5, b4, b3, b2, b1, b0],
        };
        proof {
            let v = value as nat;
            reveal_with_fuel(le_bytes, 9);
            assert(v / 256 / 256 == v / 65536) by (nonlinear_arith);
            assert(v / 65536 / 256 == v / 16777216) by (nonlinear_arith);
            assert(v / 16777216 / 256 == v / 4294967296) by (nonlinear_arith);
            assert(v / 4294967296 / 256 == v / 1099511627776) by (nonlinear_arith);
            assert(v / 1099511627776 / 256 == v / 281474976710656) by (nonlinear_arith);
            assert(v / 281474976710656 / 256 == v / 72057594037927936) by (nonlinear_arith);
            assert(self.to_le(res@) =~= le_bytes(v, 8));
        }
        res
    }
}

} // verus!
