//! Fixed-width little-endian integers inside a byte buffer.

use vstd::prelude::*;

verus! {

/// The number whose base-256 digits, lowest first, are `bytes`.
pub open spec fn le_value(bytes: Seq<u8>) -> nat
    decreases bytes.len(),
{
    if bytes.len() == 0 {
        0
    } else {
        bytes[0] as nat + 256 * le_value(bytes.drop_first())
    }
}

/// The lowest `width` base-256 digits of `value`, lowest first.
pub open spec fn le_bytes(value: nat, width: nat) -> Seq<u8>
    decreases width,
{
    if width == 0 {
        Seq::empty()
    } else {
        seq![(value % 256) as u8] + le_bytes(value / 256, (width - 1) as nat)
    }
}

/// `buf` with the bytes from `at` on replaced by `patch`.
pub open spec fn splice(buf: Seq<u8>, at: int, patch: Seq<u8>) -> Seq<u8> {
    Seq::new(
        buf.len(),
        |i: int|
            if at <= i < at + patch.len() {
                patch[i - at]
            } else {
                buf[i]
            },
    )
}

/// The encoding of a number has the width asked for.
pub proof fn lemma_le_bytes_len(value: nat, width: nat)
    ensures
        le_bytes(value, width).len() == width,
    decreases width,
{
    if width > 0 {
        lemma_le_bytes_len(value / 256, (width - 1) as nat);
    }
}

/// Decoding the four-byte encoding of a `u32` gives the number back.
pub proof fn lemma_u32_round_trip(value: u32)
    ensures
        le_bytes(value as nat, 4).len() == 4,
        le_value(le_bytes(value as nat, 4)) == value,
{
    lemma_le_bytes_len(value as nat, 4);
    let v = value as nat;
    let s = le_bytes(v, 4);
    reveal_with_fuel(le_bytes, 5);
    let expected = seq![
        (v % 256) as u8,
        (v / 256 % 256) as u8,
        (v / 256 / 256 % 256) as u8,
        (v / 256 / 256 / 256 % 256) as u8,
    ];
    assert(s =~= expected);
    lemma_le_value_4(expected);
}

/// Decoding the eight-byte encoding of a `u64` gives the number back.
pub proof fn lemma_u64_round_trip(value: u64)
    ensures
        le_bytes(value as nat, 8).len() == 8,
        le_value(le_bytes(value as nat, 8)) == value,
{
    lemma_le_bytes_len(value as nat, 8);
    let v = value as nat;
    let s = le_bytes(v, 8);
    reveal_with_fuel(le_bytes, 9);
    let expected = seq![
        (v % 256) as u8,
        (v / 256 % 256) as u8,
        (v / 256 / 256 % 256) as u8,
        (v / 256 / 256 / 256 % 256) as u8,
        (v / 256 / 256 / 256 / 256 % 256) as u8,
        (v / 256 / 256 / 256 / 256 / 256 % 256) as u8,
        (v / 256 / 256 / 256 / 256 / 256 / 256 % 256) as u8,
        (v / 256 / 256 / 256 / 256 / 256 / 256 / 256 % 256) as u8,
    ];
    assert(s =~= expected);
    lemma_le_value_8(expected);
    lemma_le_value_4(expected.subrange(0, 4));
    lemma_le_value_4(expected.subrange(4, 8));
}

/// The value of four bytes, written out.
pub proof fn lemma_le_value_4(s: Seq<u8>)
    requires
        s.len() == 4,
    ensures
        le_value(s) == s[0] + 256 * (s[1] + 256 * (s[2] + 256 * s[3])),
{
    let s1 = s.drop_first();
    let s2 = s1.drop_first();
    let s3 = s2.drop_first();
    let s4 = s3.drop_first();
    assert(s4.len() == 0);
    assert(le_value(s4) == 0);
    assert(le_value(s3) == s3[0] + 256 * le_value(s4));
    assert(le_value(s2) == s2[0] + 256 * le_value(s3));
    assert(le_value(s1) == s1[0] + 256 * le_value(s2));
    assert(le_value(s) == s[0] + 256 * le_value(s1));
}

/// The value of eight bytes, written out.
pub proof fn lemma_le_value_8(s: Seq<u8>)
    requires
        s.len() == 8,
    ensures
        le_value(s) == le_value(s.subrange(0, 4)) + 4294967296 * le_value(s.subrange(4, 8)),
{
    let lo = s.subrange(0, 4);
    let hi = s.subrange(4, 8);
    lemma_le_value_4(lo);
    lemma_le_value_4(hi);
    let s1 = s.drop_first();
    let s2 = s1.drop_first();
    let s3 = s2.drop_first();
    let s4 = s3.drop_first();
    assert(s4 =~= hi);
    assert(le_value(s3) == s3[0] + 256 * le_value(s4));
    assert(le_value(s2) == s2[0] + 256 * le_value(s3));
    assert(le_value(s1) == s1[0] + 256 * le_value(s2));
    assert(le_value(s) == s[0] + 256 * le_value(s1));
}

/// Reads the `u32` stored at `offset`, lowest byte first.
pub fn read_u32_le(buf: &[u8], offset: usize) -> (value: u32)
    requires
        offset + 4 <= buf@.len(),
    ensures
        value == le_value(buf@.subrange(offset as int, offset + 4)),
{
    let b0: u32 = buf[offset] as u32;
    let b1: u32 = buf[offset + 1] as u32;
    let b2: u32 = buf[offset + 2] as u32;
    let b3: u32 = buf[offset + 3] as u32;
    proof {
        lemma_le_value_4(buf@.subrange(offset as int, offset + 4));
    }
    b0 + 256 * (b1 + 256 * (b2 + 256 * b3))
}

/// Reads the `u64` stored at `offset`, lowest byte first.
pub fn read_u64_le(buf: &[u8], offset: usize) -> (value: u64)
    requires
        offset + 8 <= buf@.len(),
    ensures
        value == le_value(buf@.subrange(offset as int, offset + 8)),
{
    let len = buf.len();
    assert(offset + 8 <= len);
    let lo: u64 = read_u32_le(buf, offset) as u64;
    let hi: u64 = read_u32_le(buf, offset + 4) as u64;
    proof {
        let s = buf@.subrange(offset as int, offset + 8);
        lemma_le_value_8(s);
        assert(s.subrange(0, 4) =~= buf@.subrange(offset as int, offset + 4));
        assert(s.subrange(4, 8) =~= buf@.subrange(offset + 4, offset + 8));
    }
    lo + 4294967296 * hi
}

/// Writes `bytes` into `buf` from `offset` on and leaves every other byte as it was.
pub fn write_bytes(buf: &mut [u8], offset: usize, bytes: &[u8])
    requires
        offset + bytes@.len() <= old(buf)@.len(),
    ensures
        final(buf)@ == splice(old(buf)@, offset as int, bytes@),
{
    let n = bytes.len();
    let len = buf.len();
    assert(offset + n <= len);
    let mut i: usize = 0;
    while i < n
        invariant
            i <= n,
            n == bytes@.len(),
            offset + n <= len,
            len == buf@.len(),
            buf@.len() == old(buf)@.len(),
            buf@ == splice(old(buf)@, offset as int, bytes@.take(i as int)),
        decreases n - i,
    {
        buf[offset + i] = bytes[i];
        i = i + 1;
        proof {
            assert(buf@ =~= splice(old(buf)@, offset as int, bytes@.take(i as int)));
        }
    }
    proof {
        assert(bytes@.take(n as int) =~= bytes@);
    }
}

/// Writes `value` at `offset` in four bytes, lowest first, and leaves every
/// other byte as it was.
pub fn write_u32_le(buf: &mut [u8], offset: usize, value: u32)
    requires
        offset + 4 <= old(buf)@.len(),
    ensures
        final(buf)@ == splice(old(buf)@, offset as int, le_bytes(value as nat, 4)),
{
    let digits: [u8; 4] = [
        (value % 256) as u8,
        (value / 256 % 256) as u8,
        (value / 256 / 256 % 256) as u8,
        (value / 256 / 256 / 256 % 256) as u8,
    ];
    proof {
        reveal_with_fuel(le_bytes, 5);
        assert(digits@ =~= le_bytes(value as nat, 4));
    }
    write_bytes(buf, offset, &digits);
}

/// Writes `value` at `offset` in eight bytes, lowest first, and leaves every
/// other byte as it was.
pub fn write_u64_le(buf: &mut [u8], offset: usize, value: u64)
    requires
        offset + 8 <= old(buf)@.len(),
    ensures
        final(buf)@ == splice(old(buf)@, offset as int, le_bytes(value as nat, 8)),
{
    let digits: [u8; 8] = [
        (value % 256) as u8,
        (value / 256 % 256) as u8,
        (value / 256 / 256 % 256) as u8,
        (value / 256 / 256 / 256 % 256) as u8,
        (value / 256 / 256 / 256 / 256 % 256) as u8,
        (value / 256 / 256 / 256 / 256 / 256 % 256) as u8,
        (value / 256 / 256 / 256 / 256 / 256 / 256 % 256) as u8,
        (value / 256 / 256 / 256 / 256 / 256 / 256 / 256 % 256) as u8,
    ];
    proof {
        reveal_with_fuel(le_bytes, 9);
        assert(digits@ =~= le_bytes(value as nat, 8));
    }
    write_bytes(buf, offset, &digits);
}

} // verus!
