//! Big- and little-endian field readers and writers over byte buffers.
//!
//! Every exchange message is a packed binary record; these helpers are the
//! only place the crate turns raw bytes into integers and back.  Each reader
//! is specified exactly against a spec-level interpretation of the bytes, so
//! the codecs built on top of them carry field-precise contracts.

use vstd::prelude::*;

verus! {

/// Unsigned big-endian interpretation of `n` bytes of `s` starting at `i`.
pub open spec fn be_bytes(s: Seq<u8>, i: int, n: nat) -> int
    decreases n,
{
    if n == 0 {
        0
    } else {
        be_bytes(s, i, (n - 1) as nat) * 256 + s[i + n - 1]
    }
}

/// Unsigned little-endian interpretation of `n` bytes of `s` starting at `i`.
pub open spec fn le_bytes(s: Seq<u8>, i: int, n: nat) -> int
    decreases n,
{
    if n == 0 {
        0
    } else {
        le_bytes(s, i + 1, (n - 1) as nat) * 256 + s[i]
    }
}

pub open spec fn pow256(n: nat) -> int
    decreases n,
{
    if n == 0 {
        1
    } else {
        256 * pow256((n - 1) as nat)
    }
}

/// Maps an unsigned value of `n` bytes onto the signed range of that width.
pub open spec fn to_signed(v: int, n: nat) -> int {
    let half = pow256(n) / 2;
    if v >= half {
        v - pow256(n)
    } else {
        v
    }
}

pub proof fn lemma_pow256_values()
    ensures
        pow256(1) == 0x100,
        pow256(2) == 0x1_0000,
        pow256(4) == 0x1_0000_0000,
        pow256(8) == 0x1_0000_0000_0000_0000,
{
    reveal_with_fuel(pow256, 9);
}

pub proof fn lemma_be_bytes_bound(s: Seq<u8>, i: int, n: nat)
    ensures
        0 <= be_bytes(s, i, n) < pow256(n),
    decreases n,
{
    if n > 0 {
        lemma_be_bytes_bound(s, i, (n - 1) as nat);
    }
}

pub proof fn lemma_le_bytes_bound(s: Seq<u8>, i: int, n: nat)
    ensures
        0 <= le_bytes(s, i, n) < pow256(n),
    decreases n,
{
    if n > 0 {
        lemma_le_bytes_bound(s, i + 1, (n - 1) as nat);
    }
}

/// A big-endian field splits into its high and low halves.
pub proof fn lemma_be_bytes_split(s: Seq<u8>, i: int, lo: nat, hi: nat)
    ensures
        be_bytes(s, i, (hi + lo) as nat) == be_bytes(s, i, hi) * pow256(lo) + be_bytes(
            s,
            i + hi,
            lo,
        ),
    decreases lo,
{
    if lo == 0 {
    } else {
        lemma_be_bytes_split(s, i, (lo - 1) as nat, hi);
        assert(be_bytes(s, i, (hi + lo) as nat) == be_bytes(s, i, (hi + lo - 1) as nat) * 256 + s[i
            + hi + lo - 1]);
        assert(be_bytes(s, i + hi, lo) == be_bytes(s, i + hi, (lo - 1) as nat) * 256 + s[i + hi + lo
            - 1]);
        assert(be_bytes(s, i, hi) * pow256((lo - 1) as nat) * 256 == be_bytes(s, i, hi) * pow256(
            lo,
        )) by (nonlinear_arith)
            requires
                pow256(lo) == 256 * pow256((lo - 1) as nat),
        ;
    }
}

/// `le_bytes` only depends on the bytes of the range it reads.
pub proof fn lemma_le_bytes_preserved(s1: Seq<u8>, s2: Seq<u8>, i: int, n: nat)
    requires
        forall|j: int| i <= j < i + n ==> s1[j] == s2[j],
    ensures
        le_bytes(s1, i, n) == le_bytes(s2, i, n),
    decreases n,
{
    if n > 0 {
        lemma_le_bytes_preserved(s1, s2, i + 1, (n - 1) as nat);
    }
}

/// A little-endian field splits into its low and high halves.
pub proof fn lemma_le_bytes_split(s: Seq<u8>, i: int, lo: nat, hi: nat)
    ensures
        le_bytes(s, i, (lo + hi) as nat) == le_bytes(s, i, lo) + pow256(lo) * le_bytes(
            s,
            i + lo,
            hi,
        ),
    decreases lo,
{
    if lo == 0 {
    } else {
        lemma_le_bytes_split(s, i + 1, (lo - 1) as nat, hi);
        assert(pow256((lo - 1) as nat) * le_bytes(s, i + lo, hi) * 256 == pow256(lo) * le_bytes(
            s,
            i + lo,
            hi,
        )) by (nonlinear_arith)
            requires
                pow256(lo) == 256 * pow256((lo - 1) as nat),
        ;
    }
}

pub fn read_u8(buf: &[u8], off: usize) -> (r: u8)
    requires
        off < buf@.len(),
    ensures
        r == buf@[off as int],
{
    buf[off]
}

pub fn read_u16_be(buf: &[u8], off: usize) -> (r: u16)
    requires
        off + 2 <= buf@.len(),
    ensures
        r as int == be_bytes(buf@, off as int, 2),
{
    let n: usize = buf.len();
    let b0 = buf[off];
    let b1 = buf[off + 1];
    proof {
        reveal_with_fuel(be_bytes, 3);
    }
    b0 as u16 * 256 + b1 as u16
}

pub fn read_i16_be(buf: &[u8], off: usize) -> (r: i16)
    requires
        off + 2 <= buf@.len(),
    ensures
        r as int == to_signed(be_bytes(buf@, off as int, 2), 2),
{
    proof {
        lemma_pow256_values();
        lemma_be_bytes_bound(buf@, off as int, 2);
    }
    let v = read_u16_be(buf, off);
    if v >= 32768 {
        let w: u16 = v - 32768;
        (w as i16) - 32767 - 1
    } else {
        v as i16
    }
}

pub fn read_u32_be(buf: &[u8], off: usize) -> (r: u32)
    requires
        off + 4 <= buf@.len(),
    ensures
        r as int == be_bytes(buf@, off as int, 4),
{
    let n: usize = buf.len();
    let hi = read_u16_be(buf, off);
    let lo = read_u16_be(buf, off + 2);
    proof {
        lemma_pow256_values();
        lemma_be_bytes_bound(buf@, off as int, 2);
        lemma_be_bytes_bound(buf@, off as int + 2, 2);
        lemma_be_bytes_split(buf@, off as int, 2, 2);
    }
    hi as u32 * 65536 + lo as u32
}

pub fn read_i32_be(buf: &[u8], off: usize) -> (r: i32)
    requires
        off + 4 <= buf@.len(),
    ensures
        r as int == to_signed(be_bytes(buf@, off as int, 4), 4),
{
    proof {
        lemma_pow256_values();
        lemma_be_bytes_bound(buf@, off as int, 4);
    }
    let v = read_u32_be(buf, off);
    if v >= 0x8000_0000 {
        let w: u32 = v - 0x8000_0000;
        (w as i32) - 0x7fff_ffff - 1
    } else {
        v as i32
    }
}

pub fn read_u64_be(buf: &[u8], off: usize) -> (r: u64)
    requires
        off + 8 <= buf@.len(),
    ensures
        r as int == be_bytes(buf@, off as int, 8),
{
    let n: usize = buf.len();
    let hi = read_u32_be(buf, off);
    let lo = read_u32_be(buf, off + 4);
    proof {
        lemma_pow256_values();
        lemma_be_bytes_bound(buf@, off as int, 4);
        lemma_be_bytes_bound(buf@, off as int + 4, 4);
        lemma_be_bytes_split(buf@, off as int, 4, 4);
    }
    hi as u64 * 0x1_0000_0000 + lo as u64
}

pub fn read_i64_be(buf: &[u8], off: usize) -> (r: i64)
    requires
        off + 8 <= buf@.len(),
    ensures
        r as int == to_signed(be_bytes(buf@, off as int, 8), 8),
{
    proof {
        lemma_pow256_values();
        lemma_be_bytes_bound(buf@, off as int, 8);
    }
    let v = read_u64_be(buf, off);
    if v >= 0x8000_0000_0000_0000 {
        let w: u64 = v - 0x8000_0000_0000_0000;
        (w as i64) - 0x7fff_ffff_ffff_ffff - 1
    } else {
        v as i64
    }
}

/// Copies `n` bytes of `buf` starting at `off` into a fresh vector.
pub fn read_bytes(buf: &[u8], off: usize, n: usize) -> (r: Vec<u8>)
    requires
        off + n <= buf@.len(),
    ensures
        r@ == buf@.subrange(off as int, off as int + n as int),
{
    let total: usize = buf.len();
    let mut r: Vec<u8> = Vec::new();
    let mut i: usize = 0;
    while i < n
        invariant
            i <= n,
            off + n <= buf@.len(),
            off + n <= usize::MAX,
            r@ == buf@.subrange(off as int, off as int + i as int),
        decreases n - i,
    {
        r.push(buf[off + i]);
        proof {
            assert(r@ =~= buf@.subrange(off as int, off as int + (i + 1) as int));
        }
        i = i + 1;
    }
    r
}

pub fn write_u8(buf: &mut Vec<u8>, off: usize, v: u8)
    requires
        off < old(buf)@.len(),
    ensures
        final(buf)@ == old(buf)@.update(off as int, v),
{
    buf.set(off, v);
}

pub fn write_u16_le(buf: &mut Vec<u8>, off: usize, v: u16)
    requires
        off + 2 <= old(buf)@.len(),
    ensures
        final(buf)@.len() == old(buf)@.len(),
        le_bytes(final(buf)@, off as int, 2) == v as int,
        forall|j: int|
            0 <= j < old(buf)@.len() && !(off <= j < off + 2) ==> final(buf)@[j] == old(buf)@[j],
{
    let n: usize = buf.len();
    let b0: u8 = (v % 256) as u8;
    let b1: u8 = (v / 256) as u8;
    buf.set(off, b0);
    buf.set(off + 1, b1);
    proof {
        reveal_with_fuel(le_bytes, 3);
    }
}

pub fn write_i16_le(buf: &mut Vec<u8>, off: usize, v: i16)
    requires
        off + 2 <= old(buf)@.len(),
    ensures
        final(buf)@.len() == old(buf)@.len(),
        to_signed(le_bytes(final(buf)@, off as int, 2), 2) == v as int,
        forall|j: int|
            0 <= j < old(buf)@.len() && !(off <= j < off + 2) ==> final(buf)@[j] == old(buf)@[j],
{
    proof {
        lemma_pow256_values();
    }
    let u: u16 = if v < 0 {
        let w: i16 = v + 32767 + 1;
        w as u16 + 32768
    } else {
        v as u16
    };
    write_u16_le(buf, off, u);
}

pub fn write_u32_le(buf: &mut Vec<u8>, off: usize, v: u32)
    requires
        off + 4 <= old(buf)@.len(),
    ensures
        final(buf)@.len() == old(buf)@.len(),
        le_bytes(final(buf)@, off as int, 4) == v as int,
        forall|j: int|
            0 <= j < old(buf)@.len() && !(off <= j < off + 4) ==> final(buf)@[j] == old(buf)@[j],
{
    let n: usize = buf.len();
    let lo: u16 = (v % 65536) as u16;
    let hi: u16 = (v / 65536) as u16;
    write_u16_le(buf, off, lo);
    let ghost mid = buf@;
    write_u16_le(buf, off + 2, hi);
    proof {
        lemma_pow256_values();
        lemma_le_bytes_preserved(mid, buf@, off as int, 2);
        lemma_le_bytes_split(buf@, off as int, 2, 2);
    }
}

pub fn write_i32_le(buf: &mut Vec<u8>, off: usize, v: i32)
    requires
        off + 4 <= old(buf)@.len(),
    ensures
        final(buf)@.len() == old(buf)@.len(),
        to_signed(le_bytes(final(buf)@, off as int, 4), 4) == v as int,
        forall|j: int|
            0 <= j < old(buf)@.len() && !(off <= j < off + 4) ==> final(buf)@[j] == old(buf)@[j],
{
    proof {
        lemma_pow256_values();
    }
    let u: u32 = if v < 0 {
        let w: i32 = v + 0x7fff_ffff + 1;
        w as u32 + 0x8000_0000
    } else {
        v as u32
    };
    write_u32_le(buf, off, u);
}

pub fn write_u64_le(buf: &mut Vec<u8>, off: usize, v: u64)
    requires
        off + 8 <= old(buf)@.len(),
    ensures
        final(buf)@.len() == old(buf)@.len(),
        le_bytes(final(buf)@, off as int, 8) == v as int,
        forall|j: int|
            0 <= j < old(buf)@.len() && !(off <= j < off + 8) ==> final(buf)@[j] == old(buf)@[j],
{
    let n: usize = buf.len();
    let lo: u32 = (v % 0x1_0000_0000) as u32;
    let hi: u32 = (v / 0x1_0000_0000) as u32;
    write_u32_le(buf, off, lo);
    let ghost mid = buf@;
    write_u32_le(buf, off + 4, hi);
    proof {
        lemma_pow256_values();
        lemma_le_bytes_preserved(mid, buf@, off as int, 4);
        lemma_le_bytes_split(buf@, off as int, 4, 4);
    }
}

pub fn write_i64_le(buf: &mut Vec<u8>, off: usize, v: i64)
    requires
        off + 8 <= old(buf)@.len(),
    ensures
        final(buf)@.len() == old(buf)@.len(),
        to_signed(le_bytes(final(buf)@, off as int, 8), 8) == v as int,
        forall|j: int|
            0 <= j < old(buf)@.len() && !(off <= j < off + 8) ==> final(buf)@[j] == old(buf)@[j],
{
    proof {
        lemma_pow256_values();
    }
    let u: u64 = if v < 0 {
        let w: i64 = v + 0x7fff_ffff_ffff_ffff + 1;
        w as u64 + 0x8000_0000_0000_0000
    } else {
        v as u64
    };
    write_u64_le(buf, off, u);
}

// ---------------------------------------------------------------------------
// Little-endian serialization by appending, for building whole records.
// ---------------------------------------------------------------------------

/// The two little-endian bytes of `v`.
pub open spec fn spec_u16_le(v: u16) -> Seq<u8> {
    seq![(v % 256) as u8, (v / 256) as u8]
}

/// The two little-endian bytes of a signed 16-bit value (two's complement).
pub open spec fn spec_i16_le(v: i16) -> Seq<u8> {
    spec_u16_le(
        (if v < 0 {
            v + 0x1_0000
        } else {
            v as int
        }) as u16,
    )
}

/// The four little-endian bytes of `v`.
pub open spec fn spec_u32_le(v: u32) -> Seq<u8> {
    spec_u16_le((v % 0x1_0000) as u16) + spec_u16_le((v / 0x1_0000) as u16)
}

/// The four little-endian bytes of a signed 32-bit value (two's complement).
pub open spec fn spec_i32_le(v: i32) -> Seq<u8> {
    spec_u32_le(
        (if v < 0 {
            v + 0x1_0000_0000
        } else {
            v as int
        }) as u32,
    )
}

/// The eight little-endian bytes of `v`.
pub open spec fn spec_u64_le(v: u64) -> Seq<u8> {
    spec_u32_le((v % 0x1_0000_0000) as u32) + spec_u32_le((v / 0x1_0000_0000) as u32)
}

/// The eight little-endian bytes of a signed 64-bit value (two's complement).
pub open spec fn spec_i64_le(v: i64) -> Seq<u8> {
    spec_u64_le(
        (if v < 0 {
            v + 0x1_0000_0000_0000_0000
        } else {
            v as int
        }) as u64,
    )
}

pub broadcast proof fn lemma_spec_u16_le_len(v: u16)
    ensures
        (#[trigger] spec_u16_le(v)).len() == 2,
{
}

pub broadcast proof fn lemma_spec_u32_le_len(v: u32)
    ensures
        (#[trigger] spec_u32_le(v)).len() == 4,
{
    broadcast use lemma_spec_u16_le_len;

}

pub broadcast proof fn lemma_spec_u64_le_len(v: u64)
    ensures
        (#[trigger] spec_u64_le(v)).len() == 8,
{
    broadcast use lemma_spec_u32_le_len;

}

pub broadcast proof fn lemma_spec_i16_le_len(v: i16)
    ensures
        (#[trigger] spec_i16_le(v)).len() == 2,
{
    broadcast use lemma_spec_u16_le_len;

}

pub broadcast proof fn lemma_spec_i32_le_len(v: i32)
    ensures
        (#[trigger] spec_i32_le(v)).len() == 4,
{
    broadcast use lemma_spec_u32_le_len;

}

pub broadcast proof fn lemma_spec_i64_le_len(v: i64)
    ensures
        (#[trigger] spec_i64_le(v)).len() == 8,
{
    broadcast use lemma_spec_u64_le_len;

}

/// All the little-endian field lengths at once.
pub broadcast group group_le_lens {
    lemma_spec_u16_le_len,
    lemma_spec_u32_le_len,
    lemma_spec_u64_le_len,
    lemma_spec_i16_le_len,
    lemma_spec_i32_le_len,
    lemma_spec_i64_le_len,
}

pub fn push_u8(out: &mut Vec<u8>, v: u8)
    ensures
        final(out)@ == old(out)@ + seq![v],
{
    out.push(v);
    proof {
        assert(final(out)@ =~= old(out)@ + seq![v]);
    }
}

pub fn push_u16_le(out: &mut Vec<u8>, v: u16)
    ensures
        final(out)@ == old(out)@ + spec_u16_le(v),
{
    out.push((v % 256) as u8);
    out.push((v / 256) as u8);
    proof {
        assert(final(out)@ =~= old(out)@ + spec_u16_le(v));
    }
}

pub fn push_i16_le(out: &mut Vec<u8>, v: i16)
    ensures
        final(out)@ == old(out)@ + spec_i16_le(v),
{
    let u: u16 = if v < 0 {
        let w: i16 = v + 32767 + 1;
        w as u16 + 32768
    } else {
        v as u16
    };
    push_u16_le(out, u);
}

pub fn push_u32_le(out: &mut Vec<u8>, v: u32)
    ensures
        final(out)@ == old(out)@ + spec_u32_le(v),
{
    push_u16_le(out, (v % 0x1_0000) as u16);
    push_u16_le(out, (v / 0x1_0000) as u16);
    proof {
        assert(final(out)@ =~= old(out)@ + spec_u32_le(v));
    }
}

pub fn push_i32_le(out: &mut Vec<u8>, v: i32)
    ensures
        final(out)@ == old(out)@ + spec_i32_le(v),
{
    let u: u32 = if v < 0 {
        let w: i32 = v + 0x7fff_ffff + 1;
        w as u32 + 0x8000_0000
    } else {
        v as u32
    };
    push_u32_le(out, u);
}

pub fn push_u64_le(out: &mut Vec<u8>, v: u64)
    ensures
        final(out)@ == old(out)@ + spec_u64_le(v),
{
    push_u32_le(out, (v % 0x1_0000_0000) as u32);
    push_u32_le(out, (v / 0x1_0000_0000) as u32);
    proof {
        assert(final(out)@ =~= old(out)@ + spec_u64_le(v));
    }
}

pub fn push_i64_le(out: &mut Vec<u8>, v: i64)
    ensures
        final(out)@ == old(out)@ + spec_i64_le(v),
{
    let u: u64 = if v < 0 {
        let w: i64 = v + 0x7fff_ffff_ffff_ffff + 1;
        w as u64 + 0x8000_0000_0000_0000
    } else {
        v as u64
    };
    push_u64_le(out, u);
}

pub fn push_bytes(out: &mut Vec<u8>, src: &[u8])
    ensures
        final(out)@ == old(out)@ + src@,
{
    let n = src.len();
    let mut i: usize = 0;
    while i < n
        invariant
            i <= n,
            n == src@.len(),
            out@ == old(out)@ + src@.take(i as int),
        decreases n - i,
    {
        out.push(src[i]);
        proof {
            assert(out@ =~= old(out)@ + src@.take(i + 1));
        }
        i = i + 1;
    }
    proof {
        assert(old(out)@ + src@.take(n as int) =~= old(out)@ + src@);
    }
}

/// Appends `n` zero bytes; used for struct padding in serialized records.
pub fn push_zeros(out: &mut Vec<u8>, n: usize)
    ensures
        final(out)@ == old(out)@ + Seq::new(n as nat, |k: int| 0u8),
{
    let mut i: usize = 0;
    while i < n
        invariant
            i <= n,
            out@ == old(out)@ + Seq::new(i as nat, |k: int| 0u8),
        decreases n - i,
    {
        out.push(0u8);
        proof {
            assert(out@ =~= old(out)@ + Seq::new((i + 1) as nat, |k: int| 0u8));
        }
        i = i + 1;
    }
}

/// Copies all of `src` into `buf` starting at `off`.
pub fn write_bytes(buf: &mut Vec<u8>, off: usize, src: &[u8])
    requires
        off + src@.len() <= old(buf)@.len(),
    ensures
        final(buf)@.len() == old(buf)@.len(),
        forall|j: int| 0 <= j < src@.len() ==> final(buf)@[off + j] == src@[j],
        forall|j: int|
            0 <= j < old(buf)@.len() && !(off <= j < off + src@.len()) ==> final(buf)@[j] == old(
                buf,
            )@[j],
{
    let n = src.len();
    let total: usize = buf.len();
    let mut i: usize = 0;
    while i < n
        invariant
            i <= n,
            n == src@.len(),
            off + n <= buf@.len(),
            off + n <= usize::MAX,
            buf@.len() == old(buf)@.len(),
            forall|j: int| 0 <= j < i ==> buf@[off + j] == src@[j],
            forall|j: int|
                0 <= j < old(buf)@.len() && !(off <= j < off + n) ==> buf@[j] == old(buf)@[j],
        decreases n - i,
    {
        buf.set(off + i, src[i]);
        i = i + 1;
    }
}

} // verus!
