//! Reading wire fields that carry an IEEE-754 double.
//!
//! A few NSE broadcast fields are doubles on the wire, and the pipeline only
//! ever uses them truncated to a signed 64-bit integer.  This module decodes
//! the bit pattern and truncates with integer arithmetic alone, following the
//! saturating semantics of Rust's float-to-integer cast: not-a-number becomes
//! zero, magnitudes below one become zero, and out-of-range values clamp to
//! the extremes.

use vstd::prelude::*;

use crate::bytesio::be_bytes;

verus! {

pub open spec fn pow2(n: nat) -> int
    decreases n,
{
    if n == 0 {
        1
    } else {
        2 * pow2((n - 1) as nat)
    }
}

proof fn lemma_pow2_pos(n: nat)
    ensures
        pow2(n) >= 1,
    decreases n,
{
    if n > 0 {
        lemma_pow2_pos((n - 1) as nat);
    }
}

proof fn lemma_pow2_increases(a: nat, b: nat)
    requires
        a <= b,
    ensures
        pow2(a) <= pow2(b),
    decreases b,
{
    if a < b {
        lemma_pow2_increases(a, (b - 1) as nat);
        lemma_pow2_pos((b - 1) as nat);
    }
}

proof fn lemma_pow2_63()
    ensures
        pow2(52) == 0x10_0000_0000_0000,
        pow2(63) == 0x8000_0000_0000_0000,
{
    reveal_with_fuel(pow2, 64);
}

/// Truncation toward zero of the double with bit pattern `bits`, saturating
/// exactly as Rust's `as i64` cast of that double does.
pub open spec fn spec_f64_to_i64(bits: u64) -> i64 {
    let sign = bits / 0x8000_0000_0000_0000;
    let e = (bits / 0x10_0000_0000_0000) % 0x800;
    let f = bits % 0x10_0000_0000_0000;
    if e == 0x7ff {
        if f != 0 {
            0i64
        } else if sign == 0 {
            i64::MAX
        } else {
            i64::MIN
        }
    } else if e < 1023 {
        0i64
    } else {
        let m = 0x10_0000_0000_0000 + f;
        let mag = if e >= 1075 {
            m * pow2((e - 1075) as nat)
        } else {
            m / pow2((1075 - e) as nat)
        };
        if sign == 0 {
            if mag > i64::MAX {
                i64::MAX
            } else {
                mag as i64
            }
        } else {
            if mag > 0x8000_0000_0000_0000 {
                i64::MIN
            } else {
                (-mag) as i64
            }
        }
    }
}

/// The truncated value of the big-endian double stored at `i`.
pub open spec fn spec_f64_field(s: Seq<u8>, i: int) -> i64 {
    spec_f64_to_i64(be_bytes(s, i, 8) as u64)
}

pub fn f64_bits_to_i64(bits: u64) -> (r: i64)
    ensures
        r == spec_f64_to_i64(bits),
{
    let sign: u64 = bits / 0x8000_0000_0000_0000;
    let e: u64 = (bits / 0x10_0000_0000_0000) % 0x800;
    let f: u64 = bits % 0x10_0000_0000_0000;
    if e == 0x7ff {
        if f != 0 {
            0i64
        } else if sign == 0 {
            i64::MAX
        } else {
            i64::MIN
        }
    } else if e < 1023 {
        0i64
    } else if e >= 1023 + 63 {
        // The magnitude is at least 2^63: saturate.
        proof {
            lemma_pow2_63();
            let m = 0x10_0000_0000_0000 + f as int;
            if e >= 1075 {
                lemma_pow2_increases(63, (e - 1075 + 52) as nat);
                lemma_pow2_pos((e - 1075) as nat);
                assert(m * pow2((e - 1075) as nat) >= 0x10_0000_0000_0000 * pow2(
                    (e - 1075) as nat,
                )) by (nonlinear_arith)
                    requires
                        m >= 0x10_0000_0000_0000,
                        pow2((e - 1075) as nat) >= 1,
                ;
                assert(0x10_0000_0000_0000 * pow2((e - 1075) as nat) == pow2(
                    (e - 1075 + 52) as nat,
                )) by {
                    lemma_pow2_mul_52((e - 1075) as nat);
                }
            } else {
                // 1086 <= e < 1075 is impossible here.
            }
        }
        if sign == 0 {
            i64::MAX
        } else {
            i64::MIN
        }
    } else {
        // 1023 <= e <= 1085: the magnitude fits well inside a u128.
        let m: u128 = 0x10_0000_0000_0000u128 + f as u128;
        let mag: u128 = if e >= 1075 {
            let sh: u64 = e - 1075;
            let mut p: u128 = 1;
            let mut i: u64 = 0;
            while i < sh
                invariant
                    i <= sh,
                    sh <= 10,
                    p == pow2(i as nat),
                decreases sh - i,
            {
                proof {
                    lemma_pow2_increases(i as nat, 10);
                    reveal_with_fuel(pow2, 11);
                }
                p = p * 2;
                i = i + 1;
            }
            proof {
                lemma_pow2_increases(sh as nat, 10);
                reveal_with_fuel(pow2, 11);
                assert(m * p <= 0x20_0000_0000_0000u128 * 1024) by (nonlinear_arith)
                    requires
                        m <= 0x20_0000_0000_0000u128,
                        p <= 1024,
                        m >= 0,
                        p >= 1,
                ;
            }
            m * p
        } else {
            let sh: u64 = 1075 - e;
            let mut p: u128 = 1;
            let mut i: u64 = 0;
            while i < sh
                invariant
                    i <= sh,
                    sh <= 52,
                    p == pow2(i as nat),
                decreases sh - i,
            {
                proof {
                    lemma_pow2_increases(i as nat, 52);
                    lemma_pow2_63();
                }
                p = p * 2;
                i = i + 1;
            }
            proof {
                lemma_pow2_pos(sh as nat);
            }
            m / p
        };
        proof {
            lemma_mag_fits(e as int, f as int, mag as int);
        }
        if sign == 0 {
            mag as i64
        } else {
            let neg: i64 = -(mag as i64);
            neg
        }
    }
}

/// When the exponent keeps the magnitude under 2^63, the computed magnitude
/// fits in `i64`.
proof fn lemma_mag_fits(e: int, f: int, mag: int)
    requires
        1023 <= e <= 1085,
        0 <= f < 0x10_0000_0000_0000,
        mag == (if e >= 1075 {
            (0x10_0000_0000_0000 + f) * pow2((e - 1075) as nat)
        } else {
            (0x10_0000_0000_0000 + f) / pow2((1075 - e) as nat)
        }),
    ensures
        0 <= mag < 0x8000_0000_0000_0000,
{
    let m = 0x10_0000_0000_0000 + f;
    lemma_pow2_63();
    if e >= 1075 {
        let k = (e - 1075) as nat;
        lemma_pow2_increases(k, 10);
        reveal_with_fuel(pow2, 11);
        lemma_pow2_pos(k);
        assert(m * pow2(k) < 0x20_0000_0000_0000 * pow2(k)) by (nonlinear_arith)
            requires
                m < 0x20_0000_0000_0000,
                pow2(k) >= 1,
        ;
        assert(0x20_0000_0000_0000 * pow2(k) <= 0x20_0000_0000_0000 * 1024) by (nonlinear_arith)
            requires
                pow2(k) <= 1024,
        ;
        assert(m * pow2(k) >= 0) by (nonlinear_arith)
            requires
                m >= 0,
                pow2(k) >= 1,
        ;
    } else {
        let k = (1075 - e) as nat;
        lemma_pow2_pos(k);
        assert(0 <= m / pow2(k) <= m) by (nonlinear_arith)
            requires
                m >= 0,
                pow2(k) >= 1,
        ;
    }
}

/// pow2(k + 52) is pow2(52) * pow2(k).
proof fn lemma_pow2_mul_52(k: nat)
    ensures
        0x10_0000_0000_0000 * pow2(k) == pow2((k + 52) as nat),
    decreases k,
{
    if k == 0 {
        lemma_pow2_63();
    } else {
        lemma_pow2_mul_52((k - 1) as nat);
        assert(0x10_0000_0000_0000 * (2 * pow2((k - 1) as nat)) == 2 * (0x10_0000_0000_0000 * pow2(
            (k - 1) as nat,
        ))) by (nonlinear_arith);
    }
}

/// Reads the big-endian double at `off` and truncates it to an integer.
pub fn f64_field(buf: &[u8], off: usize) -> (r: i64)
    requires
        off + 8 <= buf@.len(),
    ensures
        r == spec_f64_field(buf@, off as int),
{
    let bits = crate::bytesio::read_u64_be(buf, off);
    proof {
        crate::bytesio::lemma_be_bytes_bound(buf@, off as int, 8);
        crate::bytesio::lemma_pow256_values();
    }
    f64_bits_to_i64(bits)
}

} // verus!
