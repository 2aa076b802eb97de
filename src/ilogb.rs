//! Binary exponent of a double-precision float.
use vstd::prelude::*;
use vstd::arithmetic::logarithm::log;
use vstd::arithmetic::power2::{
    pow2, lemma_pow2_adds, lemma_pow2_pos, lemma_pow2_strictly_increases, lemma_pow2_unfold, lemma2_to64,
    lemma2_to64_rest,
};
use crate::bits::{fields64, FloatBits64, EXP_MAX_64};

verus! {

/// What `ilogb` returns for a NaN.
pub const FP_ILOGBNAN: i32 = -1 - 0x7fffffff;

/// What `ilogb` returns for a zero.
pub const FP_ILOGB0: i32 = FP_ILOGBNAN;

/// The exponent that `ilogb` gives the double-precision bit pattern `b`:
/// for a normal number its unbiased exponent, for a subnormal one the
/// exponent of its highest set mantissa bit, and the sentinels for zero,
/// NaN and Infinity.
pub open spec fn ilogb_spec(b: u64) -> int {
    let f = fields64(b);
    if f.exponent == 0 {
        if f.mantissa == 0 {
            FP_ILOGB0 as int
        } else {
            log(2, f.mantissa as int) - 1074
        }
    } else if f.exponent == EXP_MAX_64 {
        if f.mantissa != 0 {
            FP_ILOGBNAN as int
        } else {
            i32::MAX as int
        }
    } else {
        f.exponent - 1023
    }
}

/// The floor of the base-2 logarithm of `x` is `n` when `x` lies in
/// `[2^n, 2^(n+1))`.
proof fn lemma_log2_between(x: int, n: nat)
    requires
        pow2(n) <= x < pow2(n + 1),
    ensures
        log(2, x) == n,
    decreases n,
{
    lemma_pow2_unfold(n + 1);
    if n == 0 {
        lemma2_to64();
        assert(log(2, x) == 0) by {
            reveal(log);
        }
    } else {
        lemma_pow2_unfold(n);
        lemma_log2_between(x / 2, (n - 1) as nat);
        assert(log(2, x) == 1 + log(2, x / 2)) by {
            reveal(log);
        }
    }
}

/// Scaling by `2^j` moves the window `[2^n, 2^(n+1))` down by `j`.
proof fn lemma_unscale(a: int, j: nat, n: nat)
    requires
        j <= n,
        pow2(n) <= a * pow2(j) < pow2(n + 1),
    ensures
        pow2((n - j) as nat) <= a < pow2((n + 1 - j) as nat),
{
    let p = pow2(j) as int;
    let lo = pow2((n - j) as nat) as int;
    let hi = pow2((n + 1 - j) as nat) as int;
    lemma_pow2_adds((n - j) as nat, j);
    lemma_pow2_adds((n + 1 - j) as nat, j);
    lemma_pow2_pos(j);
    assert(a >= lo) by (nonlinear_arith)
        requires
            a * p >= lo * p,
            p > 0,
    ;
    assert(a < hi) by (nonlinear_arith)
        requires
            a * p < hi * p,
            p > 0,
    ;
}

/// Binary exponent of the double-precision float whose bit pattern is `b`.
///
/// All nonzero normal numbers can be written `m * 2^p` with `1 <= m < 2`;
/// the result is `p`. A subnormal number gives the exponent of its highest
/// set bit, so the smallest positive subnormal gives `-1074`. Zero gives
/// `FP_ILOGB0`, NaN gives `FP_ILOGBNAN` and an Infinity gives `i32::MAX`.
pub fn ilogb(b: u64) -> (r: i32)
    ensures
        r as int == ilogb_spec(b),
{
    let f = FloatBits64::decompose(b);
    if f.exponent == 0 {
        let m = f.mantissa;
        let mut i: u64 = b << 12u64;
        assert(b << 12u64 == m * 4096) by (bit_vector)
            requires
                m == b & 0xf_ffff_ffff_ffffu64,
                (b >> 52u64) & 0x7ffu64 == 0u64,
        ;
        if i == 0 {
            return FP_ILOGB0;
        }
        proof {
            lemma2_to64();
        }
        let mut e: i32 = -0x3ff;
        while (i >> 63u64) == 0
            invariant
                -1074 <= e <= -1023,
                0 < m < 0x10_0000_0000_0000u64,
                i as int == m * pow2((12 + (-1023 - e)) as nat),
            decreases e + 1074,
        {
            proof {
                let k: nat = (-1023 - e) as nat;
                lemma2_to64_rest();
                assert(i < 0x8000_0000_0000_0000u64) by (bit_vector)
                    requires i >> 63u64 == 0u64;
                assert(i << 1u64 == i * 2) by (bit_vector)
                    requires i < 0x8000_0000_0000_0000u64;
                assert(pow2(12 + k) <= m * pow2(12 + k)) by (nonlinear_arith)
                    requires m >= 1;
                if 12 + k > 63 {
                    lemma_pow2_strictly_increases(63, 12 + k);
                }
                assert(12 + k < 63);
                lemma_pow2_unfold(12 + k + 1);
                assert(m * pow2(12 + k + 1) == m * pow2(12 + k) * 2) by (nonlinear_arith)
                    requires pow2(12 + k + 1) == 2 * pow2(12 + k);
            }
            e = e - 1;
            i = i << 1u64;
        }
        proof {
            let k: nat = (-1023 - e) as nat;
            lemma2_to64();
            lemma2_to64_rest();
            assert(i >= 0x8000_0000_0000_0000u64) by (bit_vector)
                requires i >> 63u64 != 0u64;
            lemma_unscale(m as int, 12 + k, 63);
            lemma_log2_between(m as int, (51 - k) as nat);
        }
        e
    } else if f.exponent == EXP_MAX_64 {
        if f.mantissa != 0 {
            FP_ILOGBNAN
        } else {
            i32::MAX
        }
    } else {
        f.exponent as i32 - 0x3ff
    }
}

} // verus!
