//! Argument reduction by multiples of pi/2 for single-precision sine.
//!
//! Small arguments take the fast regime: a multiple of pi/2 is picked by
//! comparing the magnitude's bit pattern against fixed breakpoints, and the
//! caller subtracts it in double precision. Large arguments take the exact
//! regime: the significand is multiplied, in integers, by a window of the
//! binary expansion of 2/pi, which yields the quadrant and a fixed-point
//! remainder that no cancellation can spoil.
use vstd::prelude::*;
use vstd::arithmetic::power2::{pow2, lemma_pow2_adds, lemma_pow2_pos, lemma2_to64, lemma2_to64_rest};
use vstd::arithmetic::div_mod::{
    lemma_div_denominator, lemma_div_pos_is_pos, lemma_fundamental_div_mod, lemma_hoist_over_denominator,
    lemma_mod_breakdown, lemma_mod_multiples_vanish,
};
use vstd::bits::lemma_u128_shr_is_div;
use crate::bits::{fields32, FloatBits32, EXP_MAX_32};

verus! {

/// Magnitude bit patterns that bound the fast-regime bands: about pi/4,
/// 3pi/4, 5pi/4, 7pi/4 and 9pi/4. Band `k` holds the magnitudes above
/// breakpoint `k - 1` and not above breakpoint `k`; its remainder is taken
/// against `k` times pi/2.
pub const SINF_BREAKPOINTS: [u32; 5] = [0x3f49_0fda, 0x4016_cbe3, 0x407b_53d1, 0x40af_eddf, 0x40e2_31d5];

/// The breakpoints as a sequence, for contracts.
pub open spec fn sinf_breakpoints() -> Seq<u32> {
    seq![0x3f49_0fdau32, 0x4016_cbe3u32, 0x407b_53d1u32, 0x40af_eddfu32, 0x40e2_31d5u32]
}

/// Below this magnitude pattern (2^-12) sine is its argument.
pub const SINF_TINY: u32 = 0x3980_0000;

/// Magnitude pattern of Infinity; above it lie the NaNs.
pub const INF_BITS_32: u32 = 0x7f80_0000;

/// How single-precision sine handles an argument.
#[derive(Clone, Copy, Debug, PartialEq, Eq, Structural)]
pub enum SinfPlan {
    /// So small that the sine rounds to the argument itself.
    Tiny,
    /// Fast regime: the remainder is `x - offset * pi/2`, and `quadrant` is
    /// `offset` taken mod 4.
    Fast { offset: i32, quadrant: u32 },
    /// NaN or Infinity: the result is NaN.
    NotFinite,
    /// Too large for the fast regime: reduce with the exact regime.
    Large,
}

/// The band of the fast regime that the magnitude pattern `ix` falls in.
pub open spec fn in_band(ix: u32, k: int) -> bool {
    0 <= k < 5 && (k == 0 || sinf_breakpoints()[k - 1] < ix) && ix <= sinf_breakpoints()[k]
}

/// Picks the fast-regime band of a magnitude pattern: the first breakpoint
/// that it does not exceed.
fn band_of(ix: u32) -> (k: u32)
    requires
        ix <= SINF_BREAKPOINTS[4],
    ensures
        in_band(ix, k as int),
{
    assert(SINF_BREAKPOINTS@ == sinf_breakpoints());
    let mut k: usize = 0;
    while ix > SINF_BREAKPOINTS[k]
        invariant
            k < 5,
            SINF_BREAKPOINTS@ == sinf_breakpoints(),
            ix <= sinf_breakpoints()[4],
            k == 0 || sinf_breakpoints()[k - 1] < ix,
        decreases 5 - k,
    {
        k = k + 1;
    }
    k as u32
}

/// Decides how single-precision sine treats the float whose bit pattern is
/// `b`.
pub fn sinf_plan(b: u32) -> (r: SinfPlan)
    ensures
        ({
            let ix = b & 0x7fff_ffffu32;
            let neg = fields32(b).sign;
            if ix < SINF_TINY {
                r == SinfPlan::Tiny
            } else if ix <= sinf_breakpoints()[4] {
                exists|k: int|
                    #[trigger] in_band(ix, k) && r == (SinfPlan::Fast {
                        offset: if neg { -k as i32 } else { k as i32 },
                        quadrant: ((if neg { -k } else { k }) % 4) as u32,
                    })
            } else if ix >= INF_BITS_32 {
                r == SinfPlan::NotFinite
            } else {
                r == SinfPlan::Large
            }
        }),
{
    let f = FloatBits32::decompose(b);
    let ix = b & 0x7fff_ffffu32;
    assert(SINF_BREAKPOINTS@ == sinf_breakpoints());
    if ix < SINF_TINY {
        SinfPlan::Tiny
    } else if ix <= SINF_BREAKPOINTS[4] {
        let k = band_of(ix);
        if f.sign {
            SinfPlan::Fast { offset: -(k as i32), quadrant: (4 - k) % 4 }
        } else {
            SinfPlan::Fast { offset: k as i32, quadrant: k % 4 }
        }
    } else if ix >= INF_BITS_32 {
        SinfPlan::NotFinite
    } else {
        SinfPlan::Large
    }
}

/// Which kernel gives `sin(y + quadrant * pi/2)` from the remainder `y`.
#[derive(Clone, Copy, Debug, PartialEq, Eq, Structural)]
pub struct KernelChoice {
    /// Evaluate the cosine kernel rather than the sine kernel.
    pub cosine: bool,
    /// Hand the kernel `-y` rather than `y`.
    pub negate_argument: bool,
    /// Negate what the kernel returns.
    pub negate_result: bool,
}

/// Quadrant 0 gives `sin y`, 1 gives `cos y`, 2 gives `sin(-y)` and 3 gives
/// `-cos y`.
pub fn sin_kernel_for(quadrant: u32) -> (r: KernelChoice)
    ensures
        r.cosine == (quadrant % 2 == 1),
        r.negate_argument == (quadrant % 4 == 2),
        r.negate_result == (quadrant % 4 == 3),
{
    let q = quadrant % 4;
    KernelChoice { cosine: q % 2 == 1, negate_argument: q == 2, negate_result: q == 3 }
}

/// The first 224 bits of the binary expansion of 2/pi, as an integer:
/// 2/pi lies between this value divided by 2^224 and 2^-224 above it.
pub open spec fn two_over_pi_bits() -> int {
    0xa2f9_836e_4e44_1529_fc27_57d1_f534_ddc0_db62_9599_3c43_9041_fe51_63abint
}

/// One unit of quadrant in the fixed-point scale of the exact regime.
pub open spec fn quarter_turn() -> int {
    0x4000_0000_0000_0000_0000_0000int
}

/// Four quadrants: a whole turn.
pub open spec fn whole_turn() -> int {
    0x1_0000_0000_0000_0000_0000_0000int
}

/// 96 bits of the expansion of 2/pi, aligned for a float whose biased
/// exponent is `e`: bits `280 - e` to `375 - e` of `two_over_pi_bits()`.
pub open spec fn window(e: int) -> int {
    (two_over_pi_bits() / pow2((280 - e) as nat) as int) % whole_turn()
}

/// The 24-bit significand of a normal single-precision pattern.
pub open spec fn significand32(b: u32) -> int {
    fields32(b).mantissa + 0x80_0000
}

/// `|x| * (2/pi)` in units of 2^-94, modulo 4 quadrants, from the windowed
/// product of the exact regime.
pub open spec fn reduced_product(b: u32) -> int {
    (significand32(b) * window(fields32(b).exponent as int)) % whole_turn()
}

/// Quadrant and fixed-point remainder of an argument: up to whole turns,
/// and to the accuracy that `lemma_reduce_large_accuracy` states, the
/// argument is `(quadrant + fraction / 2^94) * pi/2`.
#[derive(Clone, Copy, Debug, PartialEq, Eq, Structural)]
pub struct ReducedArgument {
    pub quadrant: u32,
    pub fraction: i128,
}

/// `pow2(n)` for the multiples of 32 that the exact regime uses, and for
/// the fixed-point scale.
proof fn lemma_pow2_values()
    ensures
        pow2(96) == 0x1_0000_0000_0000_0000_0000_0000int,
        pow2(128) == 0x1_0000_0000_0000_0000_0000_0000_0000_0000int,
        pow2(94) == 0x4000_0000_0000_0000_0000_0000int,
{
    lemma2_to64();
    lemma2_to64_rest();
    lemma_pow2_adds(64, 32);
    lemma_pow2_adds(64, 64);
    lemma_pow2_adds(64, 30);
}

/// The binary expansion of 2/pi in 32-bit limbs, most significant first:
/// the first limb is the integer part, zero, and the others are the first
/// 224 bits of the fraction.
pub const TWO_OVER_PI_LIMBS: [u32; 8] = [
    0x0000_0000, 0xa2f9_836e, 0x4e44_1529, 0xfc27_57d1, 0xf534_ddc0, 0xdb62_9599, 0x3c43_9041, 0xfe51_63ab,
];

/// Four limbs joined into one 128-bit value, most significant first.
proof fn lemma_join_limbs(a: u32, b: u32, c: u32, d: u32)
    ensures
        ((a as u128) << 96u128) | ((b as u128) << 64u128) | ((c as u128) << 32u128) | (d as u128)
            == a * 0x1_0000_0000_0000_0000_0000_0000int + b * 0x1_0000_0000_0000_0000int + c * 0x1_0000_0000int + d,
{
    assert(((a as u128) << 96u128) | ((b as u128) << 64u128) | ((c as u128) << 32u128) | (d as u128)
        == (a as u128) * 0x1_0000_0000_0000_0000_0000_0000u128 + (b as u128) * 0x1_0000_0000_0000_0000u128
            + (c as u128) * 0x1_0000_0000u128 + (d as u128)) by (bit_vector);
}

/// The 128 bits of `two_over_pi_bits()` that start at bit `32 * c`.
fn two_over_pi_chunk(c: u32) -> (r: u128)
    requires
        c <= 4,
    ensures
        r as int == (two_over_pi_bits() / pow2(32 * c as nat) as int) % pow2(128) as int,
{
    let k: usize = (4 - c) as usize;
    let r: u128 = ((TWO_OVER_PI_LIMBS[k] as u128) << 96u128) | ((TWO_OVER_PI_LIMBS[k + 1] as u128) << 64u128)
        | ((TWO_OVER_PI_LIMBS[k + 2] as u128) << 32u128) | (TWO_OVER_PI_LIMBS[k + 3] as u128);
    proof {
        lemma_join_limbs(
            TWO_OVER_PI_LIMBS[k as int],
            TWO_OVER_PI_LIMBS[k + 1],
            TWO_OVER_PI_LIMBS[k + 2],
            TWO_OVER_PI_LIMBS[k + 3],
        );
        lemma2_to64();
        lemma2_to64_rest();
        lemma_pow2_values();
        lemma_pow2_adds(32, 32);
        let t = two_over_pi_bits();
        let m = 0x1_0000_0000_0000_0000_0000_0000_0000_0000int;
        if c == 0 {
            assert(pow2(32 * c as nat) == 1);
            assert(t % m == 0xf534_ddc0_db62_9599_3c43_9041_fe51_63abint);
        } else if c == 1 {
            assert(pow2(32 * c as nat) == 0x1_0000_0000int);
            assert((t / 0x1_0000_0000int) % m == 0xfc27_57d1_f534_ddc0_db62_9599_3c43_9041int);
        } else if c == 2 {
            assert(pow2(32 * c as nat) == 0x1_0000_0000_0000_0000int);
            assert((t / 0x1_0000_0000_0000_0000int) % m == 0x4e44_1529_fc27_57d1_f534_ddc0_db62_9599int);
        } else if c == 3 {
            assert(pow2(32 * c as nat) == 0x1_0000_0000_0000_0000_0000_0000int);
            assert((t / 0x1_0000_0000_0000_0000_0000_0000int) % m == 0xa2f9_836e_4e44_1529_fc27_57d1_f534_ddc0int);
        } else {
            assert(pow2(32 * c as nat) == m);
            assert((t / m) % m == 0xa2f9_836e_4e44_1529_fc27_57d1int);
        }
    }
    r
}

/// Shifting right by fewer than 33 bits after keeping the low 128 bits
/// leaves the low 96 bits as they would be without the truncation.
proof fn lemma_window_of_chunk(t: int, a: nat, rr: nat)
    requires
        0 <= t,
        rr <= 32,
    ensures
        (((t / pow2(a) as int) % pow2(128) as int) / pow2(rr) as int) % pow2(96) as int
            == (t / pow2(a + rr) as int) % pow2(96) as int,
{
    let pa = pow2(a) as int;
    let pr = pow2(rr) as int;
    let k = pow2((96 + (32 - rr)) as nat) as int;
    let h = pow2((32 - rr) as nat) as int;
    let w = pow2(96) as int;
    lemma_pow2_pos(a);
    lemma_pow2_pos(rr);
    lemma_pow2_pos(96);
    lemma_pow2_pos(128);
    lemma_pow2_pos((32 - rr) as nat);
    lemma_pow2_adds(a, rr);
    lemma_pow2_adds(96, (32 - rr) as nat);
    lemma_pow2_adds((128 - rr) as nat, rr);
    let big = pow2(128) as int;
    assert(big == k * pr);
    let aa = t / pa;
    lemma_div_pos_is_pos(t, pa);
    lemma_div_denominator(t, pa, pr);
    assert(t / pow2(a + rr) as int == aa / pr);
    let q = aa / big;
    let s = aa % big;
    lemma_fundamental_div_mod(aa, big);
    // aa == big * q + s == (q * k) * pr + s
    assert(aa == s + (q * k) * pr) by (nonlinear_arith)
        requires
            aa == big * q + s,
            big == k * pr,
    ;
    lemma_hoist_over_denominator(s, q * k, pow2(rr));
    assert(aa / pr == s / pr + q * k);
    assert(q * k == w * (q * h)) by (nonlinear_arith)
        requires
            k == w * h,
    ;
    lemma_mod_multiples_vanish(q * h, s / pr, w);
}

/// Exact regime of the reduction: for a finite single-precision pattern
/// `b` with magnitude at least 1, the quadrant and the remainder of `x`
/// against multiples of pi/2.
///
/// The magnitude is multiplied by 96 bits of 2/pi chosen by its exponent,
/// which gives `|x| * (2/pi)` modulo 4 with 94 fraction bits; the result is
/// rounded to the nearest quadrant, so that `|fraction| <= 2^93`, and
/// negated with `x`.
pub fn reduce_large(b: u32) -> (r: ReducedArgument)
    requires
        0x7f <= fields32(b).exponent < EXP_MAX_32,
    ensures
        r.quadrant < 4,
        !fields32(b).sign ==> {
            &&& -quarter_turn() / 2 <= r.fraction < quarter_turn() / 2
            &&& (r.quadrant * quarter_turn() + r.fraction - reduced_product(b)) % whole_turn() == 0
        },
        fields32(b).sign ==> {
            &&& -quarter_turn() / 2 < r.fraction <= quarter_turn() / 2
            &&& (r.quadrant * quarter_turn() + r.fraction + reduced_product(b)) % whole_turn() == 0
        },
{
    let f = FloatBits32::decompose(b);
    let m: u128 = (f.mantissa + 0x80_0000u32) as u128;
    let shift: u32 = 280 - f.exponent;
    let c: u32 = shift / 32;
    let rr: u32 = shift % 32;
    let chunk = two_over_pi_chunk(c);
    proof {
        lemma_u128_shr_is_div(chunk, rr as u128);
    }
    let w: u128 = (chunk >> rr) % 0x1_0000_0000_0000_0000_0000_0000u128;
    proof {
        lemma_pow2_values();
        lemma_window_of_chunk(two_over_pi_bits(), 32 * c as nat, rr as nat);
        assert(w as int == window(f.exponent as int));
        assert(m * w < 0x100_0000_0000_0000_0000_0000_0000_0000int) by (nonlinear_arith)
            requires
                m < 0x100_0000,
                w < 0x1_0000_0000_0000_0000_0000_0000int,
        ;
    }
    let p: u128 = m * w;
    let n0: u32 = ((p / 0x4000_0000_0000_0000_0000_0000u128) % 4) as u32;
    let f0: u128 = p % 0x4000_0000_0000_0000_0000_0000u128;
    proof {
        lemma_mod_breakdown(p as int, quarter_turn(), 4);
        assert(p as int % whole_turn() == n0 * quarter_turn() + f0);
    }
    let (n, fr): (u32, i128) = if f0 >= 0x2000_0000_0000_0000_0000_0000u128 {
        proof {
            lemma_mod_multiples_vanish(-1, n0 * quarter_turn() + f0, whole_turn());
            lemma_mod_multiples_vanish(-1, p as int, whole_turn());
        }
        ((n0 + 1) % 4, f0 as i128 - 0x4000_0000_0000_0000_0000_0000i128)
    } else {
        (n0, f0 as i128)
    };
    proof {
        lemma_fundamental_div_mod(p as int, whole_turn());
        lemma_mod_multiples_vanish(p as int / whole_turn(), n * quarter_turn() + fr - p as int % whole_turn(), whole_turn());
    }
    if f.sign {
        proof {
            lemma_mod_multiples_vanish(1, (4 - n) % 4 * quarter_turn() - fr + p, whole_turn());
        }
        ReducedArgument { quadrant: (4 - n) % 4, fraction: -fr }
    } else {
        ReducedArgument { quadrant: n, fraction: fr }
    }
}

/// `|x| * (2/pi) * 2^94`, rounded down, for the normal single-precision
/// pattern `b` with the 224-bit expansion of 2/pi: `|x|` is the
/// significand times `2^(e - 150)`.
pub open spec fn exact_scaled_turns(b: u32) -> int {
    (significand32(b) * two_over_pi_bits()) / pow2((280 - fields32(b).exponent) as nat) as int
}

/// The exact regime is accurate: modulo a whole turn, the windowed product
/// falls short of `|x| * (2/pi) * 2^94` by less than the significand, that
/// is by less than 2^-70 of a quadrant.
pub proof fn lemma_reduce_large_accuracy(b: u32)
    requires
        0x7f <= fields32(b).exponent < EXP_MAX_32,
    ensures
        0 <= (exact_scaled_turns(b) - reduced_product(b)) % whole_turn() < significand32(b),
{
    let m = significand32(b);
    let t = two_over_pi_bits();
    let e = fields32(b).exponent as int;
    let d = pow2((280 - e) as nat) as int;
    let w = whole_turn();
    lemma_pow2_pos((280 - e) as nat);
    lemma_pow2_values();
    let a = t / d;
    let rest = t % d;
    lemma_fundamental_div_mod(t, d);
    let win = a % w;
    assert(window(e) == win);
    lemma_fundamental_div_mod(a, w);
    let hi = a / w;
    // m * t == d * (m * a) + m * rest
    assert(m * t == (m * a) * d + m * rest) by (nonlinear_arith)
        requires
            t == d * a + rest,
    ;
    lemma_hoist_over_denominator(m * rest, m * a, d as nat);
    let extra = (m * rest) / d;
    assert(exact_scaled_turns(b) == m * a + extra);
    assert(0 <= extra < m) by (nonlinear_arith)
        requires
            0 <= rest < d,
            m > 0,
            extra == (m * rest) / d,
    ;
    assert(m * a == w * (m * hi) + m * win) by (nonlinear_arith)
        requires
            a == w * hi + win,
    ;
    let p = m * win;
    lemma_fundamental_div_mod(p, w);
    assert(reduced_product(b) == p % w);
    // exact - reduced == w * (m * hi + p / w) + extra
    assert(exact_scaled_turns(b) - reduced_product(b) == w * (m * hi + p / w) + extra);
    lemma_mod_multiples_vanish(m * hi + p / w, extra, w);
}

} // verus!
