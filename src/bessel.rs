//! Magnitude-keyed dispatch of the Bessel functions of order 0 and 1.
//!
//! Each evaluator first screens NaN, the Infinities, zero and (for the
//! second kind) negative arguments, then picks an approximation by the
//! magnitude's bit pattern: a near-origin rational form, or for `|x| >= 2`
//! the asymptotic form, blended with the P and Q envelopes of
//! `crate::tables` while `|x|` is moderate.
use vstd::prelude::*;
use crate::bits::{high_word, high_word_spec};

verus! {

/// Magnitude pattern of the single-precision Infinity.
pub const INF_32: u32 = 0x7f80_0000;

/// High word of the double-precision Infinity's magnitude.
pub const INF_HIGH_64: u32 = 0x7ff0_0000;

/// Magnitude pattern of 2.0 in single precision: where the asymptotic
/// region begins.
pub const TWO_32: u32 = 0x4000_0000;

/// High word of 2.0 in double precision: where the asymptotic region
/// begins.
pub const TWO_HIGH_64: u32 = 0x4000_0000;

/// Single precision: below 2^127 the argument can be doubled without
/// overflow.
pub const NO_OVERFLOW_32: u32 = 0x7f00_0000;

/// Single precision: below 2^50 the P and Q envelopes still matter.
pub const ENVELOPE_LIMIT_32: u32 = 0x5880_0000;

/// High word of 2^1023: below it the argument can be doubled without
/// overflow.
pub const NO_OVERFLOW_HIGH_64: u32 = 0x7fe0_0000;

/// High word of 2^129: below it the envelopes still matter.
pub const ENVELOPE_LIMIT_HIGH_64: u32 = 0x4800_0000;

/// 2^-11: lowest magnitude of the rational form of J0.
pub const J0F_RATIONAL_MIN: u32 = 0x3a00_0000;

/// 2^-60: lowest magnitude of the quadratic form of J0.
pub const J0F_QUADRATIC_MIN: u32 = 0x2180_0000;

/// 2^-13: lowest argument of the rational form of Y0.
pub const Y0F_RATIONAL_MIN: u32 = 0x3900_0000;

/// High word of 2^-127: lowest magnitude of the rational form of J1.
pub const J1_RATIONAL_MIN_HIGH: u32 = 0x3800_0000;

/// High word of 2^-54: lowest argument of the rational form of Y1.
pub const Y1_RATIONAL_MIN_HIGH: u32 = 0x3c90_0000;

/// How a Bessel evaluator handles its argument.
#[derive(Clone, Copy, Debug, PartialEq, Eq, Structural)]
pub enum BesselPlan {
    /// NaN or an Infinity: the first kind gives `1 / (x * x)`, the second
    /// kind `1 / x`; NaN for a NaN, 0 for an Infinity.
    NotFinite,
    /// A zero argument to the second kind: -Infinity.
    NegInfinity,
    /// A negative argument to the second kind: NaN.
    NotANumber,
    /// `|x| >= 2`: the asymptotic form. With `anti_cancel` the smaller of
    /// `sin x +- cos x` is recomputed from `cos 2x` (left out where `2x`
    /// would overflow); with `envelope` the P and Q envelopes are blended
    /// in (left out where they are 1 and 0 to working precision).
    Asymptotic { anti_cancel: bool, envelope: bool },
    /// The near-origin rational approximation in `z = x^2`.
    Rational,
    /// Order 0, first kind, single precision: `1 - x^2 / 4`.
    Quadratic,
    /// The smallest arguments: the leading term of the series alone
    /// (`1 - x` for J0, `x / 2` for J1, `U00 + (2/pi) log x` for Y0 and
    /// `-(2/pi) / x` for Y1).
    Leading,
}

/// Plan of single-precision `J0` for the magnitude pattern `ix`.
pub open spec fn j0f_plan_spec(ix: u32) -> BesselPlan {
    if ix >= INF_32 {
        BesselPlan::NotFinite
    } else if ix >= TWO_32 {
        BesselPlan::Asymptotic { anti_cancel: ix < NO_OVERFLOW_32, envelope: ix < ENVELOPE_LIMIT_32 }
    } else if ix >= J0F_RATIONAL_MIN {
        BesselPlan::Rational
    } else if ix >= J0F_QUADRATIC_MIN {
        BesselPlan::Quadratic
    } else {
        BesselPlan::Leading
    }
}

/// Plan of single-precision `Y0` for the bit pattern `b`.
pub open spec fn y0f_plan_spec(b: u32) -> BesselPlan {
    if b & 0x7fff_ffffu32 == 0 {
        BesselPlan::NegInfinity
    } else if b >> 31u32 != 0 {
        BesselPlan::NotANumber
    } else if b >= INF_32 {
        BesselPlan::NotFinite
    } else if b >= TWO_32 {
        BesselPlan::Asymptotic { anti_cancel: b < NO_OVERFLOW_32, envelope: b < ENVELOPE_LIMIT_32 }
    } else if b >= Y0F_RATIONAL_MIN {
        BesselPlan::Rational
    } else {
        BesselPlan::Leading
    }
}

/// Plan of double-precision `J1` for the high word `ix` of the magnitude.
pub open spec fn j1_plan_spec(ix: u32) -> BesselPlan {
    if ix >= INF_HIGH_64 {
        BesselPlan::NotFinite
    } else if ix >= TWO_HIGH_64 {
        BesselPlan::Asymptotic { anti_cancel: ix < NO_OVERFLOW_HIGH_64, envelope: ix < ENVELOPE_LIMIT_HIGH_64 }
    } else if ix >= J1_RATIONAL_MIN_HIGH {
        BesselPlan::Rational
    } else {
        BesselPlan::Leading
    }
}

/// Plan of double-precision `Y1` for the bit pattern `b`.
pub open spec fn y1_plan_spec(b: u64) -> BesselPlan {
    let ix = high_word_spec(b);
    if b & 0x7fff_ffff_ffff_ffffu64 == 0 {
        BesselPlan::NegInfinity
    } else if ix >> 31u32 != 0 {
        BesselPlan::NotANumber
    } else if ix >= INF_HIGH_64 {
        BesselPlan::NotFinite
    } else if ix >= TWO_HIGH_64 {
        BesselPlan::Asymptotic { anti_cancel: ix < NO_OVERFLOW_HIGH_64, envelope: ix < ENVELOPE_LIMIT_HIGH_64 }
    } else if ix < Y1_RATIONAL_MIN_HIGH {
        BesselPlan::Leading
    } else {
        BesselPlan::Rational
    }
}

/// Plan of single-precision `J0` for the float whose bit pattern is `b`.
pub fn j0f_plan(b: u32) -> (r: BesselPlan)
    ensures
        r == j0f_plan_spec(b & 0x7fff_ffffu32),
{
    let ix = b & 0x7fff_ffffu32;
    if ix >= INF_32 {
        BesselPlan::NotFinite
    } else if ix >= TWO_32 {
        BesselPlan::Asymptotic { anti_cancel: ix < NO_OVERFLOW_32, envelope: ix < ENVELOPE_LIMIT_32 }
    } else if ix >= J0F_RATIONAL_MIN {
        BesselPlan::Rational
    } else if ix >= J0F_QUADRATIC_MIN {
        BesselPlan::Quadratic
    } else {
        BesselPlan::Leading
    }
}

/// Plan of single-precision `Y0` for the float whose bit pattern is `b`.
pub fn y0f_plan(b: u32) -> (r: BesselPlan)
    ensures
        r == y0f_plan_spec(b),
{
    if b & 0x7fff_ffffu32 == 0 {
        BesselPlan::NegInfinity
    } else if b >> 31u32 != 0 {
        BesselPlan::NotANumber
    } else if b >= INF_32 {
        BesselPlan::NotFinite
    } else if b >= TWO_32 {
        BesselPlan::Asymptotic { anti_cancel: b < NO_OVERFLOW_32, envelope: b < ENVELOPE_LIMIT_32 }
    } else if b >= Y0F_RATIONAL_MIN {
        BesselPlan::Rational
    } else {
        BesselPlan::Leading
    }
}

/// Plan of double-precision `J1` for the float whose bit pattern is `b`.
pub fn j1_plan(b: u64) -> (r: BesselPlan)
    ensures
        r == j1_plan_spec(high_word_spec(b) & 0x7fff_ffffu32),
{
    let ix = high_word(b) & 0x7fff_ffffu32;
    if ix >= INF_HIGH_64 {
        BesselPlan::NotFinite
    } else if ix >= TWO_HIGH_64 {
        BesselPlan::Asymptotic { anti_cancel: ix < NO_OVERFLOW_HIGH_64, envelope: ix < ENVELOPE_LIMIT_HIGH_64 }
    } else if ix >= J1_RATIONAL_MIN_HIGH {
        BesselPlan::Rational
    } else {
        BesselPlan::Leading
    }
}

/// Plan of double-precision `Y1` for the float whose bit pattern is `b`.
pub fn y1_plan(b: u64) -> (r: BesselPlan)
    ensures
        r == y1_plan_spec(b),
{
    let ix = high_word(b);
    if b & 0x7fff_ffff_ffff_ffffu64 == 0 {
        BesselPlan::NegInfinity
    } else if ix >> 31u32 != 0 {
        BesselPlan::NotANumber
    } else if ix >= INF_HIGH_64 {
        BesselPlan::NotFinite
    } else if ix >= TWO_HIGH_64 {
        BesselPlan::Asymptotic { anti_cancel: ix < NO_OVERFLOW_HIGH_64, envelope: ix < ENVELOPE_LIMIT_HIGH_64 }
    } else if ix < Y1_RATIONAL_MIN_HIGH {
        BesselPlan::Leading
    } else {
        BesselPlan::Rational
    }
}

/// `J0` is even: its plan does not depend on the sign of the argument.
pub proof fn lemma_j0f_plan_even(b: u32)
    ensures
        j0f_plan_spec(b & 0x7fff_ffffu32) == j0f_plan_spec((b ^ 0x8000_0000u32) & 0x7fff_ffffu32),
{
    assert(b & 0x7fff_ffffu32 == (b ^ 0x8000_0000u32) & 0x7fff_ffffu32) by (bit_vector);
}

/// `J1` is odd: its plan does not depend on the sign of the argument, which
/// the evaluator carries to the result itself.
pub proof fn lemma_j1_plan_sign_free(b: u64)
    ensures
        j1_plan_spec(high_word_spec(b) & 0x7fff_ffffu32)
            == j1_plan_spec(high_word_spec(b ^ 0x8000_0000_0000_0000u64) & 0x7fff_ffffu32),
{
    assert(((b >> 32u64) as u32) & 0x7fff_ffffu32
        == (((b ^ 0x8000_0000_0000_0000u64) >> 32u64) as u32) & 0x7fff_ffffu32) by (bit_vector);
}

/// The second kind is undefined for negative arguments and -Infinity at
/// zero: every pattern with the sign set, bar -0, plans NaN, and both zeros
/// plan -Infinity, in single and in double precision.
pub proof fn lemma_second_kind_domain(b32: u32, b64: u64)
    ensures
        (b32 >> 31u32 == 1 && b32 != 0x8000_0000u32) ==> y0f_plan_spec(b32) == BesselPlan::NotANumber,
        (b32 == 0 || b32 == 0x8000_0000u32) ==> y0f_plan_spec(b32) == BesselPlan::NegInfinity,
        (b64 >> 63u64 == 1 && b64 != 0x8000_0000_0000_0000u64) ==> y1_plan_spec(b64) == BesselPlan::NotANumber,
        (b64 == 0 || b64 == 0x8000_0000_0000_0000u64) ==> y1_plan_spec(b64) == BesselPlan::NegInfinity,
{
    assert((b32 >> 31u32 == 1 && b32 != 0x8000_0000u32) ==> (b32 & 0x7fff_ffffu32 != 0 && b32 >> 31u32 != 0))
        by (bit_vector);
    assert((b32 == 0 || b32 == 0x8000_0000u32) ==> b32 & 0x7fff_ffffu32 == 0) by (bit_vector);
    assert((b64 >> 63u64 == 1 && b64 != 0x8000_0000_0000_0000u64) ==> (b64 & 0x7fff_ffff_ffff_ffffu64 != 0
        && ((b64 >> 32u64) as u32) >> 31u32 != 0)) by (bit_vector);
    assert((b64 == 0 || b64 == 0x8000_0000_0000_0000u64) ==> b64 & 0x7fff_ffff_ffff_ffffu64 == 0) by (bit_vector);
}

/// Lower bounds of the envelope bands in single precision (magnitude
/// patterns of 2, about 2.857, about 4.545 and 8).
pub const ENVELOPE_LOWER_32: [u32; 4] = [0x4000_0000, 0x4036_d917, 0x4091_73eb, 0x4100_0000];

/// Lower bounds of the envelope bands in double precision (high words of 2,
/// about 2.857, about 4.545 and 8).
pub const ENVELOPE_LOWER_64: [u32; 4] = [0x4000_0000, 0x4006_db6d, 0x4012_2e8b, 0x4020_0000];

/// The bounds strictly increase: the bands are ordered and do not overlap.
pub open spec fn increasing(lower: Seq<u32>) -> bool {
    lower.len() == 4 && forall|i: int, j: int| 0 <= i < j < 4 ==> lower[i] < lower[j]
}

/// Band `i` holds the magnitudes from its lower bound up to the next
/// band's; band 0 also takes what lies below its bound, and the last band
/// is unbounded.
pub open spec fn in_envelope_band(lower: Seq<u32>, ix: u32, i: int) -> bool {
    0 <= i < 4 && (i == 0 || lower[i] <= ix) && (i == 3 || ix < lower[i + 1])
}

/// No magnitude lies in two bands.
pub proof fn lemma_envelope_band_unique(lower: Seq<u32>, ix: u32, i: int, j: int)
    requires
        increasing(lower),
        in_envelope_band(lower, ix, i),
        in_envelope_band(lower, ix, j),
    ensures
        i == j,
{
    if i < j {
        assert(lower[i + 1] <= lower[j]);
    } else if j < i {
        assert(lower[j + 1] <= lower[i]);
    }
}

/// Both tables of bounds are ordered.
pub proof fn lemma_envelope_bounds_increasing()
    ensures
        increasing(ENVELOPE_LOWER_32@),
        increasing(ENVELOPE_LOWER_64@),
{
}

/// The band of a magnitude: the last whose lower bound it reaches.
fn band_in(lower: &[u32; 4], ix: u32) -> (i: usize)
    requires
        increasing(lower@),
    ensures
        in_envelope_band(lower@, ix, i as int),
{
    let mut i: usize = 3;
    while i > 0 && ix < lower[i]
        invariant
            i < 4,
            i == 3 || ix < lower@[i as int + 1],
        decreases i,
    {
        i = i - 1;
    }
    i
}

/// Row of the single-precision order-0 P and Q tables for the float whose bit
/// pattern is `b`.
pub fn envelope_band32(b: u32) -> (i: usize)
    ensures
        in_envelope_band(ENVELOPE_LOWER_32@, b & 0x7fff_ffffu32, i as int),
{
    proof {
        lemma_envelope_bounds_increasing();
    }
    band_in(&ENVELOPE_LOWER_32, b & 0x7fff_ffffu32)
}

/// Row of the double-precision order-1 P and Q tables for the float whose bit
/// pattern is `b`.
pub fn envelope_band64(b: u64) -> (i: usize)
    ensures
        in_envelope_band(ENVELOPE_LOWER_64@, high_word_spec(b) & 0x7fff_ffffu32, i as int),
{
    proof {
        lemma_envelope_bounds_increasing();
    }
    band_in(&ENVELOPE_LOWER_64, high_word(b) & 0x7fff_ffffu32)
}

} // verus!
