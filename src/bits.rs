//! A read-only lens over the bit pattern of an IEEE-754 float.
use vstd::prelude::*;

verus! {

/// Largest biased exponent of a single-precision float (Infinity and NaN).
pub const EXP_MAX_32: u32 = 0xff;

/// Largest biased exponent of a double-precision float (Infinity and NaN).
pub const EXP_MAX_64: u64 = 0x7ff;

/// Sign, biased exponent and mantissa of a single-precision float.
#[derive(Clone, Copy, Debug, PartialEq, Eq, Structural)]
pub struct FloatBits32 {
    pub sign: bool,
    pub exponent: u32,
    pub mantissa: u32,
}

/// Sign, biased exponent and mantissa of a double-precision float.
#[derive(Clone, Copy, Debug, PartialEq, Eq, Structural)]
pub struct FloatBits64 {
    pub sign: bool,
    pub exponent: u64,
    pub mantissa: u64,
}

/// The fields of the single-precision bit pattern `b`.
pub open spec fn fields32(b: u32) -> FloatBits32 {
    FloatBits32 { sign: (b >> 31u32) == 1u32, exponent: (b >> 23u32) & 0xffu32, mantissa: b & 0x7f_ffffu32 }
}

/// The fields of the double-precision bit pattern `b`.
pub open spec fn fields64(b: u64) -> FloatBits64 {
    FloatBits64 {
        sign: (b >> 63u64) == 1u64,
        exponent: (b >> 52u64) & 0x7ffu64,
        mantissa: b & 0xf_ffff_ffff_ffffu64,
    }
}

impl FloatBits32 {
    /// Each field fits its width: 8 exponent bits, 23 mantissa bits.
    pub open spec fn wf(self) -> bool {
        self.exponent <= EXP_MAX_32 && self.mantissa < 0x80_0000
    }

    /// The bit pattern that these fields make.
    pub open spec fn bits(self) -> u32 {
        ((if self.sign { 1u32 } else { 0u32 }) << 31u32) | (self.exponent << 23u32) | self.mantissa
    }

    /// NaN: the largest exponent with a nonzero mantissa.
    pub open spec fn spec_is_nan(self) -> bool {
        self.exponent == EXP_MAX_32 && self.mantissa != 0
    }

    /// An Infinity: the largest exponent with a zero mantissa.
    pub open spec fn spec_is_infinite(self) -> bool {
        self.exponent == EXP_MAX_32 && self.mantissa == 0
    }

    /// Subnormal: a zero exponent with a nonzero mantissa.
    pub open spec fn spec_is_subnormal(self) -> bool {
        self.exponent == 0 && self.mantissa != 0
    }

    /// A zero of either sign: exponent and mantissa both zero.
    pub open spec fn spec_is_zero(self) -> bool {
        self.exponent == 0 && self.mantissa == 0
    }

    /// Splits a bit pattern into its fields.
    pub fn decompose(b: u32) -> (r: FloatBits32)
        ensures
            r == fields32(b),
            r.wf(),
    {
        let r = FloatBits32 { sign: (b >> 31u32) == 1u32, exponent: (b >> 23u32) & 0xffu32, mantissa: b & 0x7f_ffffu32 };
        assert((b >> 23u32) & 0xffu32 <= 0xffu32 && b & 0x7f_ffffu32 < 0x80_0000u32) by (bit_vector);
        r
    }

    /// Joins the fields back into a bit pattern.
    pub fn reconstruct(&self) -> (r: u32)
        requires
            self.wf(),
        ensures
            r == self.bits(),
    {
        (((if self.sign { 1u32 } else { 0u32 }) << 31u32) | (self.exponent << 23u32) | self.mantissa)
    }

    pub fn is_nan(&self) -> (r: bool)
        ensures
            r == self.spec_is_nan(),
    {
        self.exponent == EXP_MAX_32 && self.mantissa != 0
    }

    pub fn is_infinite(&self) -> (r: bool)
        ensures
            r == self.spec_is_infinite(),
    {
        self.exponent == EXP_MAX_32 && self.mantissa == 0
    }

    pub fn is_subnormal(&self) -> (r: bool)
        ensures
            r == self.spec_is_subnormal(),
    {
        self.exponent == 0 && self.mantissa != 0
    }

    pub fn is_zero(&self) -> (r: bool)
        ensures
            r == self.spec_is_zero(),
    {
        self.exponent == 0 && self.mantissa == 0
    }
}

impl FloatBits64 {
    /// Each field fits its width: 11 exponent bits, 52 mantissa bits.
    pub open spec fn wf(self) -> bool {
        self.exponent <= EXP_MAX_64 && self.mantissa < 0x10_0000_0000_0000
    }

    /// The bit pattern that these fields make.
    pub open spec fn bits(self) -> u64 {
        ((if self.sign { 1u64 } else { 0u64 }) << 63u64) | (self.exponent << 52u64) | self.mantissa
    }

    /// NaN: the largest exponent with a nonzero mantissa.
    pub open spec fn spec_is_nan(self) -> bool {
        self.exponent == EXP_MAX_64 && self.mantissa != 0
    }

    /// An Infinity: the largest exponent with a zero mantissa.
    pub open spec fn spec_is_infinite(self) -> bool {
        self.exponent == EXP_MAX_64 && self.mantissa == 0
    }

    /// Subnormal: a zero exponent with a nonzero mantissa.
    pub open spec fn spec_is_subnormal(self) -> bool {
        self.exponent == 0 && self.mantissa != 0
    }

    /// A zero of either sign: exponent and mantissa both zero.
    pub open spec fn spec_is_zero(self) -> bool {
        self.exponent == 0 && self.mantissa == 0
    }

    /// Splits a bit pattern into its fields.
    pub fn decompose(b: u64) -> (r: FloatBits64)
        ensures
            r == fields64(b),
            r.wf(),
    {
        let r = FloatBits64 {
            sign: (b >> 63u64) == 1u64,
            exponent: (b >> 52u64) & 0x7ffu64,
            mantissa: b & 0xf_ffff_ffff_ffffu64,
        };
        assert((b >> 52u64) & 0x7ffu64 <= 0x7ffu64 && b & 0xf_ffff_ffff_ffffu64 < 0x10_0000_0000_0000u64)
            by (bit_vector);
        r
    }

    /// Joins the fields back into a bit pattern.
    pub fn reconstruct(&self) -> (r: u64)
        requires
            self.wf(),
        ensures
            r == self.bits(),
    {
        (((if self.sign { 1u64 } else { 0u64 }) << 63u64) | (self.exponent << 52u64) | self.mantissa)
    }

    pub fn is_nan(&self) -> (r: bool)
        ensures
            r == self.spec_is_nan(),
    {
        self.exponent == EXP_MAX_64 && self.mantissa != 0
    }

    pub fn is_infinite(&self) -> (r: bool)
        ensures
            r == self.spec_is_infinite(),
    {
        self.exponent == EXP_MAX_64 && self.mantissa == 0
    }

    pub fn is_subnormal(&self) -> (r: bool)
        ensures
            r == self.spec_is_subnormal(),
    {
        self.exponent == 0 && self.mantissa != 0
    }

    pub fn is_zero(&self) -> (r: bool)
        ensures
            r == self.spec_is_zero(),
    {
        self.exponent == 0 && self.mantissa == 0
    }
}

/// Splitting any single-precision bit pattern into its fields and joining
/// them again gives back the same pattern; and well-formed fields survive
/// the opposite trip unchanged.
pub proof fn lemma_round_trip32(b: u32, f: FloatBits32)
    requires
        f.wf(),
    ensures
        fields32(b).bits() == b,
        fields32(f.bits()) == f,
{
    let s = b >> 31u32;
    assert(s == 0u32 || s == 1u32) by (bit_vector)
        requires s == b >> 31u32;
    if s == 1u32 {
        assert(((1u32 << 31u32) | (((b >> 23u32) & 0xffu32) << 23u32) | (b & 0x7f_ffffu32)) == b) by (bit_vector)
            requires b >> 31u32 == 1u32;
    } else {
        assert(((0u32 << 31u32) | (((b >> 23u32) & 0xffu32) << 23u32) | (b & 0x7f_ffffu32)) == b) by (bit_vector)
            requires b >> 31u32 == 0u32;
    }
    let e = f.exponent;
    let m = f.mantissa;
    let t: u32 = if f.sign { 1u32 } else { 0u32 };
    let x = (t << 31u32) | (e << 23u32) | m;
    assert(x >> 31u32 == t && (x >> 23u32) & 0xffu32 == e && x & 0x7f_ffffu32 == m) by (bit_vector)
        requires
            t <= 1u32,
            e <= 0xffu32,
            m < 0x80_0000u32,
            x == (t << 31u32) | (e << 23u32) | m;
}

/// Splitting any double-precision bit pattern into its fields and joining
/// them again gives back the same pattern; and well-formed fields survive
/// the opposite trip unchanged.
pub proof fn lemma_round_trip64(b: u64, f: FloatBits64)
    requires
        f.wf(),
    ensures
        fields64(b).bits() == b,
        fields64(f.bits()) == f,
{
    let s = b >> 63u64;
    assert(s == 0u64 || s == 1u64) by (bit_vector)
        requires s == b >> 63u64;
    if s == 1u64 {
        assert(((1u64 << 63u64) | (((b >> 52u64) & 0x7ffu64) << 52u64) | (b & 0xf_ffff_ffff_ffffu64)) == b)
            by (bit_vector)
            requires b >> 63u64 == 1u64;
    } else {
        assert(((0u64 << 63u64) | (((b >> 52u64) & 0x7ffu64) << 52u64) | (b & 0xf_ffff_ffff_ffffu64)) == b)
            by (bit_vector)
            requires b >> 63u64 == 0u64;
    }
    let e = f.exponent;
    let m = f.mantissa;
    let t: u64 = if f.sign { 1u64 } else { 0u64 };
    let x = (t << 63u64) | (e << 52u64) | m;
    assert(x >> 63u64 == t && (x >> 52u64) & 0x7ffu64 == e && x & 0xf_ffff_ffff_ffffu64 == m) by (bit_vector)
        requires
            t <= 1u64,
            e <= 0x7ffu64,
            m < 0x10_0000_0000_0000u64,
            x == (t << 63u64) | (e << 52u64) | m;
}

/// The upper 32 bits of a double-precision pattern: sign, exponent and the
/// top 20 mantissa bits.
pub open spec fn high_word_spec(b: u64) -> u32 {
    (b >> 32u64) as u32
}

pub fn high_word(b: u64) -> (r: u32)
    ensures
        r == high_word_spec(b),
{
    (b >> 32u64) as u32
}

} // verus!
