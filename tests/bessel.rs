use libm::bessel::{
    envelope_band32, envelope_band64, j0f_plan, j1_plan, y0f_plan, y1_plan, BesselPlan, ENVELOPE_LOWER_32,
    ENVELOPE_LOWER_64,
};
use libm::tables::{PONE_DEN_64, PONE_NUM_64, PZERO_DEN_32, PZERO_NUM_32, QONE_DEN_64, QONE_NUM_64, QZERO_DEN_32, QZERO_NUM_32};

#[test]
fn j0f_plan_at_zero_is_leading_term() {
    // J0(0) = 1 - 0 = 1
    assert_eq!(j0f_plan(0.0f32.to_bits()), BesselPlan::Leading);
}

#[test]
fn j1_plan_at_zero_is_leading_term() {
    // J1(0) = (0.5 + 0) * 0 = 0
    assert_eq!(j1_plan(0.0f64.to_bits()), BesselPlan::Leading);
}

#[test]
fn j0f_plan_regions() {
    assert_eq!(j0f_plan(f32::NAN.to_bits()), BesselPlan::NotFinite);
    assert_eq!(j0f_plan(f32::INFINITY.to_bits()), BesselPlan::NotFinite);
    assert_eq!(j0f_plan(2.0f32.to_bits()), BesselPlan::Asymptotic { anti_cancel: true, envelope: true });
    assert_eq!(j0f_plan(1.0e16f32.to_bits()), BesselPlan::Asymptotic { anti_cancel: true, envelope: false });
    assert_eq!(j0f_plan(f32::MAX.to_bits()), BesselPlan::Asymptotic { anti_cancel: false, envelope: false });
    assert_eq!(j0f_plan(1.0f32.to_bits()), BesselPlan::Rational);
    assert_eq!(j0f_plan(1.0e-5f32.to_bits()), BesselPlan::Quadratic);
    assert_eq!(j0f_plan(1.0e-20f32.to_bits()), BesselPlan::Leading);
}

#[test]
fn j0f_plan_is_even() {
    for x in [0.0f32, 1.0e-20, 1.0e-5, 1.0, 2.0, 3.5, 1.0e16, f32::MAX, f32::INFINITY] {
        assert_eq!(j0f_plan(x.to_bits()), j0f_plan((-x).to_bits()));
    }
}

#[test]
fn j1_plan_is_sign_free() {
    for x in [0.0f64, 1.0e-300, 1.0, 2.0, 3.5, 1.0e40, f64::MAX, f64::INFINITY] {
        assert_eq!(j1_plan(x.to_bits()), j1_plan((-x).to_bits()));
    }
    assert_eq!(j1_plan(1.0f64.to_bits()), BesselPlan::Rational);
    assert_eq!(j1_plan(1.0e-300f64.to_bits()), BesselPlan::Leading);
    assert_eq!(j1_plan(5.0f64.to_bits()), BesselPlan::Asymptotic { anti_cancel: true, envelope: true });
    assert_eq!(j1_plan(1.0e40f64.to_bits()), BesselPlan::Asymptotic { anti_cancel: true, envelope: false });
    assert_eq!(j1_plan(f64::MAX.to_bits()), BesselPlan::Asymptotic { anti_cancel: false, envelope: false });
}

#[test]
fn second_kind_negative_is_nan_and_zero_is_neg_infinity() {
    for x in [-1.0e-30f32, -1.0, -2.0, -1.0e30, f32::NEG_INFINITY] {
        assert_eq!(y0f_plan(x.to_bits()), BesselPlan::NotANumber);
    }
    for x in [-1.0e-300f64, -1.0, -2.0, -1.0e300, f64::NEG_INFINITY] {
        assert_eq!(y1_plan(x.to_bits()), BesselPlan::NotANumber);
    }
    assert_eq!(y0f_plan(0.0f32.to_bits()), BesselPlan::NegInfinity);
    assert_eq!(y0f_plan((-0.0f32).to_bits()), BesselPlan::NegInfinity);
    assert_eq!(y1_plan(0.0f64.to_bits()), BesselPlan::NegInfinity);
    assert_eq!(y1_plan((-0.0f64).to_bits()), BesselPlan::NegInfinity);
}

#[test]
fn second_kind_regions() {
    assert_eq!(y0f_plan(f32::INFINITY.to_bits()), BesselPlan::NotFinite);
    assert_eq!(y0f_plan(f32::NAN.to_bits()), BesselPlan::NotFinite);
    assert_eq!(y0f_plan(3.0f32.to_bits()), BesselPlan::Asymptotic { anti_cancel: true, envelope: true });
    assert_eq!(y0f_plan(1.0f32.to_bits()), BesselPlan::Rational);
    assert_eq!(y0f_plan(1.0e-5f32.to_bits()), BesselPlan::Leading);
    assert_eq!(y1_plan(f64::INFINITY.to_bits()), BesselPlan::NotFinite);
    assert_eq!(y1_plan(3.0f64.to_bits()), BesselPlan::Asymptotic { anti_cancel: true, envelope: true });
    assert_eq!(y1_plan(1.0f64.to_bits()), BesselPlan::Rational);
    assert_eq!(y1_plan(1.0e-17f64.to_bits()), BesselPlan::Leading);
    assert_eq!(y1_plan(5.3e-324f64.to_bits()), BesselPlan::Leading);
}

#[test]
fn envelope_bands_single() {
    assert_eq!(envelope_band32(2.0f32.to_bits()), 0);
    assert_eq!(envelope_band32(2.5f32.to_bits()), 0);
    assert_eq!(envelope_band32(3.0f32.to_bits()), 1);
    assert_eq!(envelope_band32(5.0f32.to_bits()), 2);
    assert_eq!(envelope_band32(8.0f32.to_bits()), 3);
    assert_eq!(envelope_band32((-100.0f32).to_bits()), 3);
    for (i, &lo) in ENVELOPE_LOWER_32.iter().enumerate() {
        assert_eq!(envelope_band32(lo), i);
        if i > 0 {
            assert_eq!(envelope_band32(lo - 1), i - 1);
        }
    }
}

#[test]
fn envelope_bands_double() {
    assert_eq!(envelope_band64(2.0f64.to_bits()), 0);
    assert_eq!(envelope_band64(2.8f64.to_bits()), 0);
    assert_eq!(envelope_band64(2.9f64.to_bits()), 1);
    assert_eq!(envelope_band64(4.6f64.to_bits()), 2);
    assert_eq!(envelope_band64(8.0f64.to_bits()), 3);
    assert_eq!(envelope_band64(7.999f64.to_bits()), 2);
    for (i, &lo) in ENVELOPE_LOWER_64.iter().enumerate() {
        assert_eq!(envelope_band64((lo as u64) << 32), i);
    }
}

#[test]
fn envelope_tables_hold_the_coefficients() {
    assert_eq!(f32::from_bits(PZERO_NUM_32[3][1]), -7.031_250_000_0_e-02);
    assert_eq!(f32::from_bits(PZERO_NUM_32[0][0]), -8.875_343_127_1_e-08);
    assert_eq!(f32::from_bits(PZERO_DEN_32[2][4]), 2.406_058_105_5_e+03);
    assert_eq!(f32::from_bits(QZERO_NUM_32[1][2]), 3.344_231_367_1);
    assert_eq!(f32::from_bits(QZERO_DEN_32[0][5]), -5.310_955_047_6);
    assert_eq!(f64::from_bits(PONE_NUM_64[3][1]), 1.171_874_999_999_886_479_70_e-01);
    assert_eq!(f64::from_bits(PONE_DEN_64[1][0]), 3.479_130_950_012_515_199_89_e+01);
    assert_eq!(f64::from_bits(QONE_NUM_64[2][5]), -2.612_444_404_532_156_568_17_e+03);
    assert_eq!(f64::from_bits(QONE_DEN_64[3][5]), -2.944_902_643_038_346_432_15_e+05);
}

/// pzero(x) = 1 + R/S at z = 1/x^2 with the single-precision table row.
fn pzero(x: f32) -> f32 {
    let i = envelope_band32(x.to_bits());
    let p = PZERO_NUM_32[i].map(f32::from_bits);
    let q = PZERO_DEN_32[i].map(f32::from_bits);
    let z = 1.0 / (x * x);
    let r = p[0] + z * (p[1] + z * (p[2] + z * (p[3] + z * (p[4] + z * p[5]))));
    let s = 1.0 + z * (q[0] + z * (q[1] + z * (q[2] + z * (q[3] + z * q[4]))));
    1.0 + r / s
}

#[test]
fn pzero_is_continuous_across_bands() {
    for &lo in &ENVELOPE_LOWER_32[1..] {
        let above = pzero(f32::from_bits(lo));
        let below = pzero(f32::from_bits(lo - 1));
        assert!((above - below).abs() < 1.0e-5, "{} vs {}", above, below);
    }
}

/// qzero(x) = (-1/8 + R/S) / x at z = 1/x^2 with the single-precision table row.
fn qzero(x: f32) -> f32 {
    let i = envelope_band32(x.to_bits());
    let p = QZERO_NUM_32[i].map(f32::from_bits);
    let q = QZERO_DEN_32[i].map(f32::from_bits);
    let z = 1.0 / (x * x);
    let r = p[0] + z * (p[1] + z * (p[2] + z * (p[3] + z * (p[4] + z * p[5]))));
    let s = 1.0 + z * (q[0] + z * (q[1] + z * (q[2] + z * (q[3] + z * (q[4] + z * q[5])))));
    (-0.125 + r / s) / x
}

/// pone(x) and qone(x) with the double-precision table row.
fn pone_qone(x: f64) -> (f64, f64) {
    let i = envelope_band64(x.to_bits());
    let p = PONE_NUM_64[i].map(f64::from_bits);
    let q = PONE_DEN_64[i].map(f64::from_bits);
    let z = 1.0 / (x * x);
    let r = p[0] + z * (p[1] + z * (p[2] + z * (p[3] + z * (p[4] + z * p[5]))));
    let s = 1.0 + z * (q[0] + z * (q[1] + z * (q[2] + z * (q[3] + z * q[4]))));
    let pv = 1.0 + r / s;
    let p = QONE_NUM_64[i].map(f64::from_bits);
    let q = QONE_DEN_64[i].map(f64::from_bits);
    let r = p[0] + z * (p[1] + z * (p[2] + z * (p[3] + z * (p[4] + z * p[5]))));
    let s = 1.0 + z * (q[0] + z * (q[1] + z * (q[2] + z * (q[3] + z * (q[4] + z * q[5])))));
    (pv, (0.375 + r / s) / x)
}

#[test]
fn qzero_is_continuous_across_bands() {
    for &lo in &ENVELOPE_LOWER_32[1..] {
        let above = qzero(f32::from_bits(lo));
        let below = qzero(f32::from_bits(lo - 1));
        assert!((above - below).abs() < 1.0e-5, "{} vs {}", above, below);
    }
}

#[test]
fn pone_qone_are_continuous_across_bands() {
    for &lo in &ENVELOPE_LOWER_64[1..] {
        let at = f64::from_bits((lo as u64) << 32);
        let before = f64::from_bits(((lo as u64) << 32) - 1);
        let (pa, qa) = pone_qone(at);
        let (pb, qb) = pone_qone(before);
        assert!((pa - pb).abs() < 1.0e-12, "{} vs {}", pa, pb);
        assert!((qa - qb).abs() < 1.0e-12, "{} vs {}", qa, qb);
    }
}

#[test]
fn envelopes_approach_their_limits() {
    // P tends to 1 and x * Q to -1/8 (order 0) or 3/8 (order 1) as x grows
    let x = 1.0e4f32;
    assert!((pzero(x) - 1.0).abs() < 1.0e-6);
    assert!((x * qzero(x) + 0.125).abs() < 1.0e-6);
    let (p, q) = pone_qone(1.0e6);
    assert!((p - 1.0).abs() < 1.0e-12);
    assert!((1.0e6 * q - 0.375).abs() < 1.0e-12);
}
