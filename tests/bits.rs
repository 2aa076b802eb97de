use libm::bits::{high_word, FloatBits32, FloatBits64};

#[test]
fn decompose_one_f32() {
    let f = FloatBits32::decompose(1.0f32.to_bits());
    assert!(!f.sign);
    assert_eq!(f.exponent, 127);
    assert_eq!(f.mantissa, 0);
}

#[test]
fn decompose_negative_f64() {
    let f = FloatBits64::decompose((-1.5f64).to_bits());
    assert!(f.sign);
    assert_eq!(f.exponent, 1023);
    assert_eq!(f.mantissa, 1u64 << 51);
}

#[test]
fn round_trip_f32_values() {
    let values = [0.0f32, -0.0, 1.0, -3.25, f32::MIN_POSITIVE, 1.0e-45, f32::MAX, f32::INFINITY, f32::NEG_INFINITY];
    for v in values {
        let b = v.to_bits();
        assert_eq!(FloatBits32::decompose(b).reconstruct(), b);
    }
    let nan = f32::NAN.to_bits();
    assert_eq!(FloatBits32::decompose(nan).reconstruct(), nan);
}

#[test]
fn round_trip_f64_values() {
    let values = [0.0f64, -0.0, 1.0, -3.25, f64::MIN_POSITIVE, 5.0e-324, f64::MAX, f64::INFINITY, f64::NEG_INFINITY];
    for v in values {
        let b = v.to_bits();
        assert_eq!(FloatBits64::decompose(b).reconstruct(), b);
    }
    let nan = f64::NAN.to_bits();
    assert_eq!(FloatBits64::decompose(nan).reconstruct(), nan);
}

#[test]
fn classify_f32() {
    let nan = FloatBits32::decompose(f32::NAN.to_bits());
    assert!(nan.is_nan() && !nan.is_infinite() && !nan.is_zero() && !nan.is_subnormal());
    let inf = FloatBits32::decompose(f32::NEG_INFINITY.to_bits());
    assert!(inf.is_infinite() && !inf.is_nan());
    let sub = FloatBits32::decompose(1.0e-40f32.to_bits());
    assert!(sub.is_subnormal() && !sub.is_zero());
    let zero = FloatBits32::decompose((-0.0f32).to_bits());
    assert!(zero.is_zero() && !zero.is_subnormal() && zero.sign);
    let one = FloatBits32::decompose(1.0f32.to_bits());
    assert!(!one.is_nan() && !one.is_infinite() && !one.is_zero() && !one.is_subnormal());
}

#[test]
fn classify_f64() {
    let nan = FloatBits64::decompose(f64::NAN.to_bits());
    assert!(nan.is_nan() && !nan.is_infinite());
    let inf = FloatBits64::decompose(f64::INFINITY.to_bits());
    assert!(inf.is_infinite() && !inf.is_nan());
    let sub = FloatBits64::decompose(5.0e-324f64.to_bits());
    assert!(sub.is_subnormal() && sub.mantissa == 1);
    let zero = FloatBits64::decompose(0.0f64.to_bits());
    assert!(zero.is_zero());
}

#[test]
fn high_word_of_two() {
    assert_eq!(high_word(2.0f64.to_bits()), 0x4000_0000);
    assert_eq!(high_word((-2.0f64).to_bits()), 0xc000_0000);
}
