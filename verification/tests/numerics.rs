use thrindex::numerics::error::FixedPointError;
use thrindex::numerics::formats::{Q1_31, Q1_7, Q16_16, Q4_4, Q8_8};

fn q(raw: i32) -> Q8_8 {
    Q8_8::from_raw(raw).unwrap()
}

#[test]
fn from_raw_in_range_is_some() {
    assert!(Q8_8::from_raw(0).is_some());
    assert!(Q8_8::from_raw(Q8_8::min_raw()).is_some());
    assert!(Q8_8::from_raw(Q8_8::max_raw()).is_some());
}

#[test]
fn from_raw_out_of_range_is_none() {
    assert!(Q8_8::from_raw(Q8_8::max_raw() + 1).is_none());
    assert!(Q8_8::from_raw(Q8_8::min_raw() - 1).is_none());
}

#[test]
fn zero_is_zero() {
    assert_eq!(Q8_8::zero().raw(), 0);
    assert_eq!(Q16_16::zero().raw(), 0);
}

#[test]
fn min_max_raw_values() {
    assert_eq!(Q8_8::min_raw(), -32768);
    assert_eq!(Q8_8::max_raw(), 32767);
    assert_eq!(Q16_16::min_raw(), i32::MIN);
    assert_eq!(Q16_16::max_raw(), i32::MAX);
    assert_eq!(Q4_4::min_raw(), -128);
    assert_eq!(Q4_4::max_raw(), 127);
}

#[test]
fn one_representable_iff_int_bits_ge_2() {
    assert!(Q8_8::one().is_some());
    assert!(Q16_16::one().is_some());
    assert!(Q4_4::one().is_some());
    assert!(Q1_7::one().is_none());
    assert!(Q1_31::one().is_none());
}

#[test]
fn one_raw_value() {
    assert_eq!(Q8_8::one().unwrap().raw(), 256);
    assert_eq!(Q4_4::one().unwrap().raw(), 16);
}

#[test]
fn add_exact_raw_equality() {
    assert_eq!(q(100).saturating_add(q(200)).raw(), 100 + 200);
}

#[test]
fn add_negative_exact_raw_equality() {
    assert_eq!(q(-100).saturating_add(q(-200)).raw(), -100 + -200);
}

#[test]
fn add_zero_is_identity() {
    let a = q(12345);
    assert_eq!(a.saturating_add(Q8_8::zero()).raw(), a.raw());
    assert_eq!(Q8_8::zero().saturating_add(a).raw(), a.raw());
}

#[test]
fn add_commutativity() {
    let a = q(1234);
    let b = q(-567);
    assert_eq!(a.saturating_add(b), b.saturating_add(a));
}

#[test]
fn add_positive_overflow_saturates_to_max() {
    assert_eq!(Q8_8::max_value().saturating_add(Q8_8::max_value()), Q8_8::max_value());
}

#[test]
fn add_negative_overflow_saturates_to_min() {
    assert_eq!(Q8_8::min_value().saturating_add(Q8_8::min_value()), Q8_8::min_value());
}

#[test]
fn sub_exact_raw_equality() {
    assert_eq!(q(300).saturating_sub(q(100)).raw(), 300 - 100);
}

#[test]
fn sub_zero_is_identity() {
    let a = q(999);
    assert_eq!(a.saturating_sub(Q8_8::zero()).raw(), a.raw());
}

#[test]
fn sub_self_is_zero() {
    let a = q(12345);
    assert_eq!(a.saturating_sub(a).raw(), 0);
}

#[test]
fn sub_underflow_saturates_to_min() {
    assert_eq!(Q8_8::min_value().saturating_sub(Q8_8::max_value()), Q8_8::min_value());
}

#[test]
fn neg_zero_is_zero() {
    assert_eq!(Q8_8::zero().saturating_neg(), Q8_8::zero());
}

#[test]
fn neg_min_value_saturates_to_max() {
    assert_eq!(Q8_8::min_value().saturating_neg(), Q8_8::max_value());
}

#[test]
fn neg_double_is_identity() {
    let a = q(1000);
    assert_eq!(a.saturating_neg().saturating_neg(), a);
}

#[test]
fn neg_additive_inverse() {
    let a = q(500);
    assert_eq!(a.saturating_add(a.saturating_neg()).raw(), 0);
}

#[test]
fn mul_two_by_three() {
    assert_eq!(q(512).saturating_mul(q(768)).raw(), 1536);
}

#[test]
fn mul_by_zero_is_zero() {
    let a = q(12345);
    assert_eq!(a.saturating_mul(Q8_8::zero()), Q8_8::zero());
    assert_eq!(Q8_8::zero().saturating_mul(a), Q8_8::zero());
}

#[test]
fn mul_by_one_is_identity() {
    let a = q(1000);
    let one = Q8_8::one().unwrap();
    assert_eq!(a.saturating_mul(one), a);
}

#[test]
fn mul_commutativity() {
    let a = q(200);
    let b = q(-300);
    assert_eq!(a.saturating_mul(b), b.saturating_mul(a));
}

#[test]
fn mul_positive_overflow_saturates_to_max() {
    assert_eq!(Q8_8::max_value().saturating_mul(Q8_8::max_value()), Q8_8::max_value());
}

#[test]
fn mul_negative_positive_overflow_saturates_to_min() {
    assert_eq!(Q8_8::min_value().saturating_mul(Q8_8::max_value()), Q8_8::min_value());
}

#[test]
fn mul_one_point_five_squared() {
    let a = q(384);
    assert_eq!(a.saturating_mul(a).raw(), 576);
}

#[test]
fn golden_mul_q8_8_bits_100_by_200() {
    assert_eq!(q(100).saturating_mul(q(200)).raw(), 78);
}

#[test]
fn div_by_zero_is_err() {
    assert!(matches!(q(1).saturating_div(Q8_8::zero()), Err(FixedPointError::DivisionByZero)));
}

#[test]
fn div_six_by_two_is_three() {
    assert_eq!(q(1536).saturating_div(q(512)).unwrap().raw(), 768);
}

#[test]
fn div_by_one_is_identity() {
    let a = q(1234);
    let one = Q8_8::one().unwrap();
    assert_eq!(a.saturating_div(one).unwrap(), a);
}

#[test]
fn golden_q8_8_add_100_plus_200() {
    assert_eq!(q(100).saturating_add(q(200)).raw(), 300);
}

#[test]
fn golden_q8_8_saturates_at_max_raw() {
    assert_eq!(q(Q8_8::max_raw()).saturating_add(q(1)).raw(), Q8_8::max_raw());
}

#[test]
fn golden_mul_q8_8_one_by_half() {
    assert_eq!(q(256).saturating_mul(q(128)).raw(), 128);
}

#[test]
fn add_associative_when_no_saturation() {
    let a = q(100);
    let b = q(200);
    let c = q(300);
    assert_eq!(a.saturating_add(b).saturating_add(c), a.saturating_add(b.saturating_add(c)));
}

#[test]
fn ordering_follows_raw_value() {
    assert!(q(100) < q(200));
    assert!(q(-1) < Q8_8::zero());
    assert!(Q8_8::min_value() < Q8_8::max_value());
}

#[test]
fn div_rounds_half_to_even() {
    // 1/512 (raw 1) divided by 2.0 is exactly half a step: ties to even, 0.
    assert_eq!(q(1).saturating_div(q(512)).unwrap().raw(), 0);
    // raw 3 / 2.0 = 1.5 steps: ties to even, 2.
    assert_eq!(q(3).saturating_div(q(512)).unwrap().raw(), 2);
}

#[test]
fn div_overflow_saturates() {
    assert_eq!(Q8_8::max_value().saturating_div(q(1)).unwrap(), Q8_8::max_value());
    assert_eq!(Q8_8::min_value().saturating_div(q(1)).unwrap(), Q8_8::min_value());
}

#[test]
fn mul_rounds_half_to_even() {
    // raw 1 × 0.5 = half a step: 0; raw 3 × 0.5 = 1.5 steps: 2.
    assert_eq!(q(1).saturating_mul(q(128)).raw(), 0);
    assert_eq!(q(3).saturating_mul(q(128)).raw(), 2);
    assert_eq!(q(-3).saturating_mul(q(128)).raw(), -2);
}

#[test]
fn fixed_point_error_messages() {
    assert_eq!(FixedPointError::NaN.message(), "fixed-point conversion rejected NaN input");
    assert_eq!(FixedPointError::DivisionByZero.message(), "fixed-point division by zero");
    let e = FixedPointError::OutOfRange {
        value: 200.0_f64.to_string(),
        min: (-128.0_f64).to_string(),
        max: (32767.0_f64 / 256.0).to_string(),
    };
    assert_eq!(
        e.message(),
        "fixed-point conversion: value 200 is outside the representable range [-128, 127.99609375]"
    );
    assert_eq!(q(1).saturating_div(Q8_8::zero()).unwrap_err().message(), "fixed-point division by zero");
}
