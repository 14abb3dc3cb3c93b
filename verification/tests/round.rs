use thrindex::numerics::round::{round_half_even_div_i128, round_half_even_shr_i64};

#[test]
fn golden_shr_neg1_shift1() {
    assert_eq!(round_half_even_shr_i64(-1, 1), 0);
}

#[test]
fn golden_shr_neg3_shift1() {
    assert_eq!(round_half_even_shr_i64(-3, 1), -2);
}

#[test]
fn golden_shr_neg5_shift2() {
    assert_eq!(round_half_even_shr_i64(-5, 2), -1);
}

#[test]
fn golden_shr_pos3_shift1() {
    assert_eq!(round_half_even_shr_i64(3, 1), 2);
}

#[test]
fn golden_shr_pos5_shift2() {
    assert_eq!(round_half_even_shr_i64(5, 2), 1);
}

#[test]
fn golden_shr_pos1_shift1() {
    assert_eq!(round_half_even_shr_i64(1, 1), 0);
}

#[test]
fn shr_shift_zero_is_identity() {
    assert_eq!(round_half_even_shr_i64(42, 0), 42);
    assert_eq!(round_half_even_shr_i64(-42, 0), -42);
}

#[test]
fn shr_rounds_down_below_half() {
    assert_eq!(round_half_even_shr_i64(1, 2), 0);
    assert_eq!(round_half_even_shr_i64(-1, 2), 0);
}

#[test]
fn golden_div_pos_tie() {
    assert_eq!(round_half_even_div_i128(1, 2), 0);
}

#[test]
fn golden_div_neg_tie() {
    assert_eq!(round_half_even_div_i128(-1, 2), 0);
}

#[test]
fn golden_div_neg3_2() {
    assert_eq!(round_half_even_div_i128(-3, 2), -2);
}

#[test]
fn golden_div_neg5_4() {
    assert_eq!(round_half_even_div_i128(-5, 4), -1);
}

#[test]
fn golden_div_pos3_2() {
    assert_eq!(round_half_even_div_i128(3, 2), 2);
}

#[test]
fn golden_div_pos5_4() {
    assert_eq!(round_half_even_div_i128(5, 4), 1);
}

#[test]
fn golden_div_neg_pos_cross_sign() {
    assert_eq!(round_half_even_div_i128(1_698_304, -258), -6583);
}

#[test]
fn golden_div_neg_closer_to_zero() {
    assert_eq!(round_half_even_div_i128(-3, 4), -1);
}

#[test]
fn div_exact_quotients_are_kept() {
    assert_eq!(round_half_even_div_i128(12, 4), 3);
    assert_eq!(round_half_even_div_i128(-12, 4), -3);
    assert_eq!(round_half_even_div_i128(12, -4), -3);
}

#[test]
fn shr_large_shift() {
    assert_eq!(round_half_even_shr_i64(1 << 40, 40), 1);
    assert_eq!(round_half_even_shr_i64(3 << 39, 40), 2);
}
