//! Algebraic laws of the saturating fixed-point operations.

use vstd::arithmetic::div_mod::*;
use vstd::arithmetic::mul::*;
use vstd::arithmetic::power2::*;
use vstd::prelude::*;

use super::fixed::{clamp_to_format, format_max_raw, format_min_raw, valid_format, Q};
use super::round::{round_half_even, round_half_even_pos};

verus! {

/// Round-half-even of `n / d` (`d > 0`) is a nearest integer:
/// `|r·d − n| ≤ d/2`.
pub proof fn lemma_round_pos_is_nearest(n: int, d: int)
    requires
        d > 0,
    ensures
        -d <= 2 * (round_half_even_pos(n, d) * d - n) <= d,
{
    let q = n / d;
    let m = n % d;
    lemma_fundamental_div_mod(n, d);
    lemma_mod_bound(n, d);
    let r = round_half_even_pos(n, d);
    assert(r == q || r == q + 1);
    assert(r == q ==> 2 * m <= d);
    assert(r == q + 1 ==> 2 * m >= d);
    assert(-d <= 2 * (r * d - n) <= d) by (nonlinear_arith)
        requires
            n == d * q + m,
            r == q || r == q + 1,
            r == q ==> 2 * m <= d,
            r == q + 1 ==> 2 * m >= d,
            0 <= m < d,
    ;
}

/// Round-half-even of `n / d` is a nearest integer: `2·|r·d − n| ≤ |d|`.
pub proof fn lemma_round_is_nearest(n: int, d: int)
    requires
        d != 0,
    ensures
        ({
            let e = round_half_even(n, d) * d - n;
            let abs_d = if d < 0 { -d } else { d };
            -abs_d <= 2 * e <= abs_d
        }),
{
    if d > 0 {
        lemma_round_pos_is_nearest(n, d);
    } else {
        lemma_round_pos_is_nearest(-n, -d);
        let r = round_half_even(n, d);
        assert(r * d - n == -(r * (-d) - (-n))) by (nonlinear_arith);
    }
}

/// Round-half-even of `n / d` (`d > 0`) breaks an exact tie toward the even
/// neighbour.
proof fn lemma_round_pos_ties_to_even(n: int, d: int)
    requires
        d > 0,
    ensures
        ({
            let e = round_half_even_pos(n, d) * d - n;
            (2 * e == d || 2 * e == -d) ==> round_half_even_pos(n, d) % 2 == 0
        }),
{
    let q = n / d;
    let m = n % d;
    lemma_fundamental_div_mod(n, d);
    lemma_mod_bound(n, d);
    let r = round_half_even_pos(n, d);
    let e = r * d - n;
    assert(r == q ==> e == -m) by (nonlinear_arith)
        requires
            n == d * q + m,
            e == r * d - n,
    ;
    assert(r == q + 1 ==> e == d - m) by (nonlinear_arith)
        requires
            n == d * q + m,
            e == r * d - n,
    ;
}

/// Rounding half to even: the result is a nearest integer to `n / d`
/// (`2·|r·d − n| ≤ |d|`), and when `n / d` lies exactly halfway between two
/// integers the result is the even one.
pub proof fn law_round_half_even_is_nearest_with_ties_to_even(n: int, d: int)
    requires
        d != 0,
    ensures
        ({
            let r = round_half_even(n, d);
            let e = r * d - n;
            let abs_d = if d < 0 { -d } else { d };
            &&& -abs_d <= 2 * e <= abs_d
            &&& (2 * e == abs_d || 2 * e == -abs_d) ==> r % 2 == 0
        }),
{
    lemma_round_is_nearest(n, d);
    if d > 0 {
        lemma_round_pos_ties_to_even(n, d);
    } else {
        lemma_round_pos_ties_to_even(-n, -d);
        let r = round_half_even(n, d);
        assert(r * d - n == -(r * (-d) - (-n))) by (nonlinear_arith);
    }
}

/// Rounding an exact quotient that lies in `[lo, hi]` stays in `[lo, hi]`.
pub proof fn lemma_round_stays_in_range(n: int, d: int, lo: int, hi: int)
    requires
        d != 0,
        d > 0 ==> lo * d <= n <= hi * d,
        d < 0 ==> hi * d <= n <= lo * d,
    ensures
        lo <= round_half_even(n, d) <= hi,
{
    lemma_round_is_nearest(n, d);
    let r = round_half_even(n, d);
    if d > 0 {
        assert(lo <= r <= hi) by (nonlinear_arith)
            requires
                d > 0,
                lo * d <= n <= hi * d,
                -d <= 2 * (r * d - n) <= d,
        ;
    } else {
        assert(lo <= r <= hi) by (nonlinear_arith)
            requires
                d < 0,
                hi * d <= n <= lo * d,
                d <= 2 * (r * d - n) <= -d,
        ;
    }
}

/// A quotient `n / d` strictly below the integer `lo` rounds to at most `lo`.
pub proof fn lemma_round_below(n: int, d: int, lo: int)
    requires
        d != 0,
        d > 0 ==> n < lo * d,
        d < 0 ==> n > lo * d,
    ensures
        round_half_even(n, d) <= lo,
{
    lemma_round_is_nearest(n, d);
    let r = round_half_even(n, d);
    if d > 0 {
        assert(r <= lo) by (nonlinear_arith)
            requires
                d > 0,
                n < lo * d,
                -d <= 2 * (r * d - n) <= d,
        ;
    } else {
        assert(r <= lo) by (nonlinear_arith)
            requires
                d < 0,
                n > lo * d,
                d <= 2 * (r * d - n) <= -d,
        ;
    }
}

/// A quotient `n / d` strictly above the integer `hi` rounds to at least `hi`.
pub proof fn lemma_round_above(n: int, d: int, hi: int)
    requires
        d != 0,
        d > 0 ==> n > hi * d,
        d < 0 ==> n < hi * d,
    ensures
        round_half_even(n, d) >= hi,
{
    lemma_round_is_nearest(n, d);
    let r = round_half_even(n, d);
    if d > 0 {
        assert(r >= hi) by (nonlinear_arith)
            requires
                d > 0,
                n > hi * d,
                -d <= 2 * (r * d - n) <= d,
        ;
    } else {
        assert(r >= hi) by (nonlinear_arith)
            requires
                d < 0,
                n < hi * d,
                d <= 2 * (r * d - n) <= -d,
        ;
    }
}

/// A non-negative quotient rounds to a non-negative integer, a non-positive
/// one to a non-positive integer.
pub proof fn lemma_round_sign(n: int, d: int)
    requires
        d != 0,
    ensures
        (n >= 0 && d > 0 || n <= 0 && d < 0) ==> round_half_even(n, d) >= 0,
        (n <= 0 && d > 0 || n >= 0 && d < 0) ==> round_half_even(n, d) <= 0,
{
    lemma_round_is_nearest(n, d);
    let r = round_half_even(n, d);
    if d > 0 {
        assert((n >= 0 ==> r >= 0) && (n <= 0 ==> r <= 0)) by (nonlinear_arith)
            requires
                d > 0,
                -d <= 2 * (r * d - n) <= d,
        ;
    } else {
        assert((n <= 0 ==> r >= 0) && (n >= 0 ==> r <= 0)) by (nonlinear_arith)
            requires
                d < 0,
                d <= 2 * (r * d - n) <= -d,
        ;
    }
}

/// An exact quotient is returned unchanged.
pub proof fn lemma_round_exact(k: int, d: int)
    requires
        d != 0,
    ensures
        round_half_even(k * d, d) == k,
{
    if d > 0 {
        lemma_fundamental_div_mod_converse(k * d, d, k, 0);
    } else {
        assert(-(k * d) == k * (-d)) by (nonlinear_arith);
        lemma_fundamental_div_mod_converse(-(k * d), -d, k, 0);
    }
}

impl<const INT: u32, const FRAC: u32> Q<INT, FRAC> {
    /// Saturating addition is commutative.
    pub proof fn law_add_commutative(a: Self, b: Self)
        requires
            valid_format(INT, FRAC),
        ensures
            a.add_result(b) == b.add_result(a),
    {
    }

    /// Zero is the identity of saturating addition.
    pub proof fn law_add_zero_identity(a: Self, zero: Self)
        requires
            valid_format(INT, FRAC),
            a.in_range(),
            zero@ == 0,
        ensures
            a.add_result(zero) == a@,
            zero.add_result(a) == a@,
    {
    }

    /// Addition of two values whose exact sum is representable is exact.
    pub proof fn law_add_exact_when_in_range(a: Self, b: Self)
        requires
            valid_format(INT, FRAC),
            format_min_raw(INT, FRAC) <= a@ + b@ <= format_max_raw(INT, FRAC),
        ensures
            a.add_result(b) == a@ + b@,
    {
    }

    /// Addition is associative when no partial or total sum saturates:
    /// `(a + b) + c == a + (b + c)`.
    pub proof fn law_add_associative_without_saturation(
        a: Self,
        b: Self,
        c: Self,
        ab: Self,
        bc: Self,
    )
        requires
            valid_format(INT, FRAC),
            ab@ == a.add_result(b),
            bc@ == b.add_result(c),
            format_min_raw(INT, FRAC) <= a@ + b@ <= format_max_raw(INT, FRAC),
            format_min_raw(INT, FRAC) <= b@ + c@ <= format_max_raw(INT, FRAC),
            format_min_raw(INT, FRAC) <= a@ + b@ + c@ <= format_max_raw(INT, FRAC),
        ensures
            ab.add_result(c) == a.add_result(bc),
            ab.add_result(c) == a@ + b@ + c@,
    {
    }

    /// Subtracting a value from itself gives zero.
    pub proof fn law_sub_self_is_zero(a: Self)
        requires
            valid_format(INT, FRAC),
        ensures
            a.sub_result(a) == 0,
    {
        super::fixed::lemma_format_range(INT, FRAC);
    }

    /// Subtracting zero is the identity.
    pub proof fn law_sub_zero_identity(a: Self, zero: Self)
        requires
            valid_format(INT, FRAC),
            a.in_range(),
            zero@ == 0,
        ensures
            a.sub_result(zero) == a@,
    {
    }

    /// Subtraction of two values whose exact difference is representable is
    /// exact.
    pub proof fn law_sub_exact_when_in_range(a: Self, b: Self)
        requires
            valid_format(INT, FRAC),
            format_min_raw(INT, FRAC) <= a@ - b@ <= format_max_raw(INT, FRAC),
        ensures
            a.sub_result(b) == a@ - b@,
    {
    }

    /// Negating zero gives zero; negating the minimum gives the maximum.
    pub proof fn law_neg_zero_and_min(a: Self)
        requires
            valid_format(INT, FRAC),
        ensures
            a@ == 0 ==> a.neg_result() == 0,
            a@ == format_min_raw(INT, FRAC) ==> a.neg_result() == format_max_raw(INT, FRAC),
    {
        super::fixed::lemma_format_range(INT, FRAC);
    }

    /// Double negation is the identity for every value but the minimum.
    pub proof fn law_neg_involutive(a: Self, neg_a: Self)
        requires
            valid_format(INT, FRAC),
            a.in_range(),
            a@ != format_min_raw(INT, FRAC),
            neg_a@ == a.neg_result(),
        ensures
            neg_a.neg_result() == a@,
    {
        super::fixed::lemma_format_range(INT, FRAC);
    }

    /// A value plus its negation is zero, for every value but the minimum.
    pub proof fn law_neg_additive_inverse(a: Self, neg_a: Self)
        requires
            valid_format(INT, FRAC),
            a.in_range(),
            a@ != format_min_raw(INT, FRAC),
            neg_a@ == a.neg_result(),
        ensures
            a.add_result(neg_a) == 0,
    {
        super::fixed::lemma_format_range(INT, FRAC);
    }

    /// Multiplication is commutative.
    pub proof fn law_mul_commutative(a: Self, b: Self)
        requires
            valid_format(INT, FRAC),
        ensures
            a.mul_result(b) == b.mul_result(a),
    {
        lemma_mul_is_commutative(a@, b@);
    }

    /// Multiplying by zero gives zero.
    pub proof fn law_mul_by_zero(a: Self, zero: Self)
        requires
            valid_format(INT, FRAC),
            zero@ == 0,
        ensures
            a.mul_result(zero) == 0,
            zero.mul_result(a) == 0,
    {
        lemma_pow2_pos(FRAC as nat);
        lemma_round_exact(0, pow2(FRAC as nat) as int);
        super::fixed::lemma_format_range(INT, FRAC);
    }

    /// Multiplying by one (raw `2^FRAC_BITS`) is the identity.
    pub proof fn law_mul_by_one_identity(a: Self, one: Self)
        requires
            valid_format(INT, FRAC),
            a.in_range(),
            one@ == pow2(FRAC as nat),
        ensures
            a.mul_result(one) == a@,
            one.mul_result(a) == a@,
    {
        lemma_pow2_pos(FRAC as nat);
        lemma_round_exact(a@, pow2(FRAC as nat) as int);
        lemma_mul_is_commutative(a@, one@);
    }

    /// When the exact product is representable, the result is within half a
    /// resolution step of it: `|r·2^F − a·b| ≤ 2^F / 2`.
    pub proof fn law_mul_error_bound(a: Self, b: Self)
        requires
            valid_format(INT, FRAC),
            format_min_raw(INT, FRAC) * pow2(FRAC as nat) <= a@ * b@ <= format_max_raw(INT, FRAC)
                * pow2(FRAC as nat),
        ensures
            ({
                let e = a.mul_result(b) * pow2(FRAC as nat) - a@ * b@;
                -(pow2(FRAC as nat) as int) <= 2 * e <= pow2(FRAC as nat)
            }),
    {
        let d = pow2(FRAC as nat) as int;
        lemma_pow2_pos(FRAC as nat);
        lemma_round_stays_in_range(
            a@ * b@,
            d,
            format_min_raw(INT, FRAC),
            format_max_raw(INT, FRAC),
        );
        lemma_round_is_nearest(a@ * b@, d);
    }

    /// Dividing by one (raw `2^FRAC_BITS`) is the identity.
    pub proof fn law_div_by_one_identity(a: Self, one: Self)
        requires
            valid_format(INT, FRAC),
            a.in_range(),
            one@ == pow2(FRAC as nat),
        ensures
            a.div_result(one) == a@,
    {
        lemma_pow2_pos(FRAC as nat);
        lemma_round_exact(a@, pow2(FRAC as nat) as int);
    }

    /// When the exact quotient `a·2^F / b` is representable, the result is
    /// within half a resolution step of it: `|r·b − a·2^F| ≤ |b| / 2`.
    pub proof fn law_div_error_bound(a: Self, b: Self)
        requires
            valid_format(INT, FRAC),
            b@ != 0,
            b@ > 0 ==> format_min_raw(INT, FRAC) * b@ <= a@ * pow2(FRAC as nat)
                <= format_max_raw(INT, FRAC) * b@,
            b@ < 0 ==> format_max_raw(INT, FRAC) * b@ <= a@ * pow2(FRAC as nat)
                <= format_min_raw(INT, FRAC) * b@,
        ensures
            ({
                let e = a.div_result(b) * b@ - a@ * pow2(FRAC as nat);
                let abs_b = if b@ < 0 { -b@ } else { b@ };
                -abs_b <= 2 * e <= abs_b
            }),
    {
        let n = a@ * pow2(FRAC as nat);
        lemma_round_stays_in_range(n, b@, format_min_raw(INT, FRAC), format_max_raw(INT, FRAC));
        lemma_round_is_nearest(n, b@);
    }

    /// Constructing from a raw value and reading it back gives the raw value;
    /// a value is constructible exactly when it is in range.
    pub proof fn law_clamp_is_identity_in_range(v: int)
        requires
            valid_format(INT, FRAC),
            format_min_raw(INT, FRAC) <= v <= format_max_raw(INT, FRAC),
        ensures
            clamp_to_format(INT, FRAC, v) == v,
    {
    }

    /// Every operation saturates: its result lies in
    /// `[min_value(), max_value()]`, whatever the operands.
    pub proof fn law_results_within_bounds(a: Self, b: Self)
        requires
            valid_format(INT, FRAC),
        ensures
            format_min_raw(INT, FRAC) <= a.add_result(b) <= format_max_raw(INT, FRAC),
            format_min_raw(INT, FRAC) <= a.sub_result(b) <= format_max_raw(INT, FRAC),
            format_min_raw(INT, FRAC) <= a.neg_result() <= format_max_raw(INT, FRAC),
            format_min_raw(INT, FRAC) <= a.mul_result(b) <= format_max_raw(INT, FRAC),
            format_min_raw(INT, FRAC) <= a.div_result(b) <= format_max_raw(INT, FRAC),
    {
        super::fixed::lemma_format_range(INT, FRAC);
    }

    /// Addition saturates toward the exact sum: a sum below the range gives
    /// the minimum, one above it the maximum.
    pub proof fn law_add_saturates_toward_exact_sum(a: Self, b: Self)
        requires
            valid_format(INT, FRAC),
        ensures
            a@ + b@ < format_min_raw(INT, FRAC) ==> a.add_result(b) == format_min_raw(INT, FRAC),
            a@ + b@ > format_max_raw(INT, FRAC) ==> a.add_result(b) == format_max_raw(INT, FRAC),
    {
    }

    /// Subtraction saturates toward the exact difference.
    pub proof fn law_sub_saturates_toward_exact_difference(a: Self, b: Self)
        requires
            valid_format(INT, FRAC),
        ensures
            a@ - b@ < format_min_raw(INT, FRAC) ==> a.sub_result(b) == format_min_raw(INT, FRAC),
            a@ - b@ > format_max_raw(INT, FRAC) ==> a.sub_result(b) == format_max_raw(INT, FRAC),
    {
    }

    /// Multiplication saturates toward the exact product: a real product
    /// `a·b / 2^F` below the range gives the minimum, one above it the
    /// maximum; and the result never has the opposite sign of the product.
    pub proof fn law_mul_saturates_toward_exact_product(a: Self, b: Self)
        requires
            valid_format(INT, FRAC),
        ensures
            a@ * b@ < format_min_raw(INT, FRAC) * pow2(FRAC as nat) ==> a.mul_result(b)
                == format_min_raw(INT, FRAC),
            a@ * b@ > format_max_raw(INT, FRAC) * pow2(FRAC as nat) ==> a.mul_result(b)
                == format_max_raw(INT, FRAC),
            a@ * b@ >= 0 ==> a.mul_result(b) >= 0,
            a@ * b@ <= 0 ==> a.mul_result(b) <= 0,
    {
        super::fixed::lemma_format_range(INT, FRAC);
        let n = a@ * b@;
        let d = pow2(FRAC as nat) as int;
        lemma_pow2_pos(FRAC as nat);
        lemma_round_is_nearest(n, d);
        if n < format_min_raw(INT, FRAC) * d {
            lemma_round_below(n, d, format_min_raw(INT, FRAC));
        }
        if n > format_max_raw(INT, FRAC) * d {
            lemma_round_above(n, d, format_max_raw(INT, FRAC));
        }
        lemma_round_sign(n, d);
    }

    /// Division saturates toward the exact quotient `a·2^F / b`, whatever the
    /// signs of the operands: a quotient below the range gives the minimum,
    /// one above it the maximum; and the result never has the opposite sign
    /// of the quotient.
    pub proof fn law_div_saturates_toward_exact_quotient(a: Self, b: Self)
        requires
            valid_format(INT, FRAC),
            b@ != 0,
        ensures
            ({
                let n = a@ * pow2(FRAC as nat);
                let lo = format_min_raw(INT, FRAC);
                let hi = format_max_raw(INT, FRAC);
                &&& (b@ > 0 && n < lo * b@ || b@ < 0 && n > lo * b@) ==> a.div_result(b) == lo
                &&& (b@ > 0 && n > hi * b@ || b@ < 0 && n < hi * b@) ==> a.div_result(b) == hi
                &&& (n >= 0 && b@ > 0 || n <= 0 && b@ < 0) ==> a.div_result(b) >= 0
                &&& (n <= 0 && b@ > 0 || n >= 0 && b@ < 0) ==> a.div_result(b) <= 0
            }),
    {
        super::fixed::lemma_format_range(INT, FRAC);
        let n = a@ * pow2(FRAC as nat);
        let d = b@;
        let lo = format_min_raw(INT, FRAC);
        let hi = format_max_raw(INT, FRAC);
        if d > 0 && n < lo * d || d < 0 && n > lo * d {
            lemma_round_below(n, d, lo);
        }
        if d > 0 && n > hi * d || d < 0 && n < hi * d {
            lemma_round_above(n, d, hi);
        }
        lemma_round_sign(n, d);
    }

}

} // verus!
