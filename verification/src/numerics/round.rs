//! Round-half-even (banker's rounding) for integer arithmetic.

use vstd::arithmetic::div_mod::*;
use vstd::arithmetic::power2::*;
use vstd::bits::*;
use vstd::prelude::*;

verus! {

/// The integer nearest to `n / d` for a positive `d`; a value exactly halfway
/// between two integers goes to the even one.
pub open spec fn round_half_even_pos(n: int, d: int) -> int
    recommends
        d > 0,
{
    let q = n / d;
    let r = n % d;
    if 2 * r > d {
        q + 1
    } else if 2 * r < d {
        q
    } else if q % 2 == 0 {
        q
    } else {
        q + 1
    }
}

/// The integer nearest to the rational `n / d` (`d != 0`), ties to even.
pub open spec fn round_half_even(n: int, d: int) -> int
    recommends
        d != 0,
{
    if d > 0 {
        round_half_even_pos(n, d)
    } else {
        round_half_even_pos(-n, -d)
    }
}

/// `2^s` as an `i64` for `s < 63`.
pub proof fn lemma_i64_shl_pow2(s: u32)
    requires
        s < 63,
    ensures
        (1i64 << s) as int == pow2(s as nat),
        pow2(s as nat) <= 0x4000_0000_0000_0000,
{
    lemma_u64_pow2_no_overflow(s as nat);
    lemma_u64_shl_is_mul(1u64, s as u64);
    assert((1i64 << s) as int == (1u64 << (s as u64)) as int) by (bit_vector)
        requires
            s < 63,
    ;
    if s < 62 {
        lemma_pow2_strictly_increases(s as nat, 62);
    }
    lemma2_to64_rest();
}

proof fn lemma_shr_decomposition(v: i64, s: u32)
    by (bit_vector)
    requires
        0 < s < 63,
    ensures
        0 <= (v & (((1i64 << s) - 1) as i64)) < (1i64 << s),
        (v >> s) * (1i64 << s) + (v & (((1i64 << s) - 1) as i64)) == v,
        (v >> s) < 0x7fff_ffff_ffff_ffff,
        (1i64 << s) == 2 * (1i64 << ((s - 1) as u32)),
{
}

proof fn lemma_low_bit_parity_i64(t: i64)
    by (bit_vector)
    ensures
        ((t & 1) == 0) == (t % 2 == 0),
{
}

proof fn lemma_low_bit_parity_i128(t: i128)
    by (bit_vector)
    ensures
        ((t & 1) == 0) == (t % 2 == 0),
{
}

/// Round `value / 2^shift` to the nearest integer, ties to even.
///
/// A `shift` of zero returns `value` unchanged.
pub fn round_half_even_shr_i64(value: i64, shift: u32) -> (r: i64)
    requires
        shift < 63,
    ensures
        r as int == round_half_even(value as int, pow2(shift as nat) as int),
{
    if shift == 0 {
        proof {
            lemma2_to64();
        }
        return value;
    }
    proof {
        lemma_i64_shl_pow2(shift);
        lemma_i64_shl_pow2((shift - 1) as u32);
        lemma_shr_decomposition(value, shift);
    }
    let mask: i64 = (1i64 << shift) - 1;
    let half: i64 = 1i64 << (shift - 1);
    let trunc: i64 = value >> shift;
    let frac: i64 = value & mask;
    proof {
        let p = pow2(shift as nat) as int;
        lemma_fundamental_div_mod_converse(value as int, p, trunc as int, frac as int);
        lemma_low_bit_parity_i64(trunc);
        assert(2 * half == p);
    }
    if frac > half {
        trunc + 1
    } else if frac < half {
        trunc
    } else {
        if trunc & 1 == 0 {
            trunc
        } else {
            trunc + 1
        }
    }
}

/// The rounding rule on a truncating quotient and remainder: `n == d*q + r`
/// with `|r| < |d|` rounds to `q` or to the neighbour of `q` on the side of
/// the exact quotient (`far`), whichever is nearer, ties to the even one.
proof fn lemma_round_from_truncation(n: int, d: int, q: int, r: int)
    requires
        d != 0,
        n == d * q + r,
        -(if d < 0 { -d } else { d }) < r < (if d < 0 { -d } else { d }),
    ensures
        ({
            let abs_r = if r < 0 { -r } else { r };
            let abs_d = if d < 0 { -d } else { d };
            let far = if (r > 0) == (d > 0) { q + 1 } else { q - 1 };
            round_half_even(n, d) == if 2 * abs_r < abs_d {
                q
            } else if 2 * abs_r > abs_d {
                far
            } else if q % 2 == 0 {
                q
            } else {
                far
            }
        }),
{
    if d > 0 {
        lemma_round_pos_from_truncation(n, d, q, r);
    } else {
        assert(-n == (-d) * q + (-r)) by (nonlinear_arith)
            requires
                n == d * q + r,
        ;
        lemma_round_pos_from_truncation(-n, -d, q, -r);
    }
}

proof fn lemma_round_pos_from_truncation(n: int, d: int, q: int, r: int)
    requires
        d > 0,
        n == d * q + r,
        -d < r < d,
    ensures
        ({
            let abs_r = if r < 0 { -r } else { r };
            let far = if r > 0 { q + 1 } else { q - 1 };
            round_half_even_pos(n, d) == if 2 * abs_r < d {
                q
            } else if 2 * abs_r > d {
                far
            } else if q % 2 == 0 {
                q
            } else {
                far
            }
        }),
{
    if r >= 0 {
        lemma_fundamental_div_mod_converse(n, d, q, r);
    } else {
        assert(n == d * (q - 1) + (r + d)) by (nonlinear_arith)
            requires
                n == d * q + r,
        ;
        lemma_fundamental_div_mod_converse(n, d, q - 1, r + d);
    }
}

/// Round the rational `numerator / denominator` to the nearest integer,
/// ties to even, for any signs of the operands.
pub fn round_half_even_div_i128(numerator: i128, denominator: i128) -> (r: i128)
    requires
        denominator != 0,
        numerator >= i128::MIN + 2,
    ensures
        r as int == round_half_even(numerator as int, denominator as int),
{
    let q = numerator.checked_div(denominator).unwrap();
    let r = numerator.checked_rem(denominator).unwrap();
    proof {
        let n = numerator as int;
        let d = denominator as int;
        let an = if n < 0 { -n } else { n };
        let ad = if d < 0 { -d } else { d };
        lemma_fundamental_div_mod(an, ad);
        lemma_mod_pos_bound(an, ad);
        assert(an == ad * (an / ad) + an % ad);
        assert(n == d * (q as int) + (r as int)) by (nonlinear_arith)
            requires
                an == ad * (an / ad) + an % ad,
                an == if n < 0 { -n } else { n },
                ad == if d < 0 { -d } else { d },
                q as int == (if n == 0 {
                    0
                } else if n > 0 && d > 0 {
                    n / d
                } else if n < 0 && d < 0 {
                    (n * -1) / (d * -1)
                } else if n < 0 {
                    ((n * -1) / d) * -1
                } else {
                    (n / (d * -1)) * -1
                }),
                r as int == (if n == 0 {
                    0
                } else if n > 0 && d > 0 {
                    n % d
                } else if n < 0 && d < 0 {
                    ((n * -1) % (d * -1)) * -1
                } else if n < 0 {
                    ((n * -1) % d) * -1
                } else {
                    n % (d * -1)
                }),
        ;
        lemma_round_from_truncation(n, d, q as int, r as int);
        lemma_low_bit_parity_i128(q);
        // |q| == an / ad <= an, so q + 1 and q - 1 stay in range
        if ad >= 2 && an > 0 {
            lemma_div_decreases(an, ad);
        }
        if ad == 1 {
            lemma_div_basics(an);
        }
        lemma_div_pos_is_pos(an, ad);
        assert((r > 0) == (d > 0) ==> (q as int) < i128::MAX);
        assert((r > 0) != (d > 0) ==> (q as int) > i128::MIN);
    }
    let abs_r: u128 = if r < 0 {
        (-r) as u128
    } else {
        r as u128
    };
    let abs_d: u128 = if denominator < 0 {
        ((-(denominator + 1)) as u128) + 1
    } else {
        denominator as u128
    };
    let two_abs_r: u128 = abs_r * 2;
    let far = if (r > 0) == (denominator > 0) {
        q + 1
    } else {
        q - 1
    };
    if two_abs_r < abs_d {
        q
    } else if two_abs_r > abs_d {
        far
    } else {
        if q & 1 == 0 {
            q
        } else {
            far
        }
    }
}

} // verus!
