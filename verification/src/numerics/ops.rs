//! Saturating arithmetic for `Q<INT_BITS, FRAC_BITS>`.
//!
//! Results outside the representable range are clamped; where a result must
//! be narrowed (multiplication, division) it is rounded half to even first.

use vstd::arithmetic::power2::*;
use vstd::bits::*;
use vstd::prelude::*;

use super::error::FixedPointError;
use super::fixed::{clamp_to_format, lemma_format_range, valid_format, Q};
use super::round::{round_half_even, round_half_even_div_i128, round_half_even_shr_i64};

verus! {

broadcast use Q::lemma_view_is_bits;

impl<const INT: u32, const FRAC: u32> Q<INT, FRAC> {
    /// Raw result of `self + rhs`: the exact sum, clamped.
    pub open spec fn add_result(self, rhs: Self) -> int {
        clamp_to_format(INT, FRAC, self@ + rhs@)
    }

    /// Raw result of `self - rhs`: the exact difference, clamped.
    pub open spec fn sub_result(self, rhs: Self) -> int {
        clamp_to_format(INT, FRAC, self@ - rhs@)
    }

    /// Raw result of `-self`: the exact negation, clamped.
    pub open spec fn neg_result(self) -> int {
        clamp_to_format(INT, FRAC, -self@)
    }

    /// Raw result of `self × rhs`: the raw product `a·b` scaled back by
    /// `2^FRAC_BITS`, rounded half to even, clamped.
    pub open spec fn mul_result(self, rhs: Self) -> int {
        clamp_to_format(INT, FRAC, round_half_even(self@ * rhs@, pow2(FRAC as nat) as int))
    }

    /// Raw result of `self ÷ rhs` for a non-zero `rhs`: `a·2^FRAC_BITS / b`,
    /// rounded half to even, clamped.
    pub open spec fn div_result(self, rhs: Self) -> int {
        clamp_to_format(INT, FRAC, round_half_even(self@ * pow2(FRAC as nat), rhs@))
    }

    fn clamp_i64(v: i64) -> (r: Self)
        requires
            valid_format(INT, FRAC),
        ensures
            r@ == clamp_to_format(INT, FRAC, v as int),
    {
        proof {
            lemma_format_range(INT, FRAC);
        }
        let lo = Self::min_raw();
        let hi = Self::max_raw();
        if v < lo as i64 {
            Self { bits: lo }
        } else if v > hi as i64 {
            Self { bits: hi }
        } else {
            Self { bits: v as i32 }
        }
    }

    fn clamp_i128(v: i128) -> (r: Self)
        requires
            valid_format(INT, FRAC),
        ensures
            r@ == clamp_to_format(INT, FRAC, v as int),
    {
        proof {
            lemma_format_range(INT, FRAC);
        }
        let lo = Self::min_raw();
        let hi = Self::max_raw();
        if v < lo as i128 {
            Self { bits: lo }
        } else if v > hi as i128 {
            Self { bits: hi }
        } else {
            Self { bits: v as i32 }
        }
    }

    /// Add `rhs`, saturating at the representable bounds.  In-range sums are
    /// exact.
    pub fn saturating_add(self, rhs: Self) -> (r: Self)
        requires
            valid_format(INT, FRAC),
        ensures
            r@ == self.add_result(rhs),
    {
        Self::clamp_i64(self.bits as i64 + rhs.bits as i64)
    }

    /// Subtract `rhs`, saturating at the representable bounds.  In-range
    /// differences are exact.
    pub fn saturating_sub(self, rhs: Self) -> (r: Self)
        requires
            valid_format(INT, FRAC),
        ensures
            r@ == self.sub_result(rhs),
    {
        Self::clamp_i64(self.bits as i64 - rhs.bits as i64)
    }

    /// Negate, saturating: `min_value().saturating_neg()` is `max_value()`.
    pub fn saturating_neg(self) -> (r: Self)
        requires
            valid_format(INT, FRAC),
        ensures
            r@ == self.neg_result(),
    {
        Self::clamp_i64(-(self.bits as i64))
    }

    /// Multiply by `rhs`: the 64-bit raw product is shifted back by
    /// `FRAC_BITS` with round-half-even, then clamped.
    pub fn saturating_mul(self, rhs: Self) -> (r: Self)
        requires
            valid_format(INT, FRAC),
        ensures
            r@ == self.mul_result(rhs),
    {
        let a = self.bits as i64;
        let b = rhs.bits as i64;
        proof {
            assert(-0x4000_0000_0000_0000 <= a * b <= 0x4000_0000_0000_0000) by (nonlinear_arith)
                requires
                    -0x8000_0000 <= a < 0x8000_0000,
                    -0x8000_0000 <= b < 0x8000_0000,
            ;
        }
        let product = a * b;
        let rounded = round_half_even_shr_i64(product, FRAC);
        Self::clamp_i64(rounded)
    }

    /// Divide by `rhs`: the numerator is widened to 128 bits and scaled by
    /// `2^FRAC_BITS`, divided with round-half-even, then clamped.
    /// Division by zero is an error.
    pub fn saturating_div(self, rhs: Self) -> (r: Result<Self, FixedPointError>)
        requires
            valid_format(INT, FRAC),
        ensures
            r is Err <==> rhs@ == 0,
            r matches Err(e) ==> e == FixedPointError::DivisionByZero,
            r matches Ok(q) ==> q@ == self.div_result(rhs),
    {
        if rhs.bits == 0 {
            return Err(FixedPointError::DivisionByZero);
        }
        proof {
            lemma_u64_pow2_no_overflow(FRAC as nat);
            lemma_u64_shl_is_mul(1u64, FRAC as u64);
            lemma_pow2_strictly_increases(FRAC as nat, 32);
            lemma2_to64();
        }
        let scale = (1u64 << (FRAC as u64)) as i128;
        let a = self.bits as i128;
        proof {
            assert(-0x8000_0000_0000_0000 <= a * scale <= 0x8000_0000_0000_0000) by (nonlinear_arith)
                requires
                    -0x8000_0000 <= a < 0x8000_0000,
                    0 < scale <= 0x1_0000_0000,
            ;
        }
        let numerator = a * scale;
        let denominator = rhs.bits as i128;
        let rounded = round_half_even_div_i128(numerator, denominator);
        Ok(Self::clamp_i128(rounded))
    }
}

} // verus!
