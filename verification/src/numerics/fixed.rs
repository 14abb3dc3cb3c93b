//! The `Q<INT_BITS, FRAC_BITS>` signed fixed-point type.
//!
//! `Q<INT_BITS, FRAC_BITS>` stores a raw `i32`; the raw integer `bits`
//! represents the real value `bits × 2^(−FRAC_BITS)`.  A format is valid when
//! `INT_BITS ≥ 1` (a sign bit) and `INT_BITS + FRAC_BITS ≤ 32`; every
//! operation requires a valid format.
//!
//! Representable raw range: `[−2^(TOTAL−1), 2^(TOTAL−1) − 1]` where
//! `TOTAL = INT_BITS + FRAC_BITS`.

use vstd::arithmetic::power2::*;
use vstd::bits::*;
use vstd::prelude::*;

verus! {

/// `INT_BITS ≥ 1` and `INT_BITS + FRAC_BITS ≤ 32`.
pub open spec fn valid_format(int_bits: u32, frac_bits: u32) -> bool {
    1 <= int_bits && int_bits + frac_bits <= 32
}

/// Smallest raw value of the format: `−2^(TOTAL−1)`.
pub open spec fn format_min_raw(int_bits: u32, frac_bits: u32) -> int {
    -pow2((int_bits + frac_bits - 1) as nat)
}

/// Largest raw value of the format: `2^(TOTAL−1) − 1`.
pub open spec fn format_max_raw(int_bits: u32, frac_bits: u32) -> int {
    pow2((int_bits + frac_bits - 1) as nat) - 1
}

/// `v` clamped to the raw range of the format.
pub open spec fn clamp_to_format(int_bits: u32, frac_bits: u32, v: int) -> int {
    if v < format_min_raw(int_bits, frac_bits) {
        format_min_raw(int_bits, frac_bits)
    } else if v > format_max_raw(int_bits, frac_bits) {
        format_max_raw(int_bits, frac_bits)
    } else {
        v
    }
}

/// The raw range of a valid format lies within `i32` and contains 0.
pub proof fn lemma_format_range(int_bits: u32, frac_bits: u32)
    requires
        valid_format(int_bits, frac_bits),
    ensures
        i32::MIN <= format_min_raw(int_bits, frac_bits) < 0,
        0 < format_max_raw(int_bits, frac_bits) + 1 <= i32::MAX + 1,
        format_max_raw(int_bits, frac_bits) == -format_min_raw(int_bits, frac_bits) - 1,
{
    let e = (int_bits + frac_bits - 1) as nat;
    lemma2_to64();
    lemma_pow2_pos(e);
    if e < 31 {
        lemma_pow2_strictly_increases(e, 31);
    }
}

proof fn lemma_i32_shl_matches_u32(f: u32)
    by (bit_vector)
    requires
        f < 31,
    ensures
        (1i32 << f) as int == (1u32 << f) as int,
{
}

/// Signed fixed-point number in `Q_{INT_BITS}.{FRAC_BITS}` format, backed by
/// `i32`; its view is the raw integer.
///
/// All arithmetic is saturating and rounds half to even.
#[derive(Copy, Clone, PartialEq, Eq, PartialOrd, Ord, Hash, Debug)]
pub struct Q<const INT_BITS: u32, const FRAC_BITS: u32> {
    pub(crate) bits: i32,
}

impl<const INT: u32, const FRAC: u32> View for Q<INT, FRAC> {
    type V = int;

    closed spec fn view(&self) -> int {
        self.bits as int
    }
}

impl<const INT: u32, const FRAC: u32> Q<INT, FRAC> {
    #[verifier::type_invariant]
    pub(crate) open spec fn raw_in_range(self) -> bool {
        valid_format(INT, FRAC) ==> format_min_raw(INT, FRAC) <= self.bits <= format_max_raw(
            INT,
            FRAC,
        )
    }

    /// The view of a value is its raw backing integer.
    pub(crate) broadcast proof fn lemma_view_is_bits(q: Self)
        ensures
            #[trigger] q@ == q.bits as int,
    {
    }

    /// The raw value lies in the representable range of the format.
    pub open spec fn in_range(self) -> bool {
        format_min_raw(INT, FRAC) <= self@ <= format_max_raw(INT, FRAC)
    }

    /// Total bits used: `INT_BITS + FRAC_BITS`.
    pub fn total_bits() -> (r: u32)
        requires
            valid_format(INT, FRAC),
        ensures
            r == INT + FRAC,
    {
        INT + FRAC
    }

    /// The minimum raw backing value, `−2^(TOTAL−1)`.
    pub fn min_raw() -> (r: i32)
        requires
            valid_format(INT, FRAC),
        ensures
            r == format_min_raw(INT, FRAC),
    {
        let p = Self::half_range();
        proof {
            lemma_format_range(INT, FRAC);
        }
        -(p as i64) as i32
    }

    /// The maximum raw backing value, `2^(TOTAL−1) − 1`.
    pub fn max_raw() -> (r: i32)
        requires
            valid_format(INT, FRAC),
        ensures
            r == format_max_raw(INT, FRAC),
    {
        let p = Self::half_range();
        proof {
            lemma_format_range(INT, FRAC);
        }
        (p - 1) as i32
    }

    /// `2^(TOTAL−1)`.
    fn half_range() -> (p: u64)
        requires
            valid_format(INT, FRAC),
        ensures
            p == pow2((INT + FRAC - 1) as nat),
            p <= 0x8000_0000,
    {
        let e: u64 = (INT + FRAC - 1) as u64;
        proof {
            lemma_u64_pow2_no_overflow(e as nat);
            lemma_u64_shl_is_mul(1u64, e);
            lemma_format_range(INT, FRAC);
        }
        1u64 << e
    }

    /// Construct from a raw backing integer if it lies within the range of
    /// the format; `None` otherwise.
    pub fn from_raw(bits: i32) -> (r: Option<Self>)
        requires
            valid_format(INT, FRAC),
        ensures
            r is Some <==> format_min_raw(INT, FRAC) <= bits <= format_max_raw(INT, FRAC),
            r matches Some(q) ==> q@ == bits,
    {
        if bits >= Self::min_raw() && bits <= Self::max_raw() {
            Some(Self { bits })
        } else {
            None
        }
    }

    /// Zero.
    pub fn zero() -> (r: Self)
        requires
            valid_format(INT, FRAC),
        ensures
            r@ == 0,
    {
        proof {
            lemma_format_range(INT, FRAC);
        }
        Self { bits: 0 }
    }

    /// The minimum representable value.
    pub fn min_value() -> (r: Self)
        requires
            valid_format(INT, FRAC),
        ensures
            r@ == format_min_raw(INT, FRAC),
    {
        proof {
            lemma_format_range(INT, FRAC);
        }
        Self { bits: Self::min_raw() }
    }

    /// The maximum representable value.
    pub fn max_value() -> (r: Self)
        requires
            valid_format(INT, FRAC),
        ensures
            r@ == format_max_raw(INT, FRAC),
    {
        proof {
            lemma_format_range(INT, FRAC);
        }
        Self { bits: Self::max_raw() }
    }

    /// `Some(1.0)` when 1.0 is representable (`INT_BITS ≥ 2`), else `None`.
    /// The raw value of 1.0 is `2^FRAC_BITS`.
    pub fn one() -> (r: Option<Self>)
        requires
            valid_format(INT, FRAC),
        ensures
            r is Some <==> INT >= 2,
            r matches Some(q) ==> q@ == pow2(FRAC as nat),
    {
        if INT < 2 {
            return None;
        }
        proof {
            lemma_u32_pow2_no_overflow(FRAC as nat);
            lemma_u32_shl_is_mul(1u32, FRAC);
            lemma_i32_shl_matches_u32(FRAC);
            lemma_format_range(INT, FRAC);
            lemma_pow2_strictly_increases(FRAC as nat, (INT + FRAC - 1) as nat);
        }
        let raw = 1i32 << FRAC;
        Some(Self { bits: raw })
    }

    /// The raw backing integer; the real value is `raw × 2^(−FRAC_BITS)`.
    pub fn raw(self) -> (r: i32)
        requires
            valid_format(INT, FRAC),
        ensures
            r == self@,
            self.in_range(),
    {
        proof {
            use_type_invariant(&self);
        }
        self.bits
    }
}

} // verus!
