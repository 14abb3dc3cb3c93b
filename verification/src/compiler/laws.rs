//! Laws of the delay codecs and of the calendar conversion.

use vstd::prelude::*;
use crate::compiler::delays::{bytes_of_pairs, bytes_of_u16s, pairs_of_bytes, u16s_of_bytes};
use crate::compiler::timestamp::{
    civil_from_days, days_before_month, days_before_year, month_days, month_split, year_days,
    year_split,
};

verus! {

/// Reading back the little-endian bytes of a `u16` sequence gives the
/// sequence.
pub proof fn law_u16_le_round_trip(s: Seq<u16>)
    ensures
        u16s_of_bytes(bytes_of_u16s(s)) == s,
{
    let b = bytes_of_u16s(s);
    assert(b.len() / 2 == s.len());
    assert forall|i: int| 0 <= i < s.len() implies #[trigger] u16s_of_bytes(b)[i] == s[i] by {
        assert(b[2 * i] == (s[i] % 256) as u8);
        assert(b[2 * i + 1] == (s[i] / 256) as u8);
    }
    assert(u16s_of_bytes(b) =~= s);
}

/// Reading back the little-endian bytes of a pair sequence gives the
/// sequence.
pub proof fn law_sparse_pairs_round_trip(p: Seq<(u32, u16)>)
    ensures
        pairs_of_bytes(bytes_of_pairs(p)) == p,
{
    let b = bytes_of_pairs(p);
    assert(b.len() / 6 == p.len());
    assert forall|i: int| 0 <= i < p.len() implies #[trigger] pairs_of_bytes(b)[i] == p[i] by {
        let x = p[i].0;
        assert(b[6 * i] == (x % 256) as u8);
        assert(b[6 * i + 1] == ((x / 256) % 256) as u8);
        assert(b[6 * i + 2] == ((x / 65536) % 256) as u8);
        assert(b[6 * i + 3] == (x / 16777216) as u8);
        assert(b[6 * i + 4] == (p[i].1 % 256) as u8);
        assert(b[6 * i + 5] == (p[i].1 / 256) as u8);
    }
    assert(pairs_of_bytes(b) =~= p);
}

proof fn lemma_months_fill_year(y: int)
    ensures
        days_before_month(y, 13) == year_days(y),
{
    reveal_with_fuel(days_before_month, 13);
}

proof fn lemma_days_before_year_step(y: int)
    requires
        y >= 1970,
    ensures
        days_before_year(y + 1) == days_before_year(y) + year_days(y),
{
}

proof fn lemma_days_before_year_monotone(k: int, y: int)
    requires
        1970 <= k <= y,
    ensures
        days_before_year(k) <= days_before_year(y),
    decreases y - k,
{
    if k < y {
        lemma_days_before_year_monotone(k, y - 1);
    }
}

proof fn lemma_year_split_valid(days: int, y: int)
    requires
        days >= 0,
        y >= 1970,
    ensures
        year_split(days, y).0 >= y,
        0 <= year_split(days, y).1 < year_days(year_split(days, y).0),
        days_before_year(y) + days == days_before_year(year_split(days, y).0) + year_split(
            days,
            y,
        ).1,
    decreases days,
{
    if days >= year_days(y) {
        lemma_year_split_valid(days - year_days(y), y + 1);
        lemma_days_before_year_step(y);
    }
}

proof fn lemma_month_split_valid(y: int, rem: int, m: int)
    requires
        1 <= m <= 13,
        rem >= 0,
        days_before_month(y, m) + rem < year_days(y),
    ensures
        1 <= month_split(y, rem, m).0 <= 12,
        0 <= month_split(y, rem, m).1 < month_days(y, month_split(y, rem, m).0),
        days_before_month(y, m) + rem == days_before_month(y, month_split(y, rem, m).0)
            + month_split(y, rem, m).1,
    decreases 13 - m,
{
    lemma_months_fill_year(y);
    if m <= 12 && rem >= month_days(y, m) {
        lemma_month_split_valid(y, rem - month_days(y, m), m + 1);
    }
}

/// The date `days` days after 1970-01-01 is a calendar date (month 1 to 12,
/// day within the month) and counts back to `days`.
pub proof fn law_civil_from_days_is_valid_date(days: nat)
    ensures
        civil_from_days(days).0 >= 1970,
        1 <= civil_from_days(days).1 <= 12,
        1 <= civil_from_days(days).2 <= month_days(civil_from_days(days).0, civil_from_days(days).1),
        days == days_before_year(civil_from_days(days).0) + days_before_month(
            civil_from_days(days).0,
            civil_from_days(days).1,
        ) + civil_from_days(days).2 - 1,
{
    let (y, r) = year_split(days as int, 1970);
    lemma_year_split_valid(days as int, 1970);
    lemma_month_split_valid(y, r, 1);
}

proof fn lemma_year_split_lands(k: int, y: int, x: int)
    requires
        1970 <= k <= y,
        0 <= x < year_days(y),
    ensures
        year_split(days_before_year(y) - days_before_year(k) + x, k) == (y, x),
    decreases y - k,
{
    if k < y {
        lemma_days_before_year_step(k);
        lemma_days_before_year_monotone(k + 1, y);
        lemma_year_split_lands(k + 1, y, x);
    }
}

proof fn lemma_days_before_month_monotone(y: int, j: int, m: int)
    requires
        1 <= j <= m,
    ensures
        days_before_month(y, j) <= days_before_month(y, m),
    decreases m - j,
{
    if j < m {
        lemma_days_before_month_monotone(y, j, m - 1);
    }
}

proof fn lemma_month_split_lands(y: int, j: int, m: int, d0: int)
    requires
        1 <= j <= m <= 12,
        0 <= d0 < month_days(y, m),
    ensures
        month_split(y, days_before_month(y, m) - days_before_month(y, j) + d0, j) == (m, d0),
    decreases m - j,
{
    if j < m {
        lemma_days_before_month_monotone(y, j + 1, m);
        lemma_month_split_lands(y, j + 1, m, d0);
    }
}

/// Every calendar date from 1970 on is the date of its own day count: the
/// conversion inverts counting days from 1970-01-01.
pub proof fn law_civil_from_days_inverts_day_count(y: int, m: int, d: int)
    requires
        y >= 1970,
        1 <= m <= 12,
        1 <= d <= month_days(y, m),
    ensures
        civil_from_days((days_before_year(y) + days_before_month(y, m) + d - 1) as nat) == (y, m, d),
{
    lemma_months_fill_year(y);
    lemma_days_before_month_monotone(y, m + 1, 13);
    lemma_days_before_month_monotone(y, 1, m);
    assert(days_before_month(y, m + 1) == days_before_month(y, m) + month_days(y, m));
    let x = days_before_month(y, m) + d - 1;
    assert(0 <= x < year_days(y));
    lemma_days_before_year_monotone(1970, y);
    lemma_year_split_lands(1970, y, x);
    lemma_month_split_lands(y, 1, m, d - 1);
}

} // verus!
