//! The compile timestamp: UTC ISO-8601 rendering of Unix time, with the
//! Gregorian calendar decomposition of a day count since 1970-01-01.

use vstd::prelude::*;
use crate::text::{decimal_padded, push_decimal_padded};

verus! {

/// Gregorian leap year.
pub open spec fn is_leap_spec(y: int) -> bool {
    (y % 4 == 0 && y % 100 != 0) || y % 400 == 0
}

/// Days in year `y`.
pub open spec fn year_days(y: int) -> int {
    if is_leap_spec(y) {
        366
    } else {
        365
    }
}

/// Days in month `m` (1 to 12) of year `y`.
pub open spec fn month_days(y: int, m: int) -> int {
    if m == 2 {
        if is_leap_spec(y) {
            29
        } else {
            28
        }
    } else if m == 4 || m == 6 || m == 9 || m == 11 {
        30
    } else {
        31
    }
}

/// Days from 1970-01-01 to January 1st of year `y`.
pub open spec fn days_before_year(y: int) -> int
    decreases y - 1970,
{
    if y <= 1970 {
        0
    } else {
        days_before_year(y - 1) + year_days(y - 1)
    }
}

/// Days from January 1st to the first of month `m` of year `y`.
pub open spec fn days_before_month(y: int, m: int) -> int
    decreases m,
{
    if m <= 1 {
        0
    } else {
        days_before_month(y, m - 1) + month_days(y, m - 1)
    }
}

/// Whole years counted off `days` from year `y`: the year reached and the day
/// of that year (from 0).
pub open spec fn year_split(days: int, y: int) -> (int, int)
    decreases days,
{
    if days < year_days(y) {
        (y, days)
    } else {
        year_split(days - year_days(y), y + 1)
    }
}

/// Whole months counted off day-of-year `rem` of year `y` from month `m`: the
/// month reached and the day of that month (from 0).
pub open spec fn month_split(y: int, rem: int, m: int) -> (int, int)
    decreases 13 - m,
{
    if m > 12 || rem < month_days(y, m) {
        (m, rem)
    } else {
        month_split(y, rem - month_days(y, m), m + 1)
    }
}

/// The calendar date `(year, month, day)` that lies `days` days after
/// 1970-01-01.
pub open spec fn civil_from_days(days: nat) -> (int, int, int) {
    let (y, r) = year_split(days as int, 1970);
    let (m, d0) = month_split(y, r, 1);
    (y, m, d0 + 1)
}

/// `YYYY-MM-DDThh:mm:ssZ` for a Unix time in seconds.
pub open spec fn iso8601_of(secs: nat) -> Seq<char> {
    let s = secs % 60;
    let m_tot = secs / 60;
    let m = m_tot % 60;
    let h_tot = m_tot / 60;
    let h = h_tot % 24;
    let days = h_tot / 24;
    let ymd = civil_from_days(days);
    decimal_padded(ymd.0 as nat, 4) + "-"@ + decimal_padded(ymd.1 as nat, 2) + "-"@
        + decimal_padded(ymd.2 as nat, 2) + "T"@ + decimal_padded(h, 2) + ":"@ + decimal_padded(m, 2)
        + ":"@ + decimal_padded(s, 2) + "Z"@
}

/// Gregorian leap year: divisible by 4 and not by 100, or divisible by 400.
pub fn is_leap(y: u64) -> (leap: bool)
    ensures
        leap == is_leap_spec(y as int),
{
    (y % 4 == 0 && y % 100 != 0) || y % 400 == 0
}

/// Days in month `m` (1 to 12) of year `y`.
fn days_in_month(y: u64, m: u64) -> (n: u64)
    ensures
        n == month_days(y as int, m as int),
{
    if m == 2 {
        if is_leap(y) {
            29
        } else {
            28
        }
    } else if m == 4 || m == 6 || m == 9 || m == 11 {
        30
    } else {
        31
    }
}

/// Days in year `y`.
fn days_in_year(y: u64) -> (n: u64)
    ensures
        n == year_days(y as int),
{
    if is_leap(y) {
        366
    } else {
        365
    }
}

/// Convert a day count since 1970-01-01 to `(year, month, day)`.
pub fn days_to_ymd(days: u64) -> (ymd: (u64, u64, u64))
    ensures
        (ymd.0 as int, ymd.1 as int, ymd.2 as int) == civil_from_days(days as nat),
{
    let ghost d0 = days as int;
    let mut rem = days;
    let mut year: u64 = 1970;
    let mut yd = days_in_year(year);
    while rem >= yd
        invariant
            year >= 1970,
            365 * (year - 1970) <= d0 - rem,
            rem <= d0,
            d0 <= u64::MAX,
            yd == year_days(year as int),
            year_split(d0, 1970) == year_split(rem as int, year as int),
        decreases rem,
    {
        rem = rem - yd;
        year = year + 1;
        yd = days_in_year(year);
    }
    let ghost r0 = rem as int;
    assert(year_split(d0, 1970) == (year as int, r0));
    let mut month: u64 = 1;
    let mut md = days_in_month(year, month);
    while month <= 12 && rem >= md
        invariant
            1 <= month <= 13,
            rem <= r0,
            r0 < 366,
            md == month_days(year as int, month as int),
            month_split(year as int, r0, 1) == month_split(year as int, rem as int, month as int),
        decreases 13 - month,
    {
        rem = rem - md;
        month = month + 1;
        md = days_in_month(year, month);
    }
    (year, month, rem + 1)
}

/// Whole seconds since the Unix epoch by the system clock
/// (`std::time::SystemTime::now`, then `duration_since(UNIX_EPOCH)` and
/// `Duration::as_secs`), or `None` when the clock reads before the epoch.
/// Nothing is stated of the value: it is the time.
#[verifier::external_body]
fn unix_seconds_now() -> Option<u64> {
    match std::time::SystemTime::now().duration_since(std::time::UNIX_EPOCH) {
        Ok(d) => Some(d.as_secs()),
        Err(_) => None,
    }
}

/// `YYYY-MM-DDThh:mm:ssZ` (UTC) for a Unix time in seconds.
pub fn format_iso8601(secs: u64) -> (text: String)
    ensures
        text@ == iso8601_of(secs as nat),
{
    let s = secs % 60;
    let m_tot = secs / 60;
    let m = m_tot % 60;
    let h_tot = m_tot / 60;
    let h = h_tot % 24;
    let days = h_tot / 24;
    let (year, month, day) = days_to_ymd(days);
    let mut out = String::new();
    push_decimal_padded(&mut out, year, 4);
    out.append("-");
    push_decimal_padded(&mut out, month, 2);
    out.append("-");
    push_decimal_padded(&mut out, day, 2);
    out.append("T");
    push_decimal_padded(&mut out, h, 2);
    out.append(":");
    push_decimal_padded(&mut out, m, 2);
    out.append(":");
    push_decimal_padded(&mut out, s, 2);
    out.append("Z");
    out
}

/// The timestamp for a clock reading in whole seconds since the Unix epoch;
/// a clock that reads before the epoch (`None`) is stamped with the epoch
/// itself, `1970-01-01T00:00:00Z`.
pub fn iso8601_from_clock(reading: Option<u64>) -> (text: String)
    ensures
        text@ == iso8601_of(
            match reading {
                Some(secs) => secs as nat,
                None => 0,
            },
        ),
{
    match reading {
        Some(secs) => format_iso8601(secs),
        None => format_iso8601(0),
    }
}

/// The current UTC time as `YYYY-MM-DDThh:mm:ssZ` (the epoch when the clock
/// reads before it; see [`iso8601_from_clock`]).
pub fn now_iso8601() -> (text: String)
    ensures
        exists|secs: nat| secs <= u64::MAX && text@ == #[trigger] iso8601_of(secs),
{
    let reading = unix_seconds_now();
    iso8601_from_clock(reading)
}

} // verus!
