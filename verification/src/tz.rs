use vstd::prelude::*;
use vstd::string::StringExecFns;

use chrono::{Offset, TimeZone};

use crate::astro::{jd_from_utc_date, jd_micros_of_utc, JD_UNIX_EPOCH_MICROS};
use crate::bazi::jdn_at;
use crate::types::CivilDateTime;

verus! {

/// chrono-tz's zone identifier, declared so that named zones can stand in
/// signatures and fields; the zone data behind it stays opaque here.
#[verifier::external_type_specification]
#[verifier::external_body]
pub struct ExTz(chrono_tz::Tz);

/// A time-zone reference: a fixed offset in seconds east of UTC, or a
/// named IANA zone.
pub enum TzSpec {
    Fixed(i32),
    Named(chrono_tz::Tz),
}

impl TzSpec {
    /// A fixed offset stays within one day.
    pub open spec fn wf(self) -> bool {
        match self {
            TzSpec::Fixed(o) => -86400 < o < 86400,
            TzSpec::Named(_) => true,
        }
    }
}

/// What a named zone says about one local wall clock: one offset, two
/// candidate offsets around a fall-back, or none inside a spring-forward
/// gap.  Offsets are seconds east of UTC.
pub enum LocalizedOffset {
    Single(i32),
    Ambiguous(i32, i32),
    Nonexistent,
}

/// Whether a year is a Gregorian leap year.
pub open spec fn is_leap_year_at(year: int) -> bool {
    year % 4 == 0 && (year % 100 != 0 || year % 400 == 0)
}

/// Days in a Gregorian month.
pub open spec fn days_in_month_at(year: int, month: int) -> int {
    if month == 1 || month == 3 || month == 5 || month == 7 || month == 8 || month == 10 || month
        == 12 {
        31
    } else if month == 4 || month == 6 || month == 9 || month == 11 {
        30
    } else if is_leap_year_at(year) {
        29
    } else {
        28
    }
}

/// Whether a year is a Gregorian leap year.
pub fn is_leap_year(year: i32) -> (r: bool)
    ensures
        r == is_leap_year_at(year as int),
{
    proof {
        vstd::arithmetic::div_mod::lemma_mod_division_less_than_divisor(year as int, 4);
        vstd::arithmetic::div_mod::lemma_mod_division_less_than_divisor(year as int, 100);
        vstd::arithmetic::div_mod::lemma_mod_division_less_than_divisor(year as int, 400);
    }
    let r4: i32 = year.checked_rem_euclid(4).unwrap();
    let r100: i32 = year.checked_rem_euclid(100).unwrap();
    let r400: i32 = year.checked_rem_euclid(400).unwrap();
    r4 == 0 && (r100 != 0 || r400 == 0)
}

/// Days in a Gregorian month.
pub fn days_in_month(year: i32, month: u8) -> (d: u8)
    requires
        1 <= month <= 12,
    ensures
        d == days_in_month_at(year as int, month as int),
        28 <= d <= 31,
{
    match month {
        1 | 3 | 5 | 7 | 8 | 10 | 12 => 31,
        4 | 6 | 9 | 11 => 30,
        _ => {
            if is_leap_year(year) {
                29
            } else {
                28
            }
        },
    }
}

/// Whether a civil date-time names a real Gregorian calendar day.
pub open spec fn civil_date_valid(c: CivilDateTime) -> bool {
    c.wf() && c.day <= days_in_month_at(c.year as int, c.month as int)
}

/// Stepping to the first day of the next month lands one Julian Day
/// Number past the last day of the current month.
proof fn lemma_jdn_next_month(year: int, month: int)
    requires
        -9999 <= year <= 9999,
        1 <= month <= 11,
    ensures
        jdn_at(year, month + 1, 1) == jdn_at(year, month, days_in_month_at(year, month)) + 1,
{
}

/// New Year's Day follows the last day of December.
proof fn lemma_jdn_next_year(year: int)
    requires
        -9999 <= year <= 9999,
    ensures
        jdn_at(year + 1, 1, 1) == jdn_at(year, 12, 31) + 1,
{
}

/// The calendar day after a valid date.
fn next_day(year: i32, month: u8, day: u8) -> (r: (i32, u8, u8))
    requires
        -9000 <= year <= 9000,
        1 <= month <= 12,
        1 <= day <= days_in_month_at(year as int, month as int),
    ensures
        -9000 <= r.0 <= 9001,
        1 <= r.1 <= 12,
        1 <= r.2 <= days_in_month_at(r.0 as int, r.1 as int),
        jdn_at(r.0 as int, r.1 as int, r.2 as int) == jdn_at(
            year as int,
            month as int,
            day as int,
        ) + 1,
{
    let dim: u8 = days_in_month(year, month);
    if day < dim {
        (year, month, day + 1)
    } else if month < 12 {
        proof {
            lemma_jdn_next_month(year as int, month as int);
        }
        (year, month + 1, 1)
    } else {
        proof {
            lemma_jdn_next_year(year as int);
        }
        (year + 1, 1, 1)
    }
}

/// The calendar day before a valid date.
fn prev_day(year: i32, month: u8, day: u8) -> (r: (i32, u8, u8))
    requires
        -9000 <= year <= 9000,
        1 <= month <= 12,
        1 <= day <= days_in_month_at(year as int, month as int),
    ensures
        -9001 <= r.0 <= 9000,
        1 <= r.1 <= 12,
        1 <= r.2 <= days_in_month_at(r.0 as int, r.1 as int),
        jdn_at(r.0 as int, r.1 as int, r.2 as int) == jdn_at(
            year as int,
            month as int,
            day as int,
        ) - 1,
{
    if day > 1 {
        (year, month, day - 1)
    } else if month > 1 {
        proof {
            lemma_jdn_next_month(year as int, month as int - 1);
        }
        let dim: u8 = days_in_month(year, month - 1);
        (year, month - 1, dim)
    } else {
        proof {
            lemma_jdn_next_year(year as int - 1);
        }
        (year - 1, 12, 31)
    }
}

/// Shift a civil wall clock by a bounded number of seconds, carrying or
/// borrowing at most one calendar day: the result reads, as UTC, exactly
/// the shifted instant.  This applies the local-mean-time correction to
/// the clock.
#[verifier::rlimit(100)]
#[verifier::spinoff_prover]
pub fn add_seconds_to_civil(c: CivilDateTime, delta_seconds: i64) -> (r: CivilDateTime)
    requires
        civil_date_valid(c),
        -8999 <= c.year <= 8999,
        -172_800 <= delta_seconds <= 172_800,
    ensures
        civil_date_valid(r),
        c.year - 1 <= r.year <= c.year + 1,
        civil_unix_micros_at(r) == civil_unix_micros_at(c) + delta_seconds * 1_000_000,
{
    let tod: i64 = c.hour as i64 * 3600 + c.minute as i64 * 60 + c.second as i64 + delta_seconds;
    let (y1, m1, d1, t1): (i32, u8, u8, i64) = if tod < -86400 {
        let (ny, nm, nd) = prev_day(c.year, c.month, c.day);
        (ny, nm, nd, tod + 86400)
    } else if tod >= 172_800 {
        let (ny, nm, nd) = next_day(c.year, c.month, c.day);
        (ny, nm, nd, tod - 86400)
    } else {
        (c.year, c.month, c.day, tod)
    };
    let (y, m, d, t2): (i32, u8, u8, i64) = if t1 < 0 {
        let (ny, nm, nd) = prev_day(y1, m1, d1);
        (ny, nm, nd, t1 + 86400)
    } else if t1 >= 86400 {
        let (ny, nm, nd) = next_day(y1, m1, d1);
        (ny, nm, nd, t1 - 86400)
    } else {
        (y1, m1, d1, t1)
    };
    CivilDateTime {
        year: y,
        month: m,
        day: d,
        hour: (t2 / 3600) as u8,
        minute: (t2 % 3600 / 60) as u8,
        second: (t2 % 60) as u8,
    }
}

/// Relies on chrono-tz's `Tz::offset_from_local_datetime` (through
/// chrono's `NaiveDate::from_ymd_opt`, `NaiveTime::from_hms_opt` and
/// `Offset::fix`): the zone's candidate UTC offsets for one local wall
/// clock.  chrono's `FixedOffset` keeps its seconds strictly within one
/// day, so every returned offset does too.  An ambiguous wall clock comes
/// back with its candidates in timespan order — the offset in effect
/// before the transition first — and a wall clock is doubly covered only
/// when the offset drops across the transition, so the first candidate is
/// the strictly larger offset (the one that yields the earlier instant).
#[verifier::external_body]
fn tz_offset_from_local(
    tz: &chrono_tz::Tz,
    year: i32,
    month: u8,
    day: u8,
    hour: u8,
    minute: u8,
    second: u8,
) -> (r: LocalizedOffset)
    requires
        -9999 <= year <= 9999,
        1 <= month <= 12,
        1 <= day <= days_in_month_at(year as int, month as int),
        hour < 24,
        minute < 60,
        second < 60,
    ensures
        match r {
            LocalizedOffset::Single(o) => -86400 < o < 86400,
            LocalizedOffset::Ambiguous(a, b) => -86400 < a < 86400 && -86400 < b < 86400 && a
                > b,
            LocalizedOffset::Nonexistent => true,
        },
{
    let date = chrono::NaiveDate::from_ymd_opt(year, month as u32, day as u32).unwrap();
    let time = chrono::NaiveTime::from_hms_opt(hour as u32, minute as u32, second as u32).unwrap();
    let naive = chrono::NaiveDateTime::new(date, time);
    match tz.offset_from_local_datetime(&naive) {
        chrono::LocalResult::Single(o) => LocalizedOffset::Single(o.fix().local_minus_utc()),
        chrono::LocalResult::Ambiguous(a, b) => LocalizedOffset::Ambiguous(
            a.fix().local_minus_utc(),
            b.fix().local_minus_utc(),
        ),
        chrono::LocalResult::None => LocalizedOffset::Nonexistent,
    }
}

/// The UTC instant, in microseconds since the Unix epoch, of a civil
/// date-time read as UTC.
pub open spec fn civil_unix_micros_at(c: CivilDateTime) -> int {
    jd_micros_of_utc(
        c.year as int,
        c.month as int,
        c.day as int,
        c.hour as int,
        c.minute as int,
        c.second as int,
    ) - JD_UNIX_EPOCH_MICROS
}

/// The UTC instant of a civil date-time read as UTC.
pub fn unix_micros_from_civil(c: CivilDateTime) -> (r: i64)
    requires
        c.wf(),
        -4712 <= c.year,
    ensures
        r == civil_unix_micros_at(c),
{
    let jd = jd_from_utc_date(
        c.year,
        c.month as u32,
        c.day as u32,
        c.hour as u32,
        c.minute as u32,
        c.second as u32,
    );
    jd - JD_UNIX_EPOCH_MICROS
}

/// The offset localization uses out of a zone's answer for one wall
/// clock: the single offset where the clock is covered once; on an
/// ambiguous (fall-back) clock the earlier timespan's offset, which is
/// the larger of the two candidates and yields the earlier instant; a
/// nonexistent (spring-gap) clock fails.
pub fn resolve_local_offset(lo: &LocalizedOffset) -> (r: Result<i32, String>)
    ensures
        lo is Single ==> r is Ok && r->Ok_0 == lo->Single_0,
        lo is Ambiguous ==> r is Ok && r->Ok_0 == lo->Ambiguous_0,
        lo is Ambiguous && lo->Ambiguous_0 > lo->Ambiguous_1 ==> r->Ok_0 > lo->Ambiguous_1,
        lo is Nonexistent <==> r is Err,
        r is Err ==> r->Err_0@ == "local time does not exist in this timezone"@,
{
    match lo {
        LocalizedOffset::Single(o) => Ok(*o),
        LocalizedOffset::Ambiguous(a, _b) => Ok(*a),
        LocalizedOffset::Nonexistent => Err(
            String::from_str("local time does not exist in this timezone"),
        ),
    }
}

/// Localize a civil wall clock in a zone: the offset in effect and the
/// UTC instant of the wall clock under that offset.
///
/// A fixed offset always applies.  A named zone may find the wall clock
/// ambiguous (the earlier offset is chosen, through
/// `resolve_local_offset`) or nonexistent (the spring gap), which fails.
pub fn localize(tz: &TzSpec, local: CivilDateTime) -> (r: Result<(i32, i64), String>)
    requires
        tz.wf(),
        civil_date_valid(local),
        -4712 <= local.year <= 9999,
    ensures
        r is Ok ==> {
            &&& -86400 < r->Ok_0.0 < 86400
            &&& r->Ok_0.1 == civil_unix_micros_at(local) - r->Ok_0.0 * 1_000_000
        },
        tz is Fixed ==> r is Ok && r->Ok_0.0 == tz->Fixed_0,
        r is Err ==> tz is Named && r->Err_0@ == "local time does not exist in this timezone"@,
{
    let offset: i32 = match tz {
        TzSpec::Fixed(o) => *o,
        TzSpec::Named(z) => {
            let lo = tz_offset_from_local(
                z,
                local.year,
                local.month,
                local.day,
                local.hour,
                local.minute,
                local.second,
            );
            match resolve_local_offset(&lo) {
                Result::Ok(o) => o,
                Result::Err(e) => {
                    return Err(e);
                },
            }
        },
    };
    let naive_micros: i64 = unix_micros_from_civil(local);
    let instant: i64 = naive_micros - (offset as i64) * 1_000_000;
    Ok((offset, instant))
}

} // verus!
