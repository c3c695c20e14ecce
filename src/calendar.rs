//! Decoding of spreadsheet date-time serials, with chrono doing the calendar
//! arithmetic and the formatting.

use vstd::prelude::*;
use chrono::{NaiveDate, TimeDelta};
use crate::numeric::digit_char;

verus! {

/// Proleptic Gregorian leap years.
pub open spec fn is_leap_year(y: int) -> bool {
    y % 4 == 0 && (y % 100 != 0 || y % 400 == 0)
}

pub open spec fn days_in_month(y: int, m: int) -> int {
    if m == 2 {
        if is_leap_year(y) {
            29
        } else {
            28
        }
    } else if m == 4 || m == 6 || m == 9 || m == 11 {
        30
    } else {
        31
    }
}

/// The day number of a proleptic Gregorian date, counted from 1970-01-01.
pub open spec fn days_from_civil(y: int, m: int, d: int) -> int {
    let y2 = if m <= 2 {
        y - 1
    } else {
        y
    };
    let era = y2 / 400;
    let yoe = y2 - era * 400;
    let mp = if m > 2 {
        m - 3
    } else {
        m + 9
    };
    let doy = (153 * mp + 2) / 5 + d - 1;
    let doe = yoe * 365 + yoe / 4 - yoe / 100 + doy;
    era * 146097 + doe - 719468
}

/// The proleptic Gregorian date (year, month, day) of a day number counted
/// from 1970-01-01.
pub open spec fn civil_from_days(z: int) -> (int, int, int) {
    let z2 = z + 719468;
    let era = z2 / 146097;
    let doe = z2 - era * 146097;
    let yoe = (doe - doe / 1460 + doe / 36524 - doe / 146096) / 365;
    let doy = doe - (365 * yoe + yoe / 4 - yoe / 100);
    let mp = (5 * doy + 2) / 153;
    let d = doy - (153 * mp + 2) / 5 + 1;
    let m = if mp < 10 {
        mp + 3
    } else {
        mp - 9
    };
    let y = yoe + era * 400;
    (if m <= 2 {
        y + 1
    } else {
        y
    }, m, d)
}

/// A day number whose year has four digits: 0000-01-01 through 9999-12-31.
pub open spec fn in_four_digit_years(z: int) -> bool {
    days_from_civil(0, 1, 1) <= z <= days_from_civil(9999, 12, 31)
}

/// `n` (below 100) as two digits.
pub open spec fn two_digits(n: int) -> Seq<char> {
    seq![digit_char((n / 10) as nat), digit_char((n % 10) as nat)]
}

/// `n` (below 10000) as four digits.
pub open spec fn four_digits(n: int) -> Seq<char> {
    two_digits(n / 100) + two_digits(n % 100)
}

/// `YYYY-MM-DD HH:MM:SS` for a date and a time of day.
pub open spec fn datetime_text(date: (int, int, int), hour: int, minute: int, second: int) -> Seq<
    char,
> {
    four_digits(date.0) + seq!['-'] + two_digits(date.1) + seq!['-'] + two_digits(date.2) + seq![
        ' ',
    ] + two_digits(hour) + seq![':'] + two_digits(minute) + seq![':'] + two_digits(second)
}

/// The strftime pattern `%Y-%m-%d %H:%M:%S`.
pub open spec fn datetime_pattern() -> Seq<char> {
    seq!['%', 'Y', '-', '%', 'm', '-', '%', 'd', ' ', '%', 'H', ':', '%', 'M', ':', '%', 'S']
}

/// Relies on chrono: `NaiveDate::from_ymd_opt` builds the start date,
/// `TimeDelta::try_days` and `NaiveDate::checked_add_signed` move it by the
/// offset in the proleptic Gregorian calendar, `NaiveDate::and_hms_opt` sets
/// the time of day, and `NaiveDateTime::format` renders it by the pattern,
/// which writes a year of 0 to 9999 as four zero-padded digits. Each step
/// succeeds for a valid date and time inside that range of years.
#[verifier::external_body]
fn chrono_datetime_text(
    year: i32,
    month: u32,
    day: u32,
    offset_days: i64,
    hour: u32,
    minute: u32,
    second: u32,
    pattern: &str,
) -> (r: Option<String>)
    requires
        0 <= year <= 9999,
        1 <= month <= 12,
        1 <= day <= days_in_month(year as int, month as int),
        in_four_digit_years(days_from_civil(year as int, month as int, day as int) + offset_days),
        hour < 24,
        minute < 60,
        second < 60,
        pattern@ == datetime_pattern(),
    ensures
        r is Some,
        r is Some ==> r->Some_0@ == datetime_text(
            civil_from_days(days_from_civil(year as int, month as int, day as int) + offset_days),
            hour as int,
            minute as int,
            second as int,
        ),
{
    let start = NaiveDate::from_ymd_opt(year, month, day)?;
    let date = start.checked_add_signed(TimeDelta::try_days(offset_days)?)?;
    let moment = date.and_hms_opt(hour, minute, second)?;
    Some(moment.format(pattern).to_string())
}

/// The day number of the spreadsheet epoch, 1899-12-30.
pub open spec fn serial_epoch() -> int {
    days_from_civil(1899, 12, 30)
}

/// Whole days after the epoch, once seconds of a full day or more carry over.
pub open spec fn serial_day_offset(days: int, seconds: int) -> int {
    days + seconds / 86400
}

/// A serial whose date falls in the years 0000 through 9999.
pub open spec fn serial_in_range(days: int, seconds: int) -> bool {
    in_four_digit_years(serial_epoch() + serial_day_offset(days, seconds))
}

/// The epoch plus `days` days plus `seconds` seconds, as
/// `YYYY-MM-DD HH:MM:SS`.
pub open spec fn serial_datetime_text(days: int, seconds: int) -> Seq<char> {
    let sod = seconds % 86400;
    datetime_text(
        civil_from_days(serial_epoch() + serial_day_offset(days, seconds)),
        sod / 3600,
        (sod % 3600) / 60,
        sod % 60,
    )
}

/// Decodes a serial split into whole days after 1899-12-30 and seconds after
/// midnight, as text `YYYY-MM-DD HH:MM:SS`; `None` where the date falls
/// outside the years 0000 through 9999, which that text cannot hold.
pub fn decode_serial(days: i64, seconds: u32) -> (r: Option<String>)
    ensures
        r is Some <==> serial_in_range(days as int, seconds as int),
        r is Some ==> r->Some_0@ == serial_datetime_text(days as int, seconds as int),
{
    proof {
        assert(serial_epoch() == -25569);
        assert(days_from_civil(0, 1, 1) == -719528);
        assert(days_from_civil(9999, 12, 31) == 2932896);
    }
    let carry: i64 = (seconds / 86400) as i64;
    let sod: u32 = seconds % 86400;
    if days < -693959 - carry || days > 2958465 - carry {
        return None;
    }
    let offset: i64 = days + carry;
    let pattern = "%Y-%m-%d %H:%M:%S";
    proof {
        reveal_strlit("%Y-%m-%d %H:%M:%S");
        assert(pattern@ =~= datetime_pattern());
    }
    chrono_datetime_text(1899, 12, 30, offset, sod / 3600, (sod % 3600) / 60, sod % 60, pattern)
}

} // verus!
