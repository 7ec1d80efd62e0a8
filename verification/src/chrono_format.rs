//! Calendar dates of Unix timestamps, without an outside date library.
use vstd::prelude::*;

verus! {

/// Broken-down UTC time of a Unix timestamp.
pub struct DateTime {
    pub year: i64,
    pub month_abbr: &'static str,
    pub month: u32,
    pub day: u32,
    pub hour: u32,
    pub minute: u32,
    pub second: u32,
}

/// Gregorian leap years.
pub open spec fn is_leap(y: int) -> bool {
    y % 4 == 0 && (y % 100 != 0 || y % 400 == 0)
}

/// The number of days of month `m` (1 to 12) of year `y`.
pub open spec fn month_len(y: int, m: int) -> int {
    if m == 2 {
        if is_leap(y) {
            29
        } else {
            28
        }
    } else if m == 4 || m == 6 || m == 9 || m == 11 {
        30
    } else {
        31
    }
}

/// A real calendar date: a month from 1 to 12 and a day within that month.
pub open spec fn valid_date(y: int, m: int, d: int) -> bool {
    1 <= m <= 12 && 1 <= d <= month_len(y, m)
}

/// The number of days from 0000-03-01 (proleptic Gregorian) to the date
/// `y`-`m`-`d`: whole 400-year eras of 146097 days, then the years of the era
/// (365 days each, plus a leap day every fourth year but the hundredth), then
/// the months since March, then the days.
pub open spec fn days_from_civil(y: int, m: int, d: int) -> int {
    let y2 = if m <= 2 {
        y - 1
    } else {
        y
    };
    let era = y2 / 400;
    let yoe = y2 - era * 400;
    let mp = if m > 2 {
        m - 3
    } else {
        m + 9
    };
    let doy = (153 * mp + 2) / 5 + d - 1;
    era * 146097 + yoe * 365 + yoe / 4 - yoe / 100 + doy
}

/// Division of integers rounding toward zero, as Rust's `/` does.
pub open spec fn trunc_div(a: int, b: int) -> int {
    if a >= 0 {
        a / b
    } else {
        -((-a) / b)
    }
}

/// The English abbreviation of month `m` (0 for January to 11 for December).
pub open spec fn month_abbr_of(m: int) -> Seq<char> {
    if m == 0 {
        "Jan"@
    } else if m == 1 {
        "Feb"@
    } else if m == 2 {
        "Mar"@
    } else if m == 3 {
        "Apr"@
    } else if m == 4 {
        "May"@
    } else if m == 5 {
        "Jun"@
    } else if m == 6 {
        "Jul"@
    } else if m == 7 {
        "Aug"@
    } else if m == 8 {
        "Sep"@
    } else if m == 9 {
        "Oct"@
    } else if m == 10 {
        "Nov"@
    } else {
        "Dec"@
    }
}

/// Within one 400-year era: the year of the era that day `doe` falls in
/// (years starting on March 1) stays below 400, and the day of that year
/// below 366.
proof fn lemma_year_of_era(doe: u32)
    by (bit_vector)
    requires
        doe < 146097,
    ensures
        (doe - doe / 1460 + doe / 36524 - doe / 146096) / 365 <= 399,
        365 * ((doe - doe / 1460 + doe / 36524 - doe / 146096) / 365) + ((doe - doe / 1460
            + doe / 36524 - doe / 146096) / 365) / 4 - ((doe - doe / 1460 + doe / 36524 - doe
            / 146096) / 365) / 100 <= doe,
        doe - (365 * ((doe - doe / 1460 + doe / 36524 - doe / 146096) / 365) + ((doe - doe
            / 1460 + doe / 36524 - doe / 146096) / 365) / 4 - ((doe - doe / 1460 + doe / 36524
            - doe / 146096) / 365) / 100) <= 365,
{
}

/// The month and day that day `doy` of an era year (counting from 0, from
/// March 1) falls on: month `(5 * doy + 2) / 153` counted from March, and a
/// real day of that month. Day 365 is February 29 of the next calendar year,
/// which the caller shows to be a leap year.
proof fn lemma_day_in_month(doy: int, leap_next: bool)
    requires
        0 <= doy <= 365,
        doy == 365 ==> leap_next,
    ensures
        0 <= (5 * doy + 2) / 153 <= 11,
        (153 * ((5 * doy + 2) / 153) + 2) / 5 <= doy,
        doy - (153 * ((5 * doy + 2) / 153) + 2) / 5 + 1 <= 31,
        (5 * doy + 2) / 153 == 11 ==> doy - (153 * ((5 * doy + 2) / 153) + 2) / 5 + 1 <= 28 || (
        leap_next && doy - (153 * ((5 * doy + 2) / 153) + 2) / 5 + 1 == 29),
        ((5 * doy + 2) / 153 == 1 || (5 * doy + 2) / 153 == 3 || (5 * doy + 2) / 153 == 6 || (5
            * doy + 2) / 153 == 8) ==> doy - (153 * ((5 * doy + 2) / 153) + 2) / 5 + 1 <= 30,
{
}

/// Day 365 of an era year (February 29) only occurs when the following year
/// is a leap year: the era year leaves 3 modulo 4, and it is not one before a
/// century other than the last of the era.
proof fn lemma_leap_day(doe: u32)
    by (bit_vector)
    requires
        doe < 146097,
    ensures
        doe - (365 * ((doe - doe / 1460 + doe / 36524 - doe / 146096) / 365) + ((doe - doe / 1460
            + doe / 36524 - doe / 146096) / 365) / 4 - ((doe - doe / 1460 + doe / 36524 - doe
            / 146096) / 365) / 100) >= 365 ==> ((doe - doe / 1460 + doe / 36524 - doe / 146096)
            / 365) % 4 >= 3,
        doe - (365 * ((doe - doe / 1460 + doe / 36524 - doe / 146096) / 365) + ((doe - doe / 1460
            + doe / 36524 - doe / 146096) / 365) / 4 - ((doe - doe / 1460 + doe / 36524 - doe
            / 146096) / 365) / 100) >= 365 ==> (((doe - doe / 1460 + doe / 36524 - doe / 146096)
            / 365) % 100 < 99 || (doe - doe / 1460 + doe / 36524 - doe / 146096) / 365 >= 399),
{
}
/// The civil date of day number `z` (days from 0000-03-01): the era of 400
/// years, the day within the era, the year within the era, the day within that
/// year (years starting on March 1), then the month and day, and the year moved
/// on by one for January and February. Month from 1 to 12.
pub open spec fn civil_from_days(z: int) -> (int, int, int) {
    let era = z / 146097;
    let doe = z % 146097;
    let yoe = (doe - doe / 1460 + doe / 36524 - doe / 146096) / 365;
    let doy = doe - (365 * yoe + yoe / 4 - yoe / 100);
    let mp = (5 * doy + 2) / 153;
    let d = doy - (153 * mp + 2) / 5 + 1;
    let m = if mp < 10 {
        mp + 3
    } else {
        mp - 9
    };
    let y = yoe + era * 400;
    (if m <= 2 {
        y + 1
    } else {
        y
    }, m, d)
}

/// The facts about one era that both directions of the calendar rest on.
proof fn lemma_era_facts(z: int)
    ensures
        ({
            let doe = z % 146097;
            let yoe = (doe - doe / 1460 + doe / 36524 - doe / 146096) / 365;
            let doy = doe - (365 * yoe + yoe / 4 - yoe / 100);
            &&& 0 <= doe < 146097
            &&& 0 <= yoe <= 399
            &&& 0 <= doy <= 365
            &&& doy == 365 ==> yoe % 4 == 3 && (yoe % 100 != 99 || yoe == 399)
        }),
{
    let doe = z % 146097;
    let d32 = doe as u32;
    lemma_year_of_era(d32);
    lemma_leap_day(d32);
}

/// The civil date of a day number is a real date, and counting the days to
/// that date gives the day number back.
pub proof fn lemma_civil_from_days(z: int)
    ensures
        valid_date(civil_from_days(z).0, civil_from_days(z).1, civil_from_days(z).2),
        days_from_civil(civil_from_days(z).0, civil_from_days(z).1, civil_from_days(z).2) == z,
{
    let era = z / 146097;
    let doe = z % 146097;
    let yoe = (doe - doe / 1460 + doe / 36524 - doe / 146096) / 365;
    let doy = doe - (365 * yoe + yoe / 4 - yoe / 100);
    lemma_era_facts(z);
    let mp = (5 * doy + 2) / 153;
    let next = yoe + era * 400 + 1;
    assert(doy == 365 ==> is_leap(next)) by {
        if doy == 365 {
            assert(next % 4 == 0);
            assert(next % 100 != 0 || next % 400 == 0);
        }
    }
    lemma_day_in_month(doy, is_leap(next));
    let (y, m, d) = civil_from_days(z);
    assert(valid_date(y, m, d));
    let y2 = if m <= 2 {
        y - 1
    } else {
        y
    };
    assert(y2 == yoe + era * 400);
    assert(y2 / 400 == era);
    assert(y2 - era * 400 == yoe);
    assert(z == era * 146097 + doe);
}

/// The abbreviation of month `m` (0 for January).
fn month_abbr(m: i32) -> (r: &'static str)
    requires
        0 <= m <= 11,
    ensures
        r@ == month_abbr_of(m as int),
{
    if m == 0 {
        "Jan"
    } else if m == 1 {
        "Feb"
    } else if m == 2 {
        "Mar"
    } else if m == 3 {
        "Apr"
    } else if m == 4 {
        "May"
    } else if m == 5 {
        "Jun"
    } else if m == 6 {
        "Jul"
    } else if m == 7 {
        "Aug"
    } else if m == 8 {
        "Sep"
    } else if m == 9 {
        "Oct"
    } else if m == 10 {
        "Nov"
    } else {
        "Dec"
    }
}

/// The civil date of day number `z` (counted from 0000-03-01): the year, the
/// month counted from 0 for January, and the day of the month.
fn civil_of_day(z: i64) -> (r: (i64, i64, i64))
    requires
        z > i64::MIN + 146097,
    ensures
        (r.0 as int, r.1 + 1, r.2 as int) == civil_from_days(z as int),
        0 <= r.1 <= 11,
        1 <= r.2 <= 31,
        (z as int / 146097) * 400 <= r.0 <= (z as int / 146097) * 400 + 400,
{
    let era: i64 = if z >= 0 {
        z / 146097
    } else {
        -((146096 - z) / 146097)
    };
    assert(era == z / 146097);
    let doe: i64 = z - era * 146097;
    assert(doe == (z as int) % 146097);
    proof {
        lemma_era_facts(z as int);
    }
    let yoe: i64 = (doe - doe / 1460 + doe / 36524 - doe / 146096) / 365;
    let y: i64 = yoe + era * 400;
    let doy: i64 = doe - (365 * yoe + yoe / 4 - yoe / 100);
    proof {
        lemma_day_in_month(doy as int, true);
    }
    let mp: i64 = (5 * doy + 2) / 153;
    let d: i64 = doy - (153 * mp + 2) / 5 + 1;
    let m: i64 = if mp < 10 {
        mp + 3
    } else {
        mp - 9
    };
    let y: i64 = if m <= 2 {
        y + 1
    } else {
        y
    };
    (y, m - 1, d)
}

/// Civil days to y/m/d (Howard Hinnant's algorithm): the year, the month
/// counted from 0 for January, and the day of the month, of day number `days`
/// counted from 0000-03-01.
pub fn days_to_ymd(days: i32) -> (r: (i32, i32, i32))
    requires
        days >= i32::MIN + 146096,
    ensures
        (r.0 as int, r.1 + 1, r.2 as int) == civil_from_days(days as int),
        0 <= r.1 <= 11,
        1 <= r.2 <= 31,
{
    let (y, m, d) = civil_of_day(days as i64);
    assert(-14700 <= (days as int) / 146097 <= 14700);
    (y as i32, m as i32, d as i32)
}

/// The UTC date and time of `secs` seconds after the epoch. The day count
/// divides with Rust's `/`, which rounds toward zero, while the time of day is
/// taken modulo a day; before the epoch, times that are not whole days fall on
/// the day after the one a calendar would give.
pub fn from_timestamp(secs: i64) -> (dt: DateTime)
    ensures
        ({
            let (y, m, d) = civil_from_days(trunc_div(secs as int, 86400) + 719468);
            let tod = (secs as int) % 86400;
            &&& dt.year == y
            &&& 1 <= m <= 12
            &&& dt.month_abbr@ == month_abbr_of(m - 1)
            &&& dt.month == m
            &&& dt.day == d
            &&& dt.hour == tod / 3600
            &&& dt.minute == (tod % 3600) / 60
            &&& dt.second == tod % 60
        }),
{
    let days: i64 = if secs >= 0 {
        secs / 86400
    } else if secs > -86400 {
        0
    } else {
        -((-(secs + 86400)) / 86400 + 1)
    };
    assert(days == trunc_div(secs as int, 86400));
    let rem: i64 = secs - days * 86400;
    let time_of_day: u32 = ((rem + 86400) % 86400) as u32;
    assert(time_of_day == (secs as int) % 86400);
    let hour = time_of_day / 3600;
    let minute = (time_of_day % 3600) / 60;
    let second = time_of_day % 60;
    let (year, month, day) = civil_of_day(days + 719468);
    DateTime { year, month_abbr: month_abbr(month as i32), month: (month + 1) as u32, day: day as u32, hour, minute, second }
}

} // verus!
