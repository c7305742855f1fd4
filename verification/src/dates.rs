//! Calendar dates for date-range filters: parsing `YYYY-MM-DD` values and
//! turning them into inclusive epoch-second bounds in a given timezone.
//!
//! A `from` date means the first second of that day, a `to` date the last
//! second (23:59:59); both are interpreted in the requesting user's timezone
//! and converted to storage time by subtracting the zone's offset.

use vstd::prelude::*;

verus! {

/// Seconds in one day.
pub const SECS_PER_DAY: i64 = 86400;

/// Largest timezone offset accepted, in seconds (18 hours).
pub const MAX_TZ_OFFSET: i64 = 64800;

/// A calendar date in the proleptic Gregorian calendar.
#[derive(Debug, Clone, Copy, PartialEq, Eq)]
pub struct Date {
    /// Year, `1..=9999`.
    pub year: i64,
    /// Month, `1..=12`.
    pub month: i64,
    /// Day of month, `1..=days_in_month`.
    pub day: i64,
}

/// Gregorian leap year rule.
pub open spec fn spec_is_leap(y: int) -> bool {
    (y % 4 == 0 && y % 100 != 0) || y % 400 == 0
}

/// Days in a month of a given year.
pub open spec fn spec_days_in_month(y: int, m: int) -> int {
    if m == 2 {
        if spec_is_leap(y) {
            29
        } else {
            28
        }
    } else if m == 4 || m == 6 || m == 9 || m == 11 {
        30
    } else {
        31
    }
}

impl Date {
    /// A real calendar date within the supported year range.
    pub open spec fn valid(self) -> bool {
        &&& 1 <= self.year <= 9999
        &&& 1 <= self.month <= 12
        &&& 1 <= self.day <= spec_days_in_month(self.year as int, self.month as int)
    }
}

/// Days since 1970-01-01 of a civil date (the days-from-civil algorithm,
/// restricted to nonnegative shifted years so division is exact flooring).
pub open spec fn spec_epoch_days(y: int, m: int, d: int) -> int {
    let yy = if m <= 2 {
        y - 1
    } else {
        y
    };
    let era = yy / 400;
    let yoe = yy % 400;
    let mp = if m > 2 {
        m - 3
    } else {
        m + 9
    };
    let doy = (153 * mp + 2) / 5 + d - 1;
    let doe = yoe * 365 + yoe / 4 - yoe / 100 + doy;
    era * 146097 + doe - 719468
}

/// Executable days-since-epoch matching [`spec_epoch_days`].
pub fn epoch_days(date: &Date) -> (r: i64)
    requires
        date.valid(),
    ensures
        r == spec_epoch_days(date.year as int, date.month as int, date.day as int),
        -719468 <= r < 2940000,
{
    let yy: i64 = if date.month <= 2 {
        date.year - 1
    } else {
        date.year
    };
    let era: i64 = yy / 400;
    let yoe: i64 = yy % 400;
    let mp: i64 = if date.month > 2 {
        date.month - 3
    } else {
        date.month + 9
    };
    proof {
        assert(0 <= yy / 400 <= 24 && 0 <= yy % 400 <= 399) by (nonlinear_arith)
            requires
                0 <= yy <= 9999,
        ;
    }
    let doy: i64 = (153 * mp + 2) / 5 + date.day - 1;
    let doe: i64 = yoe * 365 + yoe / 4 - yoe / 100 + doy;
    proof {
        assert(0 <= (153 * (mp as int) + 2) / 5 <= 340) by (nonlinear_arith)
            requires
                0 <= mp <= 11,
        ;
        assert(0 <= (yoe as int) * 365 <= 145635 && 0 <= (yoe as int) / 4 <= 99 && 0 <= (
        yoe as int) / 100 <= 3) by (nonlinear_arith)
            requires
                0 <= yoe <= 399,
        ;
        assert(0 <= (era as int) * 146097 <= 3506328) by (nonlinear_arith)
            requires
                0 <= era <= 24,
        ;
    }
    era * 146097 + doe - 719468
}

/// Value of an ASCII digit, or `None`.
pub open spec fn spec_digit(c: char) -> Option<int> {
    if 48 <= c as u32 <= 57 {
        Some(c as u32 - 48)
    } else {
        None
    }
}

/// Executable digit value matching [`spec_digit`].
pub fn digit_value(c: char) -> (r: Option<u32>)
    ensures
        match r {
            Some(v) => spec_digit(c) == Some(v as int),
            None => spec_digit(c) is None,
        },
{
    let n: u32 = c as u32;
    if 48 <= n && n <= 57 {
        Some(n - 48)
    } else {
        None
    }
}

/// The date a `YYYY-MM-DD` value names, if it is well-formed and valid.
pub open spec fn spec_parse_date(s: Seq<char>) -> Option<Date> {
    if s.len() == 10 && (forall|i: int|
        0 <= i < 10 && i != 4 && i != 7 ==> #[trigger] spec_digit(s[i]) is Some) && s[4] == '-'
        && s[7] == '-' {
        let y = spec_digit(s[0]).unwrap() * 1000 + spec_digit(s[1]).unwrap() * 100 + spec_digit(
            s[2],
        ).unwrap() * 10 + spec_digit(s[3]).unwrap();
        let m = spec_digit(s[5]).unwrap() * 10 + spec_digit(s[6]).unwrap();
        let d = spec_digit(s[8]).unwrap() * 10 + spec_digit(s[9]).unwrap();
        let date = Date { year: y as i64, month: m as i64, day: d as i64 };
        if date.valid() {
            Some(date)
        } else {
            None
        }
    } else {
        None
    }
}

/// Parses a `YYYY-MM-DD` date; whitespace is not tolerated and the parts
/// must name a real calendar day.
pub fn parse_date(s: &str) -> (r: Option<Date>)
    ensures
        r == spec_parse_date(s@),
        r matches Some(d) ==> d.valid(),
{
    let len = s.unicode_len();
    if len != 10 {
        return None;
    }
    if !(s.get_char(4) == '-' && s.get_char(7) == '-') {
        return None;
    }
    let digits: [Option<u32>; 8] = [
        digit_value(s.get_char(0)),
        digit_value(s.get_char(1)),
        digit_value(s.get_char(2)),
        digit_value(s.get_char(3)),
        digit_value(s.get_char(5)),
        digit_value(s.get_char(6)),
        digit_value(s.get_char(8)),
        digit_value(s.get_char(9)),
    ];
    let mut vals: [u32; 8] = [0;8];
    let mut i: usize = 0;
    let positions: [usize; 8] = [0, 1, 2, 3, 5, 6, 8, 9];
    while i < 8
        invariant
            0 <= i <= 8,
            s@.len() == 10,
            positions@ =~= seq![0usize, 1usize, 2usize, 3usize, 5usize, 6usize, 8usize, 9usize],
            forall|j: int|
                0 <= j < 8 ==> match #[trigger] digits@[j] {
                    Some(v) => spec_digit(s@[positions@[j] as int]) == Some(v as int),
                    None => spec_digit(s@[positions@[j] as int]) is None,
                },
            forall|j: int|
                0 <= j < i ==> spec_digit(s@[positions@[j] as int]) == Some(
                    #[trigger] vals@[j] as int,
                ),
        decreases 8 - i,
    {
        match digits[i] {
            Some(v) => {
                vals[i] = v;
            },
            None => {
                return None;
            },
        }
        i = i + 1;
    }
    let y: i64 = (vals[0] * 1000 + vals[1] * 100 + vals[2] * 10 + vals[3]) as i64;
    let m: i64 = (vals[4] * 10 + vals[5]) as i64;
    let d: i64 = (vals[6] * 10 + vals[7]) as i64;
    let date = Date { year: y, month: m, day: d };
    let valid = 1 <= y && m >= 1 && m <= 12 && d >= 1 && d <= days_in_month(y, m);
    if valid {
        Some(date)
    } else {
        None
    }
}

/// Executable days-in-month matching [`spec_days_in_month`].
pub fn days_in_month(y: i64, m: i64) -> (r: i64)
    requires
        1 <= m <= 12,
        1 <= y <= 9999,
    ensures
        r == spec_days_in_month(y as int, m as int),
{
    if m == 2 {
        if (y % 4 == 0 && y % 100 != 0) || y % 400 == 0 {
            29
        } else {
            28
        }
    } else if m == 4 || m == 6 || m == 9 || m == 11 {
        30
    } else {
        31
    }
}

/// First second of `date` in a zone `offset_secs` east of storage time,
/// expressed in storage time.
pub open spec fn spec_day_start(date: Date, offset_secs: int) -> int {
    spec_epoch_days(date.year as int, date.month as int, date.day as int) * (SECS_PER_DAY as int)
        - offset_secs
}

/// Last second (23:59:59) of `date` under the same convention.
pub open spec fn spec_day_end(date: Date, offset_secs: int) -> int {
    spec_day_start(date, offset_secs) + (SECS_PER_DAY as int) - 1
}

/// Executable bound matching [`spec_day_start`].
pub fn day_start(date: &Date, offset_secs: i64) -> (r: i64)
    requires
        date.valid(),
        -MAX_TZ_OFFSET <= offset_secs <= MAX_TZ_OFFSET,
    ensures
        r == spec_day_start(*date, offset_secs as int),
{
    let days = epoch_days(date);
    days * SECS_PER_DAY - offset_secs
}

/// Executable bound matching [`spec_day_end`].
pub fn day_end(date: &Date, offset_secs: i64) -> (r: i64)
    requires
        date.valid(),
        -MAX_TZ_OFFSET <= offset_secs <= MAX_TZ_OFFSET,
    ensures
        r == spec_day_end(*date, offset_secs as int),
{
    let start = day_start(date, offset_secs);
    start + SECS_PER_DAY - 1
}

} // verus!
