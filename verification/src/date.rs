use vstd::prelude::*;

verus! {

/// A calendar date in the proleptic Gregorian calendar, held as the number
/// of whole days since 0001-01-01 (which is day 0). Years 1 through 9999
/// are supported, so the day number always fits comfortably in a `u32`.
#[derive(Clone, Copy, PartialEq, Eq, Structural, Debug)]
pub struct Date {
    days: u32,
}

impl View for Date {
    type V = int;

    closed spec fn view(&self) -> int {
        self.days as int
    }
}

/// A date's view is its day number, so it is never negative.
pub broadcast proof fn lemma_date_view_nonneg(d: Date)
    ensures
        0 <= #[trigger] d@ <= u32::MAX as int,
{
}

/// Returned when a date string does not have the form `YYYY-MM-DD` or names
/// a day that does not exist in the calendar.
#[derive(Clone, Copy, PartialEq, Eq, Structural, Debug)]
pub struct MalformedDateError;

pub open spec fn is_leap_year(y: int) -> bool {
    y % 4 == 0 && (y % 100 != 0 || y % 400 == 0)
}

pub open spec fn spec_days_in_month(y: int, m: int) -> int {
    if m == 2 {
        if is_leap_year(y) {
            29
        } else {
            28
        }
    } else if m == 4 || m == 6 || m == 9 || m == 11 {
        30
    } else {
        31
    }
}

/// The year/month/day triples this library accepts as calendar dates.
pub open spec fn valid_ymd(y: int, m: int, d: int) -> bool {
    &&& 1 <= y <= 9999
    &&& 1 <= m <= 12
    &&& 1 <= d <= spec_days_in_month(y, m)
}

/// Days of year `y` that lie strictly before the first day of month `m`.
pub open spec fn days_before_month(y: int, m: int) -> int {
    let common: int = if m == 1 {
        0
    } else if m == 2 {
        31
    } else if m == 3 {
        59
    } else if m == 4 {
        90
    } else if m == 5 {
        120
    } else if m == 6 {
        151
    } else if m == 7 {
        181
    } else if m == 8 {
        212
    } else if m == 9 {
        243
    } else if m == 10 {
        273
    } else if m == 11 {
        304
    } else {
        334
    };
    common + if m > 2 && is_leap_year(y) {
        1int
    } else {
        0int
    }
}

/// The day number (days since 0001-01-01) of the date `y`-`m`-`d`.
pub open spec fn day_number_of(y: int, m: int, d: int) -> int {
    365 * (y - 1) + (y - 1) / 4 - (y - 1) / 100 + (y - 1) / 400 + days_before_month(y, m) + (d - 1)
}

impl Date {
    /// Builds the date `y`-`m`-`d`, or `None` when the triple is not a
    /// calendar date in the supported range (years 1 through 9999).
    pub fn from_ymd(y: u32, m: u32, d: u32) -> (r: Option<Date>)
        ensures
            r is Some <==> valid_ymd(y as int, m as int, d as int),
            r matches Some(dt) ==> dt@ == day_number_of(y as int, m as int, d as int),
    {
        if y < 1 || y > 9999 || m < 1 || m > 12 || d < 1 {
            return None;
        }
        let leap: bool = y % 4 == 0 && (y % 100 != 0 || y % 400 == 0);
        let month_len: u32 = if m == 2 {
            if leap {
                29
            } else {
                28
            }
        } else if m == 4 || m == 6 || m == 9 || m == 11 {
            30
        } else {
            31
        };
        if d > month_len {
            return None;
        }
        let before: u32 = if m == 1 {
            0
        } else if m == 2 {
            31
        } else if m == 3 {
            59
        } else if m == 4 {
            90
        } else if m == 5 {
            120
        } else if m == 6 {
            151
        } else if m == 7 {
            181
        } else if m == 8 {
            212
        } else if m == 9 {
            243
        } else if m == 10 {
            273
        } else if m == 11 {
            304
        } else {
            334
        };
        let leap_adjust: u32 = if m > 2 && leap {
            1
        } else {
            0
        };
        let days: u32 = 365 * (y - 1) + (y - 1) / 4 - (y - 1) / 100 + (y - 1) / 400 + before
            + leap_adjust + (d - 1);
        Some(Date { days })
    }

    /// Builds a date directly from its day number.
    pub fn from_day_number(days: u32) -> (r: Date)
        ensures
            r@ == days as int,
    {
        Date { days }
    }

    /// The number of whole days between this date and 0001-01-01.
    pub fn day_number(&self) -> (r: u32)
        ensures
            r as int == self@,
    {
        self.days
    }
}

pub open spec fn is_digit_char(c: char) -> bool {
    ||| c == '0'
    ||| c == '1'
    ||| c == '2'
    ||| c == '3'
    ||| c == '4'
    ||| c == '5'
    ||| c == '6'
    ||| c == '7'
    ||| c == '8'
    ||| c == '9'
}

pub open spec fn digit_val(c: char) -> int {
    if c == '0' {
        0
    } else if c == '1' {
        1
    } else if c == '2' {
        2
    } else if c == '3' {
        3
    } else if c == '4' {
        4
    } else if c == '5' {
        5
    } else if c == '6' {
        6
    } else if c == '7' {
        7
    } else if c == '8' {
        8
    } else {
        9
    }
}

pub open spec fn year_of(s: Seq<char>) -> int
    recommends
        s.len() == 10,
{
    digit_val(s[0]) * 1000 + digit_val(s[1]) * 100 + digit_val(s[2]) * 10 + digit_val(s[3])
}

pub open spec fn month_of(s: Seq<char>) -> int
    recommends
        s.len() == 10,
{
    digit_val(s[5]) * 10 + digit_val(s[6])
}

pub open spec fn day_of(s: Seq<char>) -> int
    recommends
        s.len() == 10,
{
    digit_val(s[8]) * 10 + digit_val(s[9])
}

/// The strings `parse_date` accepts: exactly `YYYY-MM-DD`, all four
/// components decimal digits, naming a valid calendar date.
pub open spec fn valid_date_str(s: Seq<char>) -> bool {
    &&& s.len() == 10
    &&& is_digit_char(s[0])
    &&& is_digit_char(s[1])
    &&& is_digit_char(s[2])
    &&& is_digit_char(s[3])
    &&& s[4] == '-'
    &&& is_digit_char(s[5])
    &&& is_digit_char(s[6])
    &&& s[7] == '-'
    &&& is_digit_char(s[8])
    &&& is_digit_char(s[9])
    &&& valid_ymd(year_of(s), month_of(s), day_of(s))
}

fn digit_value(c: char) -> (r: Option<u32>)
    ensures
        r is Some <==> is_digit_char(c),
        r matches Some(v) ==> v as int == digit_val(c),
{
    if c == '0' {
        Some(0)
    } else if c == '1' {
        Some(1)
    } else if c == '2' {
        Some(2)
    } else if c == '3' {
        Some(3)
    } else if c == '4' {
        Some(4)
    } else if c == '5' {
        Some(5)
    } else if c == '6' {
        Some(6)
    } else if c == '7' {
        Some(7)
    } else if c == '8' {
        Some(8)
    } else if c == '9' {
        Some(9)
    } else {
        None
    }
}

/// Parses an ISO-8601 calendar date string `YYYY-MM-DD`. Succeeds exactly on
/// the strings `valid_date_str` describes; anything else is rejected with a
/// `MalformedDateError` rather than silently miscomputing.
pub fn parse_date(s: &str) -> (r: Result<Date, MalformedDateError>)
    ensures
        r is Ok <==> valid_date_str(s@),
        r matches Ok(dt) ==> dt@ == day_number_of(year_of(s@), month_of(s@), day_of(s@)),
{
    if s.unicode_len() != 10 {
        return Err(MalformedDateError);
    }
    if s.get_char(4) != '-' || s.get_char(7) != '-' {
        return Err(MalformedDateError);
    }
    let d0 = match digit_value(s.get_char(0)) {
        Some(v) => v,
        None => {
            return Err(MalformedDateError);
        },
    };
    let d1 = match digit_value(s.get_char(1)) {
        Some(v) => v,
        None => {
            return Err(MalformedDateError);
        },
    };
    let d2 = match digit_value(s.get_char(2)) {
        Some(v) => v,
        None => {
            return Err(MalformedDateError);
        },
    };
    let d3 = match digit_value(s.get_char(3)) {
        Some(v) => v,
        None => {
            return Err(MalformedDateError);
        },
    };
    let d5 = match digit_value(s.get_char(5)) {
        Some(v) => v,
        None => {
            return Err(MalformedDateError);
        },
    };
    let d6 = match digit_value(s.get_char(6)) {
        Some(v) => v,
        None => {
            return Err(MalformedDateError);
        },
    };
    let d8 = match digit_value(s.get_char(8)) {
        Some(v) => v,
        None => {
            return Err(MalformedDateError);
        },
    };
    let d9 = match digit_value(s.get_char(9)) {
        Some(v) => v,
        None => {
            return Err(MalformedDateError);
        },
    };
    let y: u32 = d0 * 1000 + d1 * 100 + d2 * 10 + d3;
    let mo: u32 = d5 * 10 + d6;
    let da: u32 = d8 * 10 + d9;
    match Date::from_ymd(y, mo, da) {
        Some(dt) => Ok(dt),
        None => Err(MalformedDateError),
    }
}

} // verus!
