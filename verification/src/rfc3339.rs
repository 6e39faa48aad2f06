//! The timestamp shape the service emits: RFC 3339 date-time in UTC with
//! microsecond precision and a trailing `Z`, e.g. `2024-01-26T18:30:09.453829Z`.
//!
//! The spec function pins the exact 27-character layout, including calendar
//! validity of the date (month range, day-in-month with leap years) and the
//! time-of-day ranges; the executable checker decides it.

use vstd::prelude::*;
use vstd::string::StrSliceExecFns;

verus! {

/// A decimal digit character.
pub open spec fn is_dec_digit(c: char) -> bool {
    '0' <= c && c <= '9'
}

/// The numeric value of a decimal digit character.
pub open spec fn digit_val(c: char) -> int {
    c as u32 - 48
}

/// The two-digit number written at positions `i` and `i + 1`.
pub open spec fn num2(s: Seq<char>, i: int) -> int {
    10 * digit_val(s[i]) + digit_val(s[i + 1])
}

/// The four-digit number written at positions `i` through `i + 3`.
pub open spec fn num4(s: Seq<char>, i: int) -> int {
    1000 * digit_val(s[i]) + 100 * digit_val(s[i + 1]) + 10 * digit_val(s[i + 2]) + digit_val(
        s[i + 3],
    )
}

/// The Gregorian leap-year rule.
pub open spec fn is_leap_year(y: int) -> bool {
    y % 4 == 0 && (y % 100 != 0 || y % 400 == 0)
}

/// How many days the given month of the given year has.
pub open spec fn days_in_month(y: int, m: int) -> int {
    if m == 2 {
        if is_leap_year(y) {
            29
        } else {
            28
        }
    } else if m == 4 || m == 6 || m == 9 || m == 11 {
        30
    } else {
        31
    }
}

/// The digit positions of the timestamp layout `YYYY-MM-DDTHH:MM:SS.ffffffZ`.
pub open spec fn digits_in_place(s: Seq<char>) -> bool {
    &&& is_dec_digit(s[0])
    &&& is_dec_digit(s[1])
    &&& is_dec_digit(s[2])
    &&& is_dec_digit(s[3])
    &&& is_dec_digit(s[5])
    &&& is_dec_digit(s[6])
    &&& is_dec_digit(s[8])
    &&& is_dec_digit(s[9])
    &&& is_dec_digit(s[11])
    &&& is_dec_digit(s[12])
    &&& is_dec_digit(s[14])
    &&& is_dec_digit(s[15])
    &&& is_dec_digit(s[17])
    &&& is_dec_digit(s[18])
    &&& is_dec_digit(s[20])
    &&& is_dec_digit(s[21])
    &&& is_dec_digit(s[22])
    &&& is_dec_digit(s[23])
    &&& is_dec_digit(s[24])
    &&& is_dec_digit(s[25])
}

/// The separator positions of the timestamp layout.
pub open spec fn separators_in_place(s: Seq<char>) -> bool {
    &&& s[4] == '-'
    &&& s[7] == '-'
    &&& s[10] == 'T'
    &&& s[13] == ':'
    &&& s[16] == ':'
    &&& s[19] == '.'
    &&& s[26] == 'Z'
}

/// An RFC 3339 UTC date-time with microsecond precision: 27 characters,
/// digits and separators in their places, a valid calendar date, and the
/// time of day in range (second 60 admitted for leap seconds).
pub open spec fn rfc3339_micros_utc(s: Seq<char>) -> bool {
    &&& s.len() == 27
    &&& digits_in_place(s)
    &&& separators_in_place(s)
    &&& 1 <= num2(s, 5) <= 12
    &&& 1 <= num2(s, 8) <= days_in_month(num4(s, 0), num2(s, 5))
    &&& 0 <= num2(s, 11) <= 23
    &&& 0 <= num2(s, 14) <= 59
    &&& 0 <= num2(s, 17) <= 60
}

/// Reads the decimal digit at position `i`, or `None` if another character
/// stands there.
fn digit_at(s: &str, i: usize) -> (r: Option<u32>)
    requires
        i < s@.len(),
    ensures
        match r {
            Some(d) => is_dec_digit(s@[i as int]) && d == digit_val(s@[i as int]),
            None => !is_dec_digit(s@[i as int]),
        },
{
    let c = s.get_char(i);
    let u: u32 = c as u32;
    if 48 <= u && u <= 57 {
        Some(u - 48)
    } else {
        None
    }
}

/// Reads the two-digit number at positions `i` and `i + 1`, or `None` if
/// either position holds no digit.
fn num2_at(s: &str, i: usize) -> (r: Option<u32>)
    requires
        i + 1 < s@.len(),
        i + 1 <= usize::MAX,
    ensures
        match r {
            Some(n) => is_dec_digit(s@[i as int]) && is_dec_digit(s@[i as int + 1]) && n == num2(
                s@,
                i as int,
            ),
            None => !(is_dec_digit(s@[i as int]) && is_dec_digit(s@[i as int + 1])),
        },
{
    let hi = digit_at(s, i);
    let lo = digit_at(s, i + 1);
    match (hi, lo) {
        (Some(h), Some(l)) => Some(10 * h + l),
        _ => None,
    }
}

/// Decides whether `y` is a leap year.
pub fn leap_year(y: u32) -> (r: bool)
    ensures
        r == is_leap_year(y as int),
{
    y % 4 == 0 && (y % 100 != 0 || y % 400 == 0)
}

/// Decides whether `s` is an RFC 3339 UTC timestamp with microsecond
/// precision, the shape every timestamp of this service has.
pub fn is_rfc3339_micros_utc(s: &str) -> (r: bool)
    ensures
        r == rfc3339_micros_utc(s@),
{
    let len: usize = s.unicode_len();
    if len != 27 {
        return false;
    }
    if s.get_char(4) != '-' || s.get_char(7) != '-' || s.get_char(10) != 'T' || s.get_char(13)
        != ':' || s.get_char(16) != ':' || s.get_char(19) != '.' || s.get_char(26) != 'Z' {
        return false;
    }
    let year_hi = match num2_at(s, 0) {
        Some(n) => n,
        None => {
            return false;
        },
    };
    let year_lo = match num2_at(s, 2) {
        Some(n) => n,
        None => {
            return false;
        },
    };
    let month = match num2_at(s, 5) {
        Some(n) => n,
        None => {
            return false;
        },
    };
    let day = match num2_at(s, 8) {
        Some(n) => n,
        None => {
            return false;
        },
    };
    let hour = match num2_at(s, 11) {
        Some(n) => n,
        None => {
            return false;
        },
    };
    let minute = match num2_at(s, 14) {
        Some(n) => n,
        None => {
            return false;
        },
    };
    let second = match num2_at(s, 17) {
        Some(n) => n,
        None => {
            return false;
        },
    };
    let frac_ok = match num2_at(s, 20) {
        Some(_) => true,
        None => false,
    };
    let frac_ok2 = match num2_at(s, 22) {
        Some(_) => true,
        None => false,
    };
    let frac_ok3 = match num2_at(s, 24) {
        Some(_) => true,
        None => false,
    };
    if !(frac_ok && frac_ok2 && frac_ok3) {
        return false;
    }
    let year: u32 = 100 * year_hi + year_lo;
    proof {
        assert(year as int == num4(s@, 0));
    }
    if !(1 <= month && month <= 12) {
        return false;
    }
    let month_days: u32 = if month == 2 {
        if leap_year(year) {
            29
        } else {
            28
        }
    } else if month == 4 || month == 6 || month == 9 || month == 11 {
        30
    } else {
        31
    };
    proof {
        assert(month_days as int == days_in_month(num4(s@, 0), num2(s@, 5)));
    }
    if !(1 <= day && day <= month_days) {
        return false;
    }
    if hour > 23 || minute > 59 || second > 60 {
        return false;
    }
    true
}

/// Every character of a timestamp in this shape is a digit or one of the
/// separators, so JSON escaping writes the whole timestamp verbatim.
pub proof fn lemma_rfc3339_is_plain(s: Seq<char>)
    requires
        rfc3339_micros_utc(s),
    ensures
        crate::json::is_plain_text(s),
{
    assert forall|i: int| 0 <= i < s.len() implies crate::json::is_plain_char(#[trigger] s[i]) by {
        assert(s.len() == 27);
    }
}

} // verus!
