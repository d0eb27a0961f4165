//! Local calendar timestamps: the plain `year/month/day hour:minute` values
//! that the forecast provider reports for each hourly sample, their
//! chronological ordering, the fixed `YYYY-MM-DDTHH:MM` input format, and the
//! `dd/mm hh:mm` display format.

use vstd::prelude::*;

use chrono::Datelike;
use chrono::Timelike;

verus! {

/// One local calendar time, to minute precision.
#[derive(Debug, Clone, Copy, PartialEq, Eq, Structural)]
pub struct Timestamp {
    pub year: i32,
    pub month: u8,
    pub day: u8,
    pub hour: u8,
    pub minute: u8,
}

/// Whether `c` is a decimal digit.
pub open spec fn is_digit(c: char) -> bool {
    c == '0' || c == '1' || c == '2' || c == '3' || c == '4' || c == '5' || c == '6' || c == '7'
        || c == '8' || c == '9'
}

/// The numeric value of a decimal digit character.
pub open spec fn digit_val(c: char) -> int {
    if c == '0' {
        0
    } else if c == '1' {
        1
    } else if c == '2' {
        2
    } else if c == '3' {
        3
    } else if c == '4' {
        4
    } else if c == '5' {
        5
    } else if c == '6' {
        6
    } else if c == '7' {
        7
    } else if c == '8' {
        8
    } else {
        9
    }
}

/// The decimal digit character for a value below ten.
pub open spec fn digit_char(d: int) -> char {
    if d == 0 {
        '0'
    } else if d == 1 {
        '1'
    } else if d == 2 {
        '2'
    } else if d == 3 {
        '3'
    } else if d == 4 {
        '4'
    } else if d == 5 {
        '5'
    } else if d == 6 {
        '6'
    } else if d == 7 {
        '7'
    } else if d == 8 {
        '8'
    } else {
        '9'
    }
}

/// Whether `y` is a leap year of the Gregorian calendar.
pub open spec fn is_leap_year(y: int) -> bool {
    y % 4 == 0 && (y % 100 != 0 || y % 400 == 0)
}

/// The number of days of month `m` of year `y`.
pub open spec fn days_in_month(y: int, m: int) -> int {
    if m == 2 {
        if is_leap_year(y) {
            29
        } else {
            28
        }
    } else if m == 4 || m == 6 || m == 9 || m == 11 {
        30
    } else {
        31
    }
}

impl Timestamp {
    /// Field ranges of a meaningful local time.
    pub open spec fn wf(self) -> bool {
        &&& 1 <= self.month <= 12
        &&& 1 <= self.day <= 31
        &&& self.hour <= 23
        &&& self.minute <= 59
    }

    /// Chronological order: `self` is no later than `other`.
    pub open spec fn spec_le(self, other: Timestamp) -> bool {
        if self.year != other.year {
            self.year < other.year
        } else if self.month != other.month {
            self.month < other.month
        } else if self.day != other.day {
            self.day < other.day
        } else if self.hour != other.hour {
            self.hour < other.hour
        } else {
            self.minute <= other.minute
        }
    }

    /// Strict chronological order.
    pub open spec fn spec_lt(self, other: Timestamp) -> bool {
        self.spec_le(other) && self != other
    }

    /// Compares two local times chronologically.
    pub fn le(&self, other: &Timestamp) -> (r: bool)
        ensures
            r == self.spec_le(*other),
    {
        if self.year != other.year {
            self.year < other.year
        } else if self.month != other.month {
            self.month < other.month
        } else if self.day != other.day {
            self.day < other.day
        } else if self.hour != other.hour {
            self.hour < other.hour
        } else {
            self.minute <= other.minute
        }
    }
}

/// Chronological order is total: of any two timestamps, one is no later than
/// the other, and mutual order means equality.
pub proof fn lemma_le_total(a: Timestamp, b: Timestamp)
    ensures
        a.spec_le(b) || b.spec_le(a),
        a.spec_le(b) && b.spec_le(a) ==> a == b,
{
}

/// Chronological order is transitive.
pub proof fn lemma_le_transitive(a: Timestamp, b: Timestamp, c: Timestamp)
    requires
        a.spec_le(b),
        b.spec_le(c),
    ensures
        a.spec_le(c),
{
}

/// Strict order composes with order.
pub proof fn lemma_lt_le_transitive(a: Timestamp, b: Timestamp, c: Timestamp)
    requires
        a.spec_lt(b),
        b.spec_le(c),
    ensures
        a.spec_lt(c),
{
    lemma_le_transitive(a, b, c);
    if a == c {
        lemma_le_total(a, b);
        assert(false);
    }
}

/// The value of the two-digit number at positions `i`, `i + 1` of `s`.
pub open spec fn two_digit_val(s: Seq<char>, i: int) -> int {
    digit_val(s[i]) * 10 + digit_val(s[i + 1])
}

/// The fixed `YYYY-MM-DDTHH:MM` timestamp format of the forecast provider:
/// `None` for any text that is not exactly of that shape, or whose fields do
/// not name a real calendar time.
pub open spec fn spec_parse_timestamp(s: Seq<char>) -> Option<Timestamp> {
    if s.len() == 16 && is_digit(s[0]) && is_digit(s[1]) && is_digit(s[2]) && is_digit(s[3])
        && s[4] == '-' && is_digit(s[5]) && is_digit(s[6]) && s[7] == '-' && is_digit(s[8])
        && is_digit(s[9]) && s[10] == 'T' && is_digit(s[11]) && is_digit(s[12]) && s[13] == ':'
        && is_digit(s[14]) && is_digit(s[15]) {
        let year = digit_val(s[0]) * 1000 + digit_val(s[1]) * 100 + digit_val(s[2]) * 10
            + digit_val(s[3]);
        let month = two_digit_val(s, 5);
        let day = two_digit_val(s, 8);
        let hour = two_digit_val(s, 11);
        let minute = two_digit_val(s, 14);
        if 1 <= month <= 12 && 1 <= day <= days_in_month(year, month) && hour <= 23 && minute
            <= 59 {
            Some(
                Timestamp {
                    year: year as i32,
                    month: month as u8,
                    day: day as u8,
                    hour: hour as u8,
                    minute: minute as u8,
                },
            )
        } else {
            None
        }
    } else {
        None
    }
}

/// The numeric value of a decimal digit character, or `None`.
fn digit_of(c: char) -> (r: Option<u8>)
    ensures
        r is Some <==> is_digit(c),
        r matches Some(d) ==> d as int == digit_val(c) && d < 10,
{
    match c {
        '0' => Some(0),
        '1' => Some(1),
        '2' => Some(2),
        '3' => Some(3),
        '4' => Some(4),
        '5' => Some(5),
        '6' => Some(6),
        '7' => Some(7),
        '8' => Some(8),
        '9' => Some(9),
        _ => None,
    }
}

/// Parses a provider timestamp of the fixed `YYYY-MM-DDTHH:MM` shape.
pub fn parse_timestamp(s: &str) -> (r: Option<Timestamp>)
    ensures
        r == spec_parse_timestamp(s@),
{
    if s.unicode_len() != 16 {
        return None;
    }
    let d0 = match digit_of(s.get_char(0)) {
        Some(d) => d,
        None => {
            return None;
        },
    };
    let d1 = match digit_of(s.get_char(1)) {
        Some(d) => d,
        None => {
            return None;
        },
    };
    let d2 = match digit_of(s.get_char(2)) {
        Some(d) => d,
        None => {
            return None;
        },
    };
    let d3 = match digit_of(s.get_char(3)) {
        Some(d) => d,
        None => {
            return None;
        },
    };
    if s.get_char(4) != '-' {
        return None;
    }
    let m0 = match digit_of(s.get_char(5)) {
        Some(d) => d,
        None => {
            return None;
        },
    };
    let m1 = match digit_of(s.get_char(6)) {
        Some(d) => d,
        None => {
            return None;
        },
    };
    if s.get_char(7) != '-' {
        return None;
    }
    let a0 = match digit_of(s.get_char(8)) {
        Some(d) => d,
        None => {
            return None;
        },
    };
    let a1 = match digit_of(s.get_char(9)) {
        Some(d) => d,
        None => {
            return None;
        },
    };
    if s.get_char(10) != 'T' {
        return None;
    }
    let h0 = match digit_of(s.get_char(11)) {
        Some(d) => d,
        None => {
            return None;
        },
    };
    let h1 = match digit_of(s.get_char(12)) {
        Some(d) => d,
        None => {
            return None;
        },
    };
    if s.get_char(13) != ':' {
        return None;
    }
    let n0 = match digit_of(s.get_char(14)) {
        Some(d) => d,
        None => {
            return None;
        },
    };
    let n1 = match digit_of(s.get_char(15)) {
        Some(d) => d,
        None => {
            return None;
        },
    };
    let year: i32 = d0 as i32 * 1000 + d1 as i32 * 100 + d2 as i32 * 10 + d3 as i32;
    let month: u8 = m0 * 10 + m1;
    let day: u8 = a0 * 10 + a1;
    let hour: u8 = h0 * 10 + h1;
    let minute: u8 = n0 * 10 + n1;
    if !(1 <= month && month <= 12) {
        return None;
    }
    let dim = days_in_month_exec(year, month);
    if !(1 <= day && day <= dim) {
        return None;
    }
    if hour > 23 || minute > 59 {
        return None;
    }
    Some(Timestamp { year, month, day, hour, minute })
}

/// The number of days of month `m` of year `y`.
fn days_in_month_exec(y: i32, m: u8) -> (r: u8)
    requires
        y >= 0,
    ensures
        r as int == days_in_month(y as int, m as int),
{
    if m == 2 {
        if y % 4 == 0 && (y % 100 != 0 || y % 400 == 0) {
            29
        } else {
            28
        }
    } else if m == 4 || m == 6 || m == 9 || m == 11 {
        30
    } else {
        31
    }
}

/// The decimal digit character for a value below ten, as a one-character
/// string slice.
pub(crate) fn digit_str(d: u8) -> (r: &'static str)
    requires
        d < 10,
    ensures
        r@ == seq![digit_char(d as int)],
{
    match d {
        0 => {
            proof {
                reveal_strlit("0");
                assert("0"@ =~= seq![digit_char(0)]);
            }
            "0"
        },
        1 => {
            proof {
                reveal_strlit("1");
                assert("1"@ =~= seq![digit_char(1)]);
            }
            "1"
        },
        2 => {
            proof {
                reveal_strlit("2");
                assert("2"@ =~= seq![digit_char(2)]);
            }
            "2"
        },
        3 => {
            proof {
                reveal_strlit("3");
                assert("3"@ =~= seq![digit_char(3)]);
            }
            "3"
        },
        4 => {
            proof {
                reveal_strlit("4");
                assert("4"@ =~= seq![digit_char(4)]);
            }
            "4"
        },
        5 => {
            proof {
                reveal_strlit("5");
                assert("5"@ =~= seq![digit_char(5)]);
            }
            "5"
        },
        6 => {
            proof {
                reveal_strlit("6");
                assert("6"@ =~= seq![digit_char(6)]);
            }
            "6"
        },
        7 => {
            proof {
                reveal_strlit("7");
                assert("7"@ =~= seq![digit_char(7)]);
            }
            "7"
        },
        8 => {
            proof {
                reveal_strlit("8");
                assert("8"@ =~= seq![digit_char(8)]);
            }
            "8"
        },
        _ => {
            proof {
                reveal_strlit("9");
                assert("9"@ =~= seq![digit_char(9)]);
            }
            "9"
        },
    }
}

/// A value below one hundred written with exactly two decimal digits.
pub open spec fn two_digits(n: int) -> Seq<char> {
    seq![digit_char(n / 10), digit_char(n % 10)]
}

/// Appends the two-digit form of `n` to `out`.
fn push_two_digits(out: &mut String, n: u8)
    requires
        n < 100,
    ensures
        final(out)@ == old(out)@ + two_digits(n as int),
{
    let ghost before = out@;
    out.append(digit_str(n / 10));
    out.append(digit_str(n % 10));
    proof {
        assert(out@ =~= before + two_digits(n as int));
    }
}

/// The `dd/mm hh:mm` display form of a timestamp, day and month first, on the
/// twenty-four hour clock.
pub open spec fn time_label(t: Timestamp) -> Seq<char> {
    two_digits(t.day as int) + seq!['/'] + two_digits(t.month as int) + seq![' '] + two_digits(
        t.hour as int,
    ) + seq![':'] + two_digits(t.minute as int)
}

impl Timestamp {
    /// Writes this time as `dd/mm hh:mm` for the display table.
    pub fn format_display(&self) -> (r: String)
        requires
            self.wf(),
        ensures
            r@ == time_label(*self),
    {
        let mut s = String::new();
        push_two_digits(&mut s, self.day);
        proof {
            reveal_strlit("/");
        }
        s.append("/");
        push_two_digits(&mut s, self.month);
        proof {
            reveal_strlit(" ");
        }
        s.append(" ");
        push_two_digits(&mut s, self.hour);
        proof {
            reveal_strlit(":");
        }
        s.append(":");
        push_two_digits(&mut s, self.minute);
        proof {
            assert(s@ =~= time_label(*self));
        }
        s
    }
}

/// Relies on `chrono::Local::now` and the `Datelike` / `Timelike` accessors:
/// the current local wall-clock time, with the field ranges those accessors
/// document (month 1 to 12, day 1 to 31, hour below 24, minute below 60).
#[verifier::external_body]
pub(crate) fn now_local() -> (r: Timestamp)
    ensures
        r.wf(),
{
    let n = chrono::Local::now();
    Timestamp {
        year: n.year(),
        month: n.month() as u8,
        day: n.day() as u8,
        hour: n.hour() as u8,
        minute: n.minute() as u8,
    }
}

} // verus!
