//! Capture timestamps: the EXIF `YYYY:MM:DD HH:MM:SS` wall-clock format, its
//! verified parser, and the two fixed renaming formats derived from it.
use vstd::prelude::*;
use vstd::string::StrSliceExecFns;
use vstd::string::StringExecFns;

use crate::text::digit_val;
use crate::text::is_digit;

verus! {

/// A civil (wall-clock) date and time, split into plain fields.
#[derive(Clone, Copy, Debug, PartialEq, Eq, Structural)]
pub struct DateTimeParts {
    pub year: u16,
    pub month: u8,
    pub day: u8,
    pub hour: u8,
    pub minute: u8,
    pub second: u8,
}

/// True exactly for leap years of the proleptic Gregorian calendar.
pub open spec fn is_leap_year(y: int) -> bool {
    (y % 4 == 0 && y % 100 != 0) || y % 400 == 0
}

/// Number of days in the given month of the given year.
pub open spec fn days_in_month(y: int, m: int) -> int {
    if m == 2 {
        if is_leap_year(y) {
            29
        } else {
            28
        }
    } else if m == 4 || m == 6 || m == 9 || m == 11 {
        30
    } else {
        31
    }
}

impl DateTimeParts {
    /// The fields form a real calendar date and a real time of day.
    pub open spec fn wf(self) -> bool {
        &&& self.year <= 9999
        &&& 1 <= self.month <= 12
        &&& 1 <= self.day <= days_in_month(self.year as int, self.month as int)
        &&& self.hour <= 23
        &&& self.minute <= 59
        &&& self.second <= 59
    }
}

/// The shape of an EXIF timestamp string: `YYYY:MM:DD HH:MM:SS`, all fields
/// decimal digits.
pub open spec fn exif_shape_ok(s: Seq<char>) -> bool {
    &&& s.len() == 19
    &&& is_digit(s[0]) && is_digit(s[1]) && is_digit(s[2]) && is_digit(s[3])
    &&& s[4] == ':'
    &&& is_digit(s[5]) && is_digit(s[6])
    &&& s[7] == ':'
    &&& is_digit(s[8]) && is_digit(s[9])
    &&& s[10] == ' '
    &&& is_digit(s[11]) && is_digit(s[12])
    &&& s[13] == ':'
    &&& is_digit(s[14]) && is_digit(s[15])
    &&& s[16] == ':'
    &&& is_digit(s[17]) && is_digit(s[18])
}

/// The field values read from a string of EXIF timestamp shape.
pub open spec fn exif_fields(s: Seq<char>) -> DateTimeParts {
    DateTimeParts {
        year: (digit_val(s[0]) * 1000 + digit_val(s[1]) * 100 + digit_val(s[2]) * 10 + digit_val(
            s[3],
        )) as u16,
        month: (digit_val(s[5]) * 10 + digit_val(s[6])) as u8,
        day: (digit_val(s[8]) * 10 + digit_val(s[9])) as u8,
        hour: (digit_val(s[11]) * 10 + digit_val(s[12])) as u8,
        minute: (digit_val(s[14]) * 10 + digit_val(s[15])) as u8,
        second: (digit_val(s[17]) * 10 + digit_val(s[18])) as u8,
    }
}

/// A string is a valid EXIF timestamp when it has the right shape and its
/// fields form a real date and time.
pub open spec fn exif_timestamp_valid(s: Seq<char>) -> bool {
    exif_shape_ok(s) && exif_fields(s).wf()
}

/// Numeric value of an ASCII digit character, `None` on any other character.
fn digit_of(c: char) -> (r: Option<u32>)
    ensures
        (match r {
            Some(v) => is_digit(c) && v == digit_val(c),
            None => !is_digit(c),
        }),
{
    let u = c as u32;
    if 48 <= u && u <= 57 {
        Some(u - 48)
    } else {
        None
    }
}

/// Reads the two-digit decimal field of `s` that starts at `at`.
fn two_digit_field(s: &str, at: usize) -> (r: Option<u32>)
    requires
        at + 2 <= s@.len(),
    ensures
        (match r {
            Some(v) => {
                &&& is_digit(s@[at as int])
                &&& is_digit(s@[at + 1])
                &&& v == digit_val(s@[at as int]) * 10 + digit_val(s@[at + 1])
            },
            None => !(is_digit(s@[at as int]) && is_digit(s@[at + 1])),
        }),
{
    let len = s.unicode_len();
    proof {
        assert(at + 2 <= len);
    }
    let hi = match digit_of(s.get_char(at)) {
        Some(v) => v,
        None => {
            return None;
        },
    };
    let lo = match digit_of(s.get_char(at + 1)) {
        Some(v) => v,
        None => {
            return None;
        },
    };
    Some(hi * 10 + lo)
}

/// True exactly for leap years.
pub fn leap_year(y: u32) -> (r: bool)
    ensures
        r == is_leap_year(y as int),
{
    (y % 4 == 0 && y % 100 != 0) || y % 400 == 0
}

/// Number of days in the given month.
pub fn month_length(y: u32, m: u32) -> (r: u32)
    ensures
        r == days_in_month(y as int, m as int),
{
    if m == 2 {
        if leap_year(y) {
            29
        } else {
            28
        }
    } else if m == 4 || m == 6 || m == 9 || m == 11 {
        30
    } else {
        31
    }
}

/// Parses an EXIF `YYYY:MM:DD HH:MM:SS` timestamp.
///
/// Returns the wall-clock fields exactly when the string has that shape and
/// names a real date and time; returns `None` on anything else.
pub fn parse_exif_timestamp(s: &str) -> (r: Option<DateTimeParts>)
    ensures
        (match r {
            Some(dt) => exif_timestamp_valid(s@) && dt == exif_fields(s@),
            None => !exif_timestamp_valid(s@),
        }),
{
    if s.unicode_len() != 19 {
        return None;
    }
    if s.get_char(4) != ':' || s.get_char(7) != ':' || s.get_char(10) != ' ' || s.get_char(13)
        != ':' || s.get_char(16) != ':' {
        return None;
    }
    let y_hi = match two_digit_field(s, 0) {
        Some(v) => v,
        None => {
            return None;
        },
    };
    let y_lo = match two_digit_field(s, 2) {
        Some(v) => v,
        None => {
            return None;
        },
    };
    let year = y_hi * 100 + y_lo;
    let month = match two_digit_field(s, 5) {
        Some(v) => v,
        None => {
            return None;
        },
    };
    let day = match two_digit_field(s, 8) {
        Some(v) => v,
        None => {
            return None;
        },
    };
    let hour = match two_digit_field(s, 11) {
        Some(v) => v,
        None => {
            return None;
        },
    };
    let minute = match two_digit_field(s, 14) {
        Some(v) => v,
        None => {
            return None;
        },
    };
    let second = match two_digit_field(s, 17) {
        Some(v) => v,
        None => {
            return None;
        },
    };
    if month < 1 || month > 12 {
        return None;
    }
    if day < 1 || day > month_length(year, month) {
        return None;
    }
    if hour > 23 || minute > 59 || second > 59 {
        return None;
    }
    Some(
        DateTimeParts {
            year: year as u16,
            month: month as u8,
            day: day as u8,
            hour: hour as u8,
            minute: minute as u8,
            second: second as u8,
        },
    )
}

/// The ASCII character for a single decimal digit.
pub open spec fn digit_char(d: int) -> char {
    if d == 0 {
        '0'
    } else if d == 1 {
        '1'
    } else if d == 2 {
        '2'
    } else if d == 3 {
        '3'
    } else if d == 4 {
        '4'
    } else if d == 5 {
        '5'
    } else if d == 6 {
        '6'
    } else if d == 7 {
        '7'
    } else if d == 8 {
        '8'
    } else {
        '9'
    }
}

/// A number below one hundred as two decimal digits, zero padded.
pub open spec fn two_digit_spec(n: int) -> Seq<char> {
    seq![digit_char(n / 10), digit_char(n % 10)]
}

/// The grouping prefix of a renamed file: two-digit year and month joined
/// by an underscore.
pub open spec fn grouping_spec(dt: DateTimeParts) -> Seq<char> {
    two_digit_spec(dt.year as int % 100) + seq!['_'] + two_digit_spec(dt.month as int)
}

/// The uniqueness part of a renamed file: two-digit day, hour, minute and
/// second joined by underscores.
pub open spec fn unique_spec(dt: DateTimeParts) -> Seq<char> {
    two_digit_spec(dt.day as int) + seq!['_'] + two_digit_spec(dt.hour as int) + seq!['_']
        + two_digit_spec(dt.minute as int) + seq!['_'] + two_digit_spec(dt.second as int)
}

/// Formatting a digit and reading it back gives the digit again.
pub proof fn lemma_digit_char_val(d: int)
    requires
        0 <= d < 10,
    ensures
        is_digit(digit_char(d)),
        digit_val(digit_char(d)) == d,
{
}

/// The two characters of a two-digit rendering are digits and recompose to
/// the rendered number.
pub proof fn lemma_two_digit_roundtrip(n: int)
    requires
        0 <= n < 100,
    ensures
        is_digit(two_digit_spec(n)[0]),
        is_digit(two_digit_spec(n)[1]),
        digit_val(two_digit_spec(n)[0]) * 10 + digit_val(two_digit_spec(n)[1]) == n,
{
    lemma_digit_char_val(n / 10);
    lemma_digit_char_val(n % 10);
}

fn digit_str(d: u32) -> (r: &'static str)
    requires
        d < 10,
    ensures
        r@ == seq![digit_char(d as int)],
{
    let r: &'static str = if d == 0 {
        "0"
    } else if d == 1 {
        "1"
    } else if d == 2 {
        "2"
    } else if d == 3 {
        "3"
    } else if d == 4 {
        "4"
    } else if d == 5 {
        "5"
    } else if d == 6 {
        "6"
    } else if d == 7 {
        "7"
    } else if d == 8 {
        "8"
    } else {
        "9"
    };
    proof {
        reveal_strlit("0");
        reveal_strlit("1");
        reveal_strlit("2");
        reveal_strlit("3");
        reveal_strlit("4");
        reveal_strlit("5");
        reveal_strlit("6");
        reveal_strlit("7");
        reveal_strlit("8");
        reveal_strlit("9");
        assert(r@ =~= seq![digit_char(d as int)]);
    }
    r
}

/// Formats a number below one hundred as two decimal digits, zero padded.
pub fn two_digit(n: u32) -> (r: String)
    requires
        n < 100,
    ensures
        r@ == two_digit_spec(n as int),
{
    let mut out = digit_str(n / 10).to_owned();
    out.append(digit_str(n % 10));
    proof {
        assert(out@ =~= two_digit_spec(n as int));
    }
    out
}

/// Formats the grouping part of a renamed file, `YY_MM` of the wall clock.
pub fn format_grouping(dt: DateTimeParts) -> (r: String)
    requires
        dt.wf(),
    ensures
        r@ == grouping_spec(dt),
{
    let mut out = two_digit(dt.year as u32 % 100);
    out.append("_");
    let month = two_digit(dt.month as u32);
    out.append(month.as_str());
    proof {
        reveal_strlit("_");
        assert(("_")@ =~= seq!['_']);
        assert(out@ =~= grouping_spec(dt));
    }
    out
}

/// Formats the uniqueness part of a renamed file, `DD_HH_MM_SS` of the wall
/// clock.
pub fn format_unique(dt: DateTimeParts) -> (r: String)
    requires
        dt.wf(),
    ensures
        r@ == unique_spec(dt),
{
    let mut out = two_digit(dt.day as u32);
    out.append("_");
    let hour = two_digit(dt.hour as u32);
    out.append(hour.as_str());
    out.append("_");
    let minute = two_digit(dt.minute as u32);
    out.append(minute.as_str());
    out.append("_");
    let second = two_digit(dt.second as u32);
    out.append(second.as_str());
    proof {
        reveal_strlit("_");
        assert(("_")@ =~= seq!['_']);
        assert(out@ =~= unique_spec(dt));
    }
    out
}

/// Relies on jiff's `civil::DateTime::new` and `DateTime::in_tz`: the given
/// wall clock is interpreted as local time in the America/Chicago time zone
/// (gaps and folds resolved by jiff's compatible strategy) and the wall
/// clock of the resulting zoned datetime is returned. `None` when the time
/// zone database has no such zone or the instant is unrepresentable.
#[verifier::external_body]
pub(crate) fn chicago_wall_clock(dt: DateTimeParts) -> (r: Option<DateTimeParts>)
    requires
        dt.wf(),
    ensures
        r matches Some(local) ==> local.wf(),
{
    let civil = jiff::civil::DateTime::new(
        dt.year as i16, dt.month as i8, dt.day as i8,
        dt.hour as i8, dt.minute as i8, dt.second as i8, 0,
    ).ok()?;
    let wall = civil.in_tz("America/Chicago").ok()?.datetime();
    Some(DateTimeParts {
        year: u16::try_from(wall.year()).ok()?,
        month: u8::try_from(wall.month()).ok()?,
        day: u8::try_from(wall.day()).ok()?,
        hour: u8::try_from(wall.hour()).ok()?,
        minute: u8::try_from(wall.minute()).ok()?,
        second: u8::try_from(wall.second()).ok()?,
    })
}

} // verus!
