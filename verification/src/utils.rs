//! Wall-clock timestamps as the store writes them: `YYYY-MM-DD HH:MM:SS`.

use vstd::prelude::*;
use vstd::string::*;

verus! {

/// A calendar day as chrono holds it. Nothing inside it is visible to proofs.
#[verifier::external_type_specification]
#[verifier::external_body]
pub struct ExNaiveDate(chrono::NaiveDate);

/// A time of day as chrono holds it. Nothing inside it is visible to proofs.
#[verifier::external_type_specification]
#[verifier::external_body]
pub struct ExNaiveTime(chrono::NaiveTime);

/// The six components of a wall-clock timestamp, as mathematical integers.
pub struct TimeFields {
    pub year: int,
    pub month: int,
    pub day: int,
    pub hour: int,
    pub minute: int,
    pub second: int,
}

/// The timestamp components with the given values.
pub open spec fn time_fields(
    year: int,
    month: int,
    day: int,
    hour: int,
    minute: int,
    second: int,
) -> TimeFields {
    TimeFields { year, month, day, hour, minute, second }
}

/// Leap years of the proleptic Gregorian calendar.
pub open spec fn is_leap_year(year: int) -> bool {
    year % 4 == 0 && (year % 100 != 0 || year % 400 == 0)
}

/// Number of days of `month` in `year`; meaningful for months 1 to 12.
pub open spec fn days_in_month(year: int, month: int) -> int {
    if month == 2 {
        if is_leap_year(year) {
            29
        } else {
            28
        }
    } else if month == 4 || month == 6 || month == 9 || month == 11 {
        30
    } else {
        31
    }
}

/// The days that exist in the proleptic Gregorian calendar, within the years
/// that chrono can represent.
pub open spec fn is_calendar_date(year: int, month: int, day: int) -> bool {
    &&& -262143 <= year <= 262142
    &&& 1 <= month <= 12
    &&& 1 <= day <= days_in_month(year, month)
}

/// The times of day on a 24-hour clock, without leap seconds.
pub open spec fn is_clock_time(hour: int, minute: int, second: int) -> bool {
    &&& 0 <= hour < 24
    &&& 0 <= minute < 60
    &&& 0 <= second < 60
}

/// `chrono::NaiveDate::from_ymd_opt` returns a date exactly when the day
/// exists in the calendar and the year is one chrono can represent.
pub assume_specification[ chrono::NaiveDate::from_ymd_opt ](
    year: i32,
    month: u32,
    day: u32,
) -> (date: Option<chrono::NaiveDate>)
    ensures
        date is Some <==> is_calendar_date(year as int, month as int, day as int),
;

/// `chrono::NaiveTime::from_hms_opt` returns a time exactly when hour, minute
/// and second are on the 24-hour clock; a second of 60 is refused.
pub assume_specification[ chrono::NaiveTime::from_hms_opt ](
    hour: u32,
    min: u32,
    sec: u32,
) -> (time: Option<chrono::NaiveTime>)
    ensures
        time is Some <==> is_clock_time(hour as int, min as int, sec as int),
;

/// The timestamps the store can write: an existing calendar day with a
/// four-digit year, and a time on the 24-hour clock.
pub open spec fn is_timestamp(f: TimeFields) -> bool {
    &&& 0 <= f.year <= 9999
    &&& is_calendar_date(f.year, f.month, f.day)
    &&& is_clock_time(f.hour, f.minute, f.second)
}

/// A wall-clock timestamp in the store's local time, to the second.
#[derive(Debug, Clone, Copy, PartialEq, Eq)]
pub struct Timestamp {
    year: i32,
    month: u32,
    day: u32,
    hour: u32,
    minute: u32,
    second: u32,
}

impl View for Timestamp {
    type V = TimeFields;

    closed spec fn view(&self) -> TimeFields {
        TimeFields {
            year: self.year as int,
            month: self.month as int,
            day: self.day as int,
            hour: self.hour as int,
            minute: self.minute as int,
            second: self.second as int,
        }
    }
}

impl Timestamp {
    #[verifier::type_invariant]
    spec fn well_formed(self) -> bool {
        is_timestamp(self@)
    }

    /// Builds a timestamp from its components, or nothing when they do not
    /// name an existing moment with a four-digit year.
    pub fn new(year: i32, month: u32, day: u32, hour: u32, minute: u32, second: u32) -> (r: Option<
        Timestamp,
    >)
        ensures
            match r {
                Some(t) => t@ == time_fields(
                    year as int,
                    month as int,
                    day as int,
                    hour as int,
                    minute as int,
                    second as int,
                ) && is_timestamp(t@),
                None => !is_timestamp(
                    time_fields(
                        year as int,
                        month as int,
                        day as int,
                        hour as int,
                        minute as int,
                        second as int,
                    ),
                ),
            },
    {
        if year < 0 || year > 9999 {
            return None;
        }
        let date = chrono::NaiveDate::from_ymd_opt(year, month, day);
        let time = chrono::NaiveTime::from_hms_opt(hour, minute, second);
        if date.is_some() && time.is_some() {
            Some(Timestamp { year, month, day, hour, minute, second })
        } else {
            None
        }
    }

    /// The year, 0 to 9999.
    pub fn year(&self) -> (y: i32)
        ensures
            y == self@.year,
            is_timestamp(self@),
    {
        proof {
            use_type_invariant(self);
        }
        self.year
    }

    /// The month of the year, 1 to 12.
    pub fn month(&self) -> (m: u32)
        ensures
            m == self@.month,
            is_timestamp(self@),
    {
        proof {
            use_type_invariant(self);
        }
        self.month
    }

    /// The day of the month, starting at 1.
    pub fn day(&self) -> (d: u32)
        ensures
            d == self@.day,
            is_timestamp(self@),
    {
        proof {
            use_type_invariant(self);
        }
        self.day
    }

    /// The hour of the day, 0 to 23.
    pub fn hour(&self) -> (h: u32)
        ensures
            h == self@.hour,
            is_timestamp(self@),
    {
        proof {
            use_type_invariant(self);
        }
        self.hour
    }

    /// The minute of the hour, 0 to 59.
    pub fn minute(&self) -> (m: u32)
        ensures
            m == self@.minute,
            is_timestamp(self@),
    {
        proof {
            use_type_invariant(self);
        }
        self.minute
    }

    /// The second of the minute, 0 to 59.
    pub fn second(&self) -> (s: u32)
        ensures
            s == self@.second,
            is_timestamp(self@),
    {
        proof {
            use_type_invariant(self);
        }
        self.second
    }
}

/// The components of a timestamp that may be absent.
pub open spec fn time_view(time: Option<Timestamp>) -> Option<TimeFields> {
    match time {
        Some(t) => Some(t@),
        None => None,
    }
}

/// The decimal digits.
pub open spec fn is_digit(c: char) -> bool {
    '0' <= c <= '9'
}

/// The number a decimal digit stands for.
pub open spec fn digit_value(c: char) -> int {
    c as int - '0' as int
}

/// The digit that stands for a number from 0 to 9.
pub open spec fn digit_char(d: int) -> char {
    (d + '0' as int) as char
}

/// The number written by the two digits of `s` that start at `at`.
pub open spec fn number2(s: Seq<char>, at: int) -> int {
    digit_value(s[at]) * 10 + digit_value(s[at + 1])
}

/// The number written by the four digits of `s` that start at `at`.
pub open spec fn number4(s: Seq<char>, at: int) -> int {
    number2(s, at) * 100 + number2(s, at + 2)
}

/// The shape `YYYY-MM-DD HH:MM:SS`: nineteen characters, digits and
/// separators each in their place.
pub open spec fn is_time_text(s: Seq<char>) -> bool {
    &&& s.len() == 19
    &&& is_digit(s[0]) && is_digit(s[1]) && is_digit(s[2]) && is_digit(s[3])
    &&& s[4] == '-'
    &&& is_digit(s[5]) && is_digit(s[6])
    &&& s[7] == '-'
    &&& is_digit(s[8]) && is_digit(s[9])
    &&& s[10] == ' '
    &&& is_digit(s[11]) && is_digit(s[12])
    &&& s[13] == ':'
    &&& is_digit(s[14]) && is_digit(s[15])
    &&& s[16] == ':'
    &&& is_digit(s[17]) && is_digit(s[18])
}

/// The components that a text of the right shape writes down.
pub open spec fn text_fields(s: Seq<char>) -> TimeFields {
    TimeFields {
        year: number4(s, 0),
        month: number2(s, 5),
        day: number2(s, 8),
        hour: number2(s, 11),
        minute: number2(s, 14),
        second: number2(s, 17),
    }
}

/// What a stored text means: its components when it has the right shape and
/// names an existing moment, nothing otherwise.
pub open spec fn parse_time_spec(s: Seq<char>) -> Option<TimeFields> {
    if is_time_text(s) && is_timestamp(text_fields(s)) {
        Some(text_fields(s))
    } else {
        None
    }
}

/// The two digits that write a number from 0 to 99.
pub open spec fn digits2(n: int) -> Seq<char> {
    seq![digit_char(n / 10), digit_char(n % 10)]
}

/// The four digits that write a number from 0 to 9999.
pub open spec fn digits4(n: int) -> Seq<char> {
    digits2(n / 100) + digits2(n % 100)
}

/// The text that the store writes for a timestamp.
pub open spec fn format_time_spec(f: TimeFields) -> Seq<char> {
    digits4(f.year) + seq!['-'] + digits2(f.month) + seq!['-'] + digits2(f.day) + seq![' ']
        + digits2(f.hour) + seq![':'] + digits2(f.minute) + seq![':'] + digits2(f.second)
}

/// Reading back the text written for a timestamp gives the same timestamp.
pub proof fn lemma_parse_format(f: TimeFields)
    requires
        is_timestamp(f),
    ensures
        parse_time_spec(format_time_spec(f)) == Some(f),
{
    let s = format_time_spec(f);
    assert(s.len() == 19);
    lemma_digits2(f.year / 100);
    lemma_digits2(f.year % 100);
    lemma_digits2(f.month);
    lemma_digits2(f.day);
    lemma_digits2(f.hour);
    lemma_digits2(f.minute);
    lemma_digits2(f.second);
    assert(s[0] == digits2(f.year / 100)[0] && s[1] == digits2(f.year / 100)[1]);
    assert(s[2] == digits2(f.year % 100)[0] && s[3] == digits2(f.year % 100)[1]);
    assert(s[4] == '-');
    assert(s[5] == digits2(f.month)[0] && s[6] == digits2(f.month)[1]);
    assert(s[7] == '-');
    assert(s[8] == digits2(f.day)[0] && s[9] == digits2(f.day)[1]);
    assert(s[10] == ' ');
    assert(s[11] == digits2(f.hour)[0] && s[12] == digits2(f.hour)[1]);
    assert(s[13] == ':');
    assert(s[14] == digits2(f.minute)[0] && s[15] == digits2(f.minute)[1]);
    assert(s[16] == ':');
    assert(s[17] == digits2(f.second)[0] && s[18] == digits2(f.second)[1]);
    assert(is_time_text(s));
    assert(text_fields(s) == f);
}

/// The two digits written for a number below 100 are digits, and read back
/// as that number.
proof fn lemma_digits2(n: int)
    requires
        0 <= n < 100,
    ensures
        is_digit(digits2(n)[0]),
        is_digit(digits2(n)[1]),
        digit_value(digits2(n)[0]) * 10 + digit_value(digits2(n)[1]) == n,
{
    let hi = n / 10;
    let lo = n % 10;
    assert(0 <= hi <= 9 && 0 <= lo <= 9);
    assert(digit_value(digit_char(hi)) == hi);
    assert(digit_value(digit_char(lo)) == lo);
}

/// The digit at position `at`, if the character there is one.
fn digit_at(text: &str, at: usize) -> (r: Option<u32>)
    requires
        at < text@.len(),
    ensures
        match r {
            Some(d) => is_digit(text@[at as int]) && d == digit_value(text@[at as int]),
            None => !is_digit(text@[at as int]),
        },
{
    let c = text.get_char(at);
    if '0' <= c && c <= '9' {
        Some(c as u32 - '0' as u32)
    } else {
        None
    }
}

/// The number written by the two characters from `at`, if both are digits.
fn two_digits_at(text: &str, at: usize) -> (r: Option<u32>)
    requires
        text@.len() == 19,
        at < 18,
    ensures
        match r {
            Some(n) => is_digit(text@[at as int]) && is_digit(text@[at + 1]) && n == number2(
                text@,
                at as int,
            ),
            None => !(is_digit(text@[at as int]) && is_digit(text@[at + 1])),
        },
{
    match (digit_at(text, at), digit_at(text, at + 1)) {
        (Some(tens), Some(ones)) => Some(tens * 10 + ones),
        _ => None,
    }
}

/// Whether the separators of `YYYY-MM-DD HH:MM:SS` stand in their places.
fn separators_in_place(text: &str) -> (r: bool)
    requires
        text@.len() == 19,
    ensures
        r == (text@[4] == '-' && text@[7] == '-' && text@[10] == ' ' && text@[13] == ':'
            && text@[16] == ':'),
{
    text.get_char(4) == '-' && text.get_char(7) == '-' && text.get_char(10) == ' '
        && text.get_char(13) == ':' && text.get_char(16) == ':'
}

/// Reads a timestamp written as `YYYY-MM-DD HH:MM:SS`.
///
/// The text must have exactly this shape and name an existing moment; any
/// other text gives nothing.
pub fn parse_time(date: &str) -> (r: Option<Timestamp>)
    ensures
        time_view(r) == parse_time_spec(date@),
{
    if date.unicode_len() != 19 || !separators_in_place(date) {
        return None;
    }
    let century = two_digits_at(date, 0);
    let years = two_digits_at(date, 2);
    let month = two_digits_at(date, 5);
    let day = two_digits_at(date, 8);
    let hour = two_digits_at(date, 11);
    let minute = two_digits_at(date, 14);
    let second = two_digits_at(date, 17);
    match (century, years, month, day, hour, minute, second) {
        (Some(c), Some(y), Some(mo), Some(d), Some(h), Some(mi), Some(s)) => {
            let year: u32 = c * 100 + y;
            Timestamp::new(year as i32, mo, d, h, mi, s)
        },
        _ => None,
    }
}

/// Reads a stored timestamp that may be absent. A text that cannot be read
/// counts as absent.
pub fn convert_option_string_to_option_date(string_time: Option<String>) -> (r: Option<Timestamp>)
    ensures
        time_view(r) == match string_time {
            Some(text) => parse_time_spec(text@),
            None => None,
        },
{
    match string_time {
        Some(time) => parse_time(time.as_str()),
        None => None,
    }
}

/// Appends the two digits that write `n`.
fn push_two_digits(out: &mut String, n: u32)
    requires
        n < 100,
    ensures
        final(out)@ == old(out)@ + digits2(n as int),
{
    let digits = "0123456789";
    proof {
        reveal_strlit("0123456789");
    }
    let tens = (n / 10) as usize;
    let ones = (n % 10) as usize;
    out.append(digits.substring_ascii(tens, tens + 1));
    out.append(digits.substring_ascii(ones, ones + 1));
    assert(digits@.subrange(tens as int, tens + 1) =~= seq![digit_char(tens as int)]);
    assert(digits@.subrange(ones as int, ones + 1) =~= seq![digit_char(ones as int)]);
    assert(out@ =~= old(out)@ + digits2(n as int));
}

/// Writes a timestamp as `YYYY-MM-DD HH:MM:SS`, the form `parse_time` reads.
pub fn format_time(time: &Timestamp) -> (r: String)
    ensures
        r@ == format_time_spec(time@),
        is_timestamp(time@),
{
    proof {
        use_type_invariant(time);
        reveal_strlit("-");
        reveal_strlit(" ");
        reveal_strlit(":");
    }
    let mut out = String::new();
    push_two_digits(&mut out, time.year as u32 / 100);
    push_two_digits(&mut out, time.year as u32 % 100);
    out.append("-");
    push_two_digits(&mut out, time.month);
    out.append("-");
    push_two_digits(&mut out, time.day);
    out.append(" ");
    push_two_digits(&mut out, time.hour);
    out.append(":");
    push_two_digits(&mut out, time.minute);
    out.append(":");
    push_two_digits(&mut out, time.second);
    assert(out@ =~= format_time_spec(time@));
    out
}

} // verus!
