use chrono::{Datelike, Timelike};
use vstd::prelude::*;

verus! {

/// A calendar date and a time of day, without time zone, to the second.
#[derive(Clone, Copy, Debug, PartialEq, Eq, Structural)]
pub struct Timestamp {
    pub year: i32,
    pub month: u32,
    pub day: u32,
    pub hour: u32,
    pub minute: u32,
    pub second: u32,
}

/// The earliest and the latest year that a parsed timestamp can have.
pub const MIN_YEAR: i32 = -262143;
pub const MAX_YEAR: i32 = 262142;

/// The layout of the stored and the transmitted text of a timestamp.
pub const WIRE_FORMAT: &'static str = "%Y-%m-%d %H:%M:%S";

pub open spec fn is_leap_year(y: int) -> bool {
    (y % 4 == 0 && y % 100 != 0) || y % 400 == 0
}

pub open spec fn days_in_month(y: int, m: int) -> int {
    if m == 2 {
        if is_leap_year(y) { 29 } else { 28 }
    } else if m == 4 || m == 6 || m == 9 || m == 11 {
        30
    } else {
        31
    }
}

impl Timestamp {
    /// A day of the proleptic Gregorian calendar and a time of day.
    pub open spec fn wf(self) -> bool {
        &&& MIN_YEAR <= self.year <= MAX_YEAR
        &&& 1 <= self.month <= 12
        &&& 1 <= self.day <= days_in_month(self.year as int, self.month as int)
        &&& self.hour < 24
        &&& self.minute < 60
        &&& self.second < 60
    }
}

/// What chrono's `NaiveDateTime::parse_from_str` makes of a text under a format.
pub uninterp spec fn parsed_datetime(s: Seq<char>, fmt: Seq<char>) -> Option<Timestamp>;

/// Relies on chrono's `NaiveDateTime::parse_from_str`, and on its `Datelike` and `Timelike`
/// accessors: a parsed value is a valid date between the two limit years and a time of day
/// whose second is below 60 (a leap second is kept in the nanoseconds, which are dropped).
#[verifier::external_body]
fn parse_naive_datetime(s: &str, fmt: &str) -> (r: Option<Timestamp>)
    ensures
        r == parsed_datetime(s@, fmt@),
        r matches Some(t) ==> t.wf(),
{
    match chrono::NaiveDateTime::parse_from_str(s, fmt) {
        Ok(dt) => Some(Timestamp {
            year: dt.year(),
            month: dt.month(),
            day: dt.day(),
            hour: dt.hour(),
            minute: dt.minute(),
            second: dt.second(),
        }),
        Err(_) => None,
    }
}

impl Timestamp {
    /// Whether the fields make a valid date between the limit years and a time of day.
    pub fn is_valid(&self) -> (r: bool)
        ensures
            r == self.wf(),
    {
        if self.year < MIN_YEAR || self.year > MAX_YEAR || self.month < 1 || self.month > 12 {
            return false;
        }
        let y = self.year;
        let leap = (y % 4 == 0 && y % 100 != 0) || y % 400 == 0;
        let last: u32 = if self.month == 2 {
            if leap { 29 } else { 28 }
        } else if self.month == 4 || self.month == 6 || self.month == 9 || self.month == 11 {
            30
        } else {
            31
        };
        1 <= self.day && self.day <= last && self.hour < 24 && self.minute < 60 && self.second < 60
    }
}

/// The timestamp that a stored text stands for, if it has the wire layout.
pub open spec fn timestamp_of(s: Seq<char>) -> Option<Timestamp> {
    parsed_datetime(s, WIRE_FORMAT@)
}

impl Timestamp {
    /// Reads a timestamp written as `YYYY-MM-DD HH:MM:SS`.
    pub fn parse(s: &str) -> (r: Option<Timestamp>)
        ensures
            r == timestamp_of(s@),
            r matches Some(t) ==> t.wf(),
    {
        parse_naive_datetime(s, WIRE_FORMAT)
    }
}

/// The decimal digit `d` as a character.
pub open spec fn digit_char(d: int) -> char {
    seq!['0', '1', '2', '3', '4', '5', '6', '7', '8', '9'][d]
}

/// The decimal text of `n`, without leading zeros.
pub open spec fn decimal(n: nat) -> Seq<char>
    decreases n,
{
    if n < 10 {
        seq![digit_char(n as int)]
    } else {
        decimal(n / 10).push(digit_char((n % 10) as int))
    }
}

/// `n` below 100 as two digits, with a leading zero where needed.
pub open spec fn two_digits(n: int) -> Seq<char> {
    seq![digit_char(n / 10), digit_char(n % 10)]
}

/// A year: four digits from 0 to 9999, else a sign and the digits of its magnitude.
pub open spec fn year_text(y: int) -> Seq<char> {
    if 0 <= y <= 9999 {
        seq![digit_char(y / 1000), digit_char((y / 100) % 10), digit_char((y / 10) % 10), digit_char(y % 10)]
    } else if y < 0 {
        seq!['-'] + decimal((-y) as nat)
    } else {
        seq!['+'] + decimal(y as nat)
    }
}

impl Timestamp {
    /// The wire text `YYYY-MM-DD HH:MM:SS` of a timestamp.
    pub open spec fn wire_text(self) -> Seq<char> {
        year_text(self.year as int) + seq!['-'] + two_digits(self.month as int) + seq!['-']
            + two_digits(self.day as int) + seq![' '] + two_digits(self.hour as int) + seq![':']
            + two_digits(self.minute as int) + seq![':'] + two_digits(self.second as int)
    }
}

fn digit(d: u32) -> (c: char)
    requires
        d < 10,
    ensures
        c == digit_char(d as int),
{
    match d {
        0 => '0',
        1 => '1',
        2 => '2',
        3 => '3',
        4 => '4',
        5 => '5',
        6 => '6',
        7 => '7',
        8 => '8',
        _ => '9',
    }
}

fn push_decimal(s: &mut String, n: u32)
    ensures
        final(s)@ == old(s)@ + decimal(n as nat),
    decreases n,
{
    if n >= 10 {
        push_decimal(s, n / 10);
    }
    s.push(digit(n % 10));
    proof {
        assert(final(s)@ =~= old(s)@ + decimal(n as nat));
    }
}

fn push_two_digits(s: &mut String, n: u32)
    requires
        n < 100,
    ensures
        final(s)@ == old(s)@ + two_digits(n as int),
{
    s.push(digit(n / 10));
    s.push(digit(n % 10));
    proof {
        assert(final(s)@ =~= old(s)@ + two_digits(n as int));
    }
}

impl Timestamp {
    /// Writes the timestamp as `YYYY-MM-DD HH:MM:SS`.
    pub fn to_wire(&self) -> (r: String)
        requires
            self.wf(),
        ensures
            r@ == self.wire_text(),
    {
        let mut s = String::new();
        let y = self.year;
        if 0 <= y && y <= 9999 {
            let u = y as u32;
            s.push(digit(u / 1000));
            s.push(digit((u / 100) % 10));
            s.push(digit((u / 10) % 10));
            s.push(digit(u % 10));
        } else if y < 0 {
            s.push('-');
            push_decimal(&mut s, (0 - (y as i64)) as u32);
        } else {
            s.push('+');
            push_decimal(&mut s, y as u32);
        }
        assert(s@ =~= year_text(y as int));
        s.push('-');
        push_two_digits(&mut s, self.month);
        s.push('-');
        push_two_digits(&mut s, self.day);
        s.push(' ');
        push_two_digits(&mut s, self.hour);
        s.push(':');
        push_two_digits(&mut s, self.minute);
        s.push(':');
        push_two_digits(&mut s, self.second);
        assert(s@ =~= self.wire_text());
        s
    }
}

pub open spec fn is_digit(c: char) -> bool {
    '0' <= c <= '9'
}

/// `s` is laid out as `YYYY-MM-DD HH:MM:SS`: nineteen characters, digits but for the
/// separators.
pub open spec fn has_wire_layout(s: Seq<char>) -> bool {
    &&& s.len() == 19
    &&& s[4] == '-' && s[7] == '-' && s[10] == ' ' && s[13] == ':' && s[16] == ':'
    &&& forall|i: int|
        0 <= i < 19 && i != 4 && i != 7 && i != 10 && i != 13 && i != 16 ==> is_digit(
            #[trigger] s[i],
        )
}

/// The wire text of a valid timestamp whose year has four digits has the fixed layout.
pub proof fn wire_text_has_layout(t: Timestamp)
    requires
        t.wf(),
        0 <= t.year <= 9999,
    ensures
        has_wire_layout(t.wire_text()),
{
    let s = t.wire_text();
    assert forall|d: int| 0 <= d < 10 implies is_digit(#[trigger] digit_char(d)) by {
        assert(seq!['0', '1', '2', '3', '4', '5', '6', '7', '8', '9'][d] == digit_char(d));
    }
    assert(s.len() == 19);
    assert forall|i: int|
        0 <= i < 19 && i != 4 && i != 7 && i != 10 && i != 13 && i != 16 implies is_digit(
            #[trigger] s[i],
        ) by {
        let y = t.year as int;
        assert(0 <= y / 1000 < 10 && 0 <= (y / 100) % 10 < 10 && 0 <= (y / 10) % 10 < 10);
        assert(0 <= t.month / 10 < 10 && 0 <= t.day / 10 < 10 && 0 <= t.hour / 10 < 10);
        assert(0 <= t.minute / 10 < 10 && 0 <= t.second / 10 < 10);
    }
}

} // verus!
