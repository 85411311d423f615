//! Calendar dates, UTC timestamps and their textual forms.
use vstd::prelude::*;

verus! {

/// True for a leap year of the proleptic Gregorian calendar.
pub open spec fn is_leap_year(y: int) -> bool {
    y % 4 == 0 && (y % 100 != 0 || y % 400 == 0)
}

pub open spec fn days_in_month(y: int, m: int) -> int {
    if m == 2 {
        if is_leap_year(y) {
            29
        } else {
            28
        }
    } else if m == 4 || m == 6 || m == 9 || m == 11 {
        30
    } else {
        31
    }
}

/// A date with a four-digit year that exists in the Gregorian calendar.
pub open spec fn valid_date(y: int, m: int, d: int) -> bool {
    0 <= y <= 9999 && 1 <= m <= 12 && 1 <= d <= days_in_month(y, m)
}

/// Days of the year that lie before the first day of month `m`.
pub open spec fn days_before_month(y: int, m: int) -> int {
    let common = seq![0int, 31, 59, 90, 120, 151, 181, 212, 243, 273, 304, 334][m - 1];
    if m > 2 && is_leap_year(y) {
        common + 1
    } else {
        common
    }
}

/// Days from 0000-01-01 to the given date; `(y + 3) / 4 - ...` counts the leap
/// years in `[0, y)`.
pub open spec fn day_number(y: int, m: int, d: int) -> int {
    365 * y + (y + 3) / 4 - (y + 99) / 100 + (y + 399) / 400 + days_before_month(y, m) + d - 1
}

/// Day of the week, Monday being 0. The day 0000-01-01 was a Saturday.
pub open spec fn weekday_index(y: int, m: int, d: int) -> int {
    (day_number(y, m, d) + 5) % 7
}

pub open spec fn digit_char(n: int) -> char {
    if n == 0 {
        '0'
    } else if n == 1 {
        '1'
    } else if n == 2 {
        '2'
    } else if n == 3 {
        '3'
    } else if n == 4 {
        '4'
    } else if n == 5 {
        '5'
    } else if n == 6 {
        '6'
    } else if n == 7 {
        '7'
    } else if n == 8 {
        '8'
    } else {
        '9'
    }
}

/// `n` in two decimal digits, zero-padded.
pub open spec fn pad2(n: int) -> Seq<char> {
    seq![digit_char(n / 10), digit_char(n % 10)]
}

/// `n` in four decimal digits, zero-padded.
pub open spec fn pad4(n: int) -> Seq<char> {
    seq![digit_char(n / 1000), digit_char((n / 100) % 10), digit_char((n / 10) % 10), digit_char(n % 10)]
}

pub open spec fn weekday_abbrev(i: int) -> Seq<char> {
    if i == 0 {
        seq!['M', 'o', 'n']
    } else if i == 1 {
        seq!['T', 'u', 'e']
    } else if i == 2 {
        seq!['W', 'e', 'd']
    } else if i == 3 {
        seq!['T', 'h', 'u']
    } else if i == 4 {
        seq!['F', 'r', 'i']
    } else if i == 5 {
        seq!['S', 'a', 't']
    } else {
        seq!['S', 'u', 'n']
    }
}

/// A calendar date, with no time of day and no time zone.
#[derive(Clone, Copy, Debug, PartialEq, Eq, Structural)]
pub struct CalendarDate {
    pub year: i32,
    pub month: u32,
    pub day: u32,
}

/// An instant in UTC, to the second.
#[derive(Clone, Copy, Debug, PartialEq, Eq, Structural)]
pub struct Timestamp {
    pub date: CalendarDate,
    pub hour: u32,
    pub minute: u32,
    pub second: u32,
}

/// Either a bare calendar date or a full timestamp.
#[derive(Clone, Copy, Debug, PartialEq, Eq, Structural)]
pub enum TemporalValue {
    Date(CalendarDate),
    DateTime(Timestamp),
}

impl CalendarDate {
    pub open spec fn wf(&self) -> bool {
        valid_date(self.year as int, self.month as int, self.day as int)
    }

    pub open spec fn weekday(&self) -> int {
        weekday_index(self.year as int, self.month as int, self.day as int)
    }

    /// The date `year-month-day`, or `None` where no such date exists or the
    /// year is not of four digits.
    pub fn new(year: i32, month: u32, day: u32) -> (r: Option<CalendarDate>)
        ensures
            r is Some <==> valid_date(year as int, month as int, day as int),
            r is Some ==> r->0 == (CalendarDate { year, month, day }),
    {
        if year < 0 || year > 9999 || month < 1 || month > 12 || day < 1 {
            return None;
        }
        let leap = year % 4 == 0 && (year % 100 != 0 || year % 400 == 0);
        let last: u32 = if month == 2 {
            if leap {
                29
            } else {
                28
            }
        } else if month == 4 || month == 6 || month == 9 || month == 11 {
            30
        } else {
            31
        };
        if day > last {
            None
        } else {
            Some(CalendarDate { year, month, day })
        }
    }
}

impl Timestamp {
    pub open spec fn wf(&self) -> bool {
        &&& self.date.wf()
        &&& self.hour < 24
        &&& self.minute < 60
        &&& self.second < 60
    }

    /// The instant `date` at `hour:minute:second` UTC, or `None` where the
    /// date is not valid or a time field is out of range.
    pub fn new(date: CalendarDate, hour: u32, minute: u32, second: u32) -> (r: Option<Timestamp>)
        ensures
            r is Some <==> (Timestamp { date, hour, minute, second }).wf(),
            r is Some ==> r->0 == (Timestamp { date, hour, minute, second }),
    {
        let checked = CalendarDate::new(date.year, date.month, date.day);
        if checked.is_none() || hour >= 24 || minute >= 60 || second >= 60 {
            None
        } else {
            Some(Timestamp { date, hour, minute, second })
        }
    }
}

impl TemporalValue {
    pub open spec fn wf(&self) -> bool {
        match self {
            TemporalValue::Date(d) => d.wf(),
            TemporalValue::DateTime(t) => t.wf(),
        }
    }

    /// The calendar date on which the value falls.
    pub open spec fn day(&self) -> CalendarDate {
        match self {
            TemporalValue::Date(d) => *d,
            TemporalValue::DateTime(t) => t.date,
        }
    }
}

/// `YYYYMMDD`
pub open spec fn ics_date_text(d: CalendarDate) -> Seq<char> {
    pad4(d.year as int) + pad2(d.month as int) + pad2(d.day as int)
}

/// `YYYYMMDDTHHMMSSZ`
pub open spec fn ics_timestamp_text(t: Timestamp) -> Seq<char> {
    ics_date_text(t.date) + seq!['T'] + pad2(t.hour as int) + pad2(t.minute as int) + pad2(
        t.second as int,
    ) + seq!['Z']
}

pub open spec fn ics_text(v: TemporalValue) -> Seq<char> {
    match v {
        TemporalValue::Date(d) => ics_date_text(d),
        TemporalValue::DateTime(t) => ics_timestamp_text(t),
    }
}

/// `YYYY-MM-DD DOW`
pub open spec fn outline_day(d: CalendarDate) -> Seq<char> {
    pad4(d.year as int) + seq!['-'] + pad2(d.month as int) + seq!['-'] + pad2(d.day as int)
        + seq![' '] + weekday_abbrev(d.weekday())
}

/// `HH:MM`
pub open spec fn outline_clock(t: Timestamp) -> Seq<char> {
    pad2(t.hour as int) + seq![':'] + pad2(t.minute as int)
}

/// `<YYYY-MM-DD DOW>`
pub open spec fn outline_date(d: CalendarDate) -> Seq<char> {
    seq!['<'] + outline_day(d) + seq!['>']
}

/// `<YYYY-MM-DD DOW HH:MM>`
pub open spec fn outline_timestamp(t: Timestamp) -> Seq<char> {
    seq!['<'] + outline_day(t.date) + seq![' '] + outline_clock(t) + seq!['>']
}

pub open spec fn outline_value(v: TemporalValue) -> Seq<char> {
    match v {
        TemporalValue::Date(d) => outline_date(d),
        TemporalValue::DateTime(t) => outline_timestamp(t),
    }
}

pub open spec fn copied(o: Option<&TemporalValue>) -> Option<TemporalValue> {
    match o {
        Some(e) => Some(*e),
        None => None,
    }
}

/// Two bracketed values joined by `--`.
pub open spec fn outline_range(a: Seq<char>, b: Seq<char>) -> Seq<char> {
    a + seq!['-', '-'] + b
}

/// The outline token of an event that runs from `start` to `end`.
pub open spec fn outline_token(start: TemporalValue, end: Option<TemporalValue>) -> Seq<char> {
    match end {
        None => outline_value(start),
        Some(e) => {
            if start.day() == e.day() {
                match (start, e) {
                    (TemporalValue::DateTime(s), TemporalValue::DateTime(t)) => seq!['<']
                        + outline_day(s.date) + seq![' '] + outline_clock(s) + seq!['-']
                        + outline_clock(t) + seq!['>'],
                    _ => outline_value(start),
                }
            } else {
                outline_range(outline_value(start), outline_value(e))
            }
        },
    }
}

/// Relies on `String::push`: appends one character.
#[verifier::external_body]
pub(crate) fn push_char(s: &mut String, c: char)
    ensures
        final(s)@ == old(s)@.push(c),
{
    s.push(c)
}

/// Relies on chrono's `NaiveDate::from_ymd_opt`, which gives a date for every
/// valid Gregorian date with a four-digit year, and on `Datelike::weekday` with
/// `Weekday::num_days_from_monday` for its day of the week.
#[verifier::external_body]
fn weekday_from_monday(year: i32, month: u32, day: u32) -> (r: u32)
    requires
        valid_date(year as int, month as int, day as int),
    ensures
        r as int == weekday_index(year as int, month as int, day as int),
{
    let date = chrono::NaiveDate::from_ymd_opt(year, month, day).unwrap();
    chrono::Datelike::weekday(&date).num_days_from_monday()
}

fn push_digit(s: &mut String, n: u32)
    requires
        n < 10,
    ensures
        final(s)@ == old(s)@.push(digit_char(n as int)),
{
    let c = if n == 0 {
        '0'
    } else if n == 1 {
        '1'
    } else if n == 2 {
        '2'
    } else if n == 3 {
        '3'
    } else if n == 4 {
        '4'
    } else if n == 5 {
        '5'
    } else if n == 6 {
        '6'
    } else if n == 7 {
        '7'
    } else if n == 8 {
        '8'
    } else {
        '9'
    };
    push_char(s, c);
}

fn push_pad2(s: &mut String, n: u32)
    requires
        n < 100,
    ensures
        final(s)@ == old(s)@ + pad2(n as int),
{
    push_digit(s, n / 10);
    push_digit(s, n % 10);
    assert(s@ =~= old(s)@ + pad2(n as int));
}

fn push_pad4(s: &mut String, n: u32)
    requires
        n < 10000,
    ensures
        final(s)@ == old(s)@ + pad4(n as int),
{
    push_digit(s, n / 1000);
    push_digit(s, (n / 100) % 10);
    push_digit(s, (n / 10) % 10);
    push_digit(s, n % 10);
    assert(s@ =~= old(s)@ + pad4(n as int));
}

fn push_ics_date(s: &mut String, d: &CalendarDate)
    requires
        d.wf(),
    ensures
        final(s)@ == old(s)@ + ics_date_text(*d),
{
    push_pad4(s, d.year as u32);
    push_pad2(s, d.month);
    push_pad2(s, d.day);
    assert(s@ =~= old(s)@ + ics_date_text(*d));
}

/// The value in the calendar interchange form: `YYYYMMDD` for a date,
/// `YYYYMMDDTHHMMSSZ` for a timestamp.
pub fn fmt_datetime(dt: &TemporalValue) -> (r: String)
    requires
        dt.wf(),
    ensures
        r@ == ics_text(*dt),
{
    let mut s = String::new();
    match dt {
        TemporalValue::Date(d) => {
            push_ics_date(&mut s, d);
            assert(s@ =~= ics_text(*dt));
        },
        TemporalValue::DateTime(t) => {
            push_ics_date(&mut s, &t.date);
            push_char(&mut s, 'T');
            push_pad2(&mut s, t.hour);
            push_pad2(&mut s, t.minute);
            push_pad2(&mut s, t.second);
            push_char(&mut s, 'Z');
            assert(s@ =~= ics_text(*dt));
        },
    }
    s
}

fn push_weekday(s: &mut String, i: u32)
    requires
        i < 7,
    ensures
        final(s)@ == old(s)@ + weekday_abbrev(i as int),
{
    let (a, b, c) = if i == 0 {
        ('M', 'o', 'n')
    } else if i == 1 {
        ('T', 'u', 'e')
    } else if i == 2 {
        ('W', 'e', 'd')
    } else if i == 3 {
        ('T', 'h', 'u')
    } else if i == 4 {
        ('F', 'r', 'i')
    } else if i == 5 {
        ('S', 'a', 't')
    } else {
        ('S', 'u', 'n')
    };
    push_char(s, a);
    push_char(s, b);
    push_char(s, c);
    assert(s@ =~= old(s)@ + weekday_abbrev(i as int));
}

fn push_outline_day(s: &mut String, d: &CalendarDate)
    requires
        d.wf(),
    ensures
        final(s)@ == old(s)@ + outline_day(*d),
{
    push_pad4(s, d.year as u32);
    push_char(s, '-');
    push_pad2(s, d.month);
    push_char(s, '-');
    push_pad2(s, d.day);
    push_char(s, ' ');
    let w = weekday_from_monday(d.year, d.month, d.day);
    push_weekday(s, w);
    assert(s@ =~= old(s)@ + outline_day(*d));
}

fn push_outline_clock(s: &mut String, t: &Timestamp)
    requires
        t.wf(),
    ensures
        final(s)@ == old(s)@ + outline_clock(*t),
{
    push_pad2(s, t.hour);
    push_char(s, ':');
    push_pad2(s, t.minute);
    assert(s@ =~= old(s)@ + outline_clock(*t));
}

fn push_outline_value(s: &mut String, v: &TemporalValue)
    requires
        v.wf(),
    ensures
        final(s)@ == old(s)@ + outline_value(*v),
{
    push_char(s, '<');
    match v {
        TemporalValue::Date(d) => {
            push_outline_day(s, d);
        },
        TemporalValue::DateTime(t) => {
            push_outline_day(s, &t.date);
            push_char(s, ' ');
            push_outline_clock(s, t);
        },
    }
    push_char(s, '>');
    assert(s@ =~= old(s)@ + outline_value(*v));
}

/// The outline token of an event from `start` to `end`: one bracket where
/// there is no end or both fall on one day, two joined by `--` otherwise. Two
/// timestamps of one day share a bracket, `<YYYY-MM-DD DOW HH:MM-HH:MM>`.
pub fn fmt_datetime_org_format(start: &TemporalValue, end: Option<&TemporalValue>) -> (r: String)
    requires
        start.wf(),
        end matches Some(e) ==> e.wf(),
    ensures
        r@ == outline_token(*start, copied(end)),
{
    let mut s = String::new();
    match end {
        None => {
            push_outline_value(&mut s, start);
        },
        Some(e) => {
            let start_day = match start {
                TemporalValue::Date(d) => *d,
                TemporalValue::DateTime(t) => t.date,
            };
            let end_day = match e {
                TemporalValue::Date(d) => *d,
                TemporalValue::DateTime(t) => t.date,
            };
            if start_day == end_day {
                match (start, e) {
                    (TemporalValue::DateTime(a), TemporalValue::DateTime(b)) => {
                        push_char(&mut s, '<');
                        push_outline_day(&mut s, &a.date);
                        push_char(&mut s, ' ');
                        push_outline_clock(&mut s, a);
                        push_char(&mut s, '-');
                        push_outline_clock(&mut s, b);
                        push_char(&mut s, '>');
                    },
                    _ => {
                        push_outline_value(&mut s, start);
                    },
                }
            } else {
                push_outline_value(&mut s, start);
                push_char(&mut s, '-');
                push_char(&mut s, '-');
                push_outline_value(&mut s, e);
            }
        },
    }
    assert(s@ =~= outline_token(*start, copied(end)));
    s
}

proof fn digit_char_injective(x: int, y: int)
    requires
        0 <= x < 10,
        0 <= y < 10,
        digit_char(x) == digit_char(y),
    ensures
        x == y,
{
}

proof fn pad2_injective(m: int, n: int)
    requires
        0 <= m < 100,
        0 <= n < 100,
        pad2(m) == pad2(n),
    ensures
        m == n,
{
    assert(pad2(m)[0] == pad2(n)[0]);
    assert(pad2(m)[1] == pad2(n)[1]);
    digit_char_injective(m / 10, n / 10);
    digit_char_injective(m % 10, n % 10);
}

proof fn pad4_injective(m: int, n: int)
    requires
        0 <= m < 10000,
        0 <= n < 10000,
        pad4(m) == pad4(n),
    ensures
        m == n,
{
    assert(pad4(m)[0] == pad4(n)[0]);
    assert(pad4(m)[1] == pad4(n)[1]);
    assert(pad4(m)[2] == pad4(n)[2]);
    assert(pad4(m)[3] == pad4(n)[3]);
    digit_char_injective(m / 1000, n / 1000);
    digit_char_injective((m / 100) % 10, (n / 100) % 10);
    digit_char_injective((m / 10) % 10, (n / 10) % 10);
    digit_char_injective(m % 10, n % 10);
}

/// The interchange text of a timestamp loses nothing: two valid timestamps
/// with the same `YYYYMMDDTHHMMSSZ` text are the same timestamp.
pub proof fn ics_timestamp_text_determines_timestamp(a: Timestamp, b: Timestamp)
    requires
        a.wf(),
        b.wf(),
        ics_timestamp_text(a) == ics_timestamp_text(b),
    ensures
        a == b,
{
    let ta = ics_timestamp_text(a);
    let tb = ics_timestamp_text(b);
    assert(ta.subrange(0, 4) =~= pad4(a.date.year as int));
    assert(tb.subrange(0, 4) =~= pad4(b.date.year as int));
    assert(ta.subrange(4, 6) =~= pad2(a.date.month as int));
    assert(tb.subrange(4, 6) =~= pad2(b.date.month as int));
    assert(ta.subrange(6, 8) =~= pad2(a.date.day as int));
    assert(tb.subrange(6, 8) =~= pad2(b.date.day as int));
    assert(ta.subrange(9, 11) =~= pad2(a.hour as int));
    assert(tb.subrange(9, 11) =~= pad2(b.hour as int));
    assert(ta.subrange(11, 13) =~= pad2(a.minute as int));
    assert(tb.subrange(11, 13) =~= pad2(b.minute as int));
    assert(ta.subrange(13, 15) =~= pad2(a.second as int));
    assert(tb.subrange(13, 15) =~= pad2(b.second as int));
    pad4_injective(a.date.year as int, b.date.year as int);
    pad2_injective(a.date.month as int, b.date.month as int);
    pad2_injective(a.date.day as int, b.date.day as int);
    pad2_injective(a.hour as int, b.hour as int);
    pad2_injective(a.minute as int, b.minute as int);
    pad2_injective(a.second as int, b.second as int);
}

} // verus!
