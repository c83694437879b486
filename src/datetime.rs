//! The date, the time of day and the clock's offset from a time server.

use vstd::prelude::*;
use crate::text::{dec, digit_char, push_decimal, push_digit};

verus! {

/// A calendar date. `weekday` counts days since Monday, `week` is the ISO 8601
/// week of the date.
#[derive(Clone, Copy, Debug, PartialEq, Eq, Structural)]
pub struct Date {
    pub weekday: u8,
    pub day: u8,
    pub month: u8,
    pub year: i32,
    pub week: u8,
}

/// The name of a weekday, counted from Monday.
pub open spec fn weekday_name(w: int) -> Seq<char> {
    if w == 0 { "Monday"@ }
    else if w == 1 { "Tuesday"@ }
    else if w == 2 { "Wednesday"@ }
    else if w == 3 { "Thursday"@ }
    else if w == 4 { "Friday"@ }
    else if w == 5 { "Saturday"@ }
    else { "Sunday"@ }
}

/// The name of a month, counted from 1.
pub open spec fn month_name(m: int) -> Seq<char> {
    if m == 1 { "January"@ }
    else if m == 2 { "February"@ }
    else if m == 3 { "March"@ }
    else if m == 4 { "April"@ }
    else if m == 5 { "May"@ }
    else if m == 6 { "June"@ }
    else if m == 7 { "July"@ }
    else if m == 8 { "August"@ }
    else if m == 9 { "September"@ }
    else if m == 10 { "October"@ }
    else if m == 11 { "November"@ }
    else { "December"@ }
}

/// The decimal text of an integer, with a minus sign when negative.
pub open spec fn signed_dec(n: int) -> Seq<char> {
    if n < 0 { seq!['-'] + dec((-n) as nat) } else { dec(n as nat) }
}

/// `Saturday, 8 April, 2023, week 14`.
pub open spec fn date_line(d: Date) -> Seq<char> {
    weekday_name(d.weekday as int) + ", "@ + dec(d.day as nat) + " "@ + month_name(d.month as int)
        + ", "@ + signed_dec(d.year as int) + ", week "@ + dec(d.week as nat)
}

impl Date {
    /// Whether the fields name a possible date.
    pub open spec fn wf(&self) -> bool {
        &&& self.weekday < 7
        &&& 1 <= self.month <= 12
        &&& 1 <= self.day <= 31
        &&& 1 <= self.week <= 53
    }

    /// The date of the given calendar day; `weekday` counts the days since
    /// Monday, `week` is the day's ISO 8601 week.
    pub fn new(year: i32, month: u8, day: u8, weekday: u8, week: u8) -> (r: Date)
        requires
            1 <= month <= 12,
            1 <= day <= 31,
            weekday < 7,
            1 <= week <= 53,
        ensures
            r.wf(),
            r.year == year,
            r.month == month,
            r.day == day,
            r.weekday == weekday,
            r.week == week,
    {
        Date { weekday, day, month, year, week }
    }

    /// The name of the weekday.
    pub fn weekday_name(&self) -> (r: &'static str)
        ensures
            r@ == weekday_name(self.weekday as int),
    {
        if self.weekday == 0 { "Monday" }
        else if self.weekday == 1 { "Tuesday" }
        else if self.weekday == 2 { "Wednesday" }
        else if self.weekday == 3 { "Thursday" }
        else if self.weekday == 4 { "Friday" }
        else if self.weekday == 5 { "Saturday" }
        else { "Sunday" }
    }

    /// The name of the month.
    pub fn month_name(&self) -> (r: &'static str)
        ensures
            r@ == month_name(self.month as int),
    {
        if self.month == 1 { "January" }
        else if self.month == 2 { "February" }
        else if self.month == 3 { "March" }
        else if self.month == 4 { "April" }
        else if self.month == 5 { "May" }
        else if self.month == 6 { "June" }
        else if self.month == 7 { "July" }
        else if self.month == 8 { "August" }
        else if self.month == 9 { "September" }
        else if self.month == 10 { "October" }
        else if self.month == 11 { "November" }
        else { "December" }
    }

    /// The date's line.
    pub fn line(&self) -> (r: String)
        ensures
            r@ == date_line(*self),
    {
        let mut s = String::new();
        s.append(self.weekday_name());
        s.append(", ");
        push_decimal(&mut s, self.day as u64);
        s.append(" ");
        s.append(self.month_name());
        s.append(", ");
        push_signed(&mut s, self.year);
        s.append(", week ");
        push_decimal(&mut s, self.week as u64);
        s
    }
}

fn push_signed(s: &mut String, n: i32)
    ensures
        final(s)@ == old(s)@ + signed_dec(n as int),
{
    if n < 0 {
        s.push('-');
        let magnitude: u64 = (-(n as i64)) as u64;
        push_decimal(s, magnitude);
        assert(s@ =~= old(s)@ + signed_dec(n as int));
    } else {
        push_decimal(s, n as u64);
    }
}

} // verus!

verus! {

/// A time of day, the time zone's label, and the clock's offset from a time
/// server in microseconds where it could be measured.
#[derive(Debug)]
pub struct Time {
    pub hour: u8,
    pub minute: u8,
    pub second: u8,
    pub timezone: String,
    pub offset_micros: Option<i64>,
}

/// How far the clock is off.
#[derive(Clone, Copy, Debug, PartialEq, Eq, Structural)]
pub enum OffsetBand {
    InSync,
    SlightlyOff,
    SignificantlyOff,
}

/// The magnitude of an offset.
pub open spec fn magnitude(m: int) -> nat {
    if m < 0 { (-m) as nat } else { m as nat }
}

/// Under a tenth of a second the clock is in sync, under a second slightly
/// off, else significantly off.
pub open spec fn band_of(micros: int) -> OffsetBand {
    if magnitude(micros) < 100_000 {
        OffsetBand::InSync
    } else if magnitude(micros) < 1_000_000 {
        OffsetBand::SlightlyOff
    } else {
        OffsetBand::SignificantlyOff
    }
}

/// The label of a band.
pub open spec fn band_text(b: OffsetBand) -> Seq<char> {
    match b {
        OffsetBand::InSync => "in sync"@,
        OffsetBand::SlightlyOff => "slightly off"@,
        OffsetBand::SignificantlyOff => "significantly off"@,
    }
}

/// Four decimal digits of `n`, with leading zeros.
pub open spec fn four_digits(n: nat) -> Seq<char> {
    seq![
        digit_char((n / 1000) as int),
        digit_char((n / 100 % 10) as int),
        digit_char((n / 10 % 10) as int),
        digit_char((n % 10) as int),
    ]
}

/// `-0.0672 seconds (in sync)`: the offset in seconds, truncated to four
/// decimals, then its band.
pub open spec fn offset_line(micros: int) -> Seq<char> {
    (if micros < 0 { "-"@ } else { "+"@ }) + dec(magnitude(micros) / 1_000_000) + "."@
        + four_digits(magnitude(micros) % 1_000_000 / 100) + " seconds ("@ + band_text(band_of(micros))
        + ")"@
}

/// `9:5:3 UTC +02:00`.
pub open spec fn clock_line(t: Time) -> Seq<char> {
    dec(t.hour as nat) + ":"@ + dec(t.minute as nat) + ":"@ + dec(t.second as nat) + " UTC "@
        + t.timezone@
}

/// The time's text: its clock line, then the offset line where there is an
/// offset.
pub open spec fn time_text(t: Time) -> Seq<char> {
    match t.offset_micros {
        Some(m) => clock_line(t) + "\n"@ + offset_line(m as int),
        None => clock_line(t),
    }
}

/// What came of synchronizing with a time server.
#[derive(Clone, Copy, Debug, PartialEq, Eq, Structural)]
pub enum ClockSync {
    Offset(i64),
    TimedOut,
    Failed,
}

/// The offset that a synchronization yields: none where it timed out or failed.
pub open spec fn sync_offset(s: ClockSync) -> Option<i64> {
    match s {
        ClockSync::Offset(m) => Some(m),
        _ => None,
    }
}

/// The band of an offset in microseconds.
pub fn offset_band(micros: i64) -> (r: OffsetBand)
    ensures
        r == band_of(micros as int),
{
    let a = unsigned_magnitude(micros);
    if a < 100_000 {
        OffsetBand::InSync
    } else if a < 1_000_000 {
        OffsetBand::SlightlyOff
    } else {
        OffsetBand::SignificantlyOff
    }
}

fn unsigned_magnitude(m: i64) -> (r: u64)
    ensures
        r == magnitude(m as int),
{
    if m < 0 {
        ((-(m + 1)) as u64) + 1
    } else {
        m as u64
    }
}

impl OffsetBand {
    /// The band's label.
    pub fn label(&self) -> (r: &'static str)
        ensures
            r@ == band_text(*self),
    {
        match self {
            OffsetBand::InSync => "in sync",
            OffsetBand::SlightlyOff => "slightly off",
            OffsetBand::SignificantlyOff => "significantly off",
        }
    }
}

/// The offset line of an offset in microseconds.
pub fn offset_text(micros: i64) -> (r: String)
    ensures
        r@ == offset_line(micros as int),
{
    let a = unsigned_magnitude(micros);
    let mut s = String::new();
    if micros < 0 {
        s.append("-");
    } else {
        s.append("+");
    }
    push_decimal(&mut s, a / 1_000_000);
    s.append(".");
    let f = a % 1_000_000 / 100;
    push_digit(&mut s, f / 1000);
    push_digit(&mut s, f / 100 % 10);
    push_digit(&mut s, f / 10 % 10);
    push_digit(&mut s, f % 10);
    s.append(" seconds (");
    s.append(offset_band(micros).label());
    s.append(")");
    proof {
        reveal_with_fuel(dec, 1);
    }
    assert(s@ =~= offset_line(micros as int));
    s
}

impl Time {
    /// Whether the fields name a time of day.
    pub open spec fn wf(&self) -> bool {
        &&& self.hour < 24
        &&& self.minute < 60
        &&& self.second < 61
    }

    /// The clock line.
    pub fn clock_line(&self) -> (r: String)
        ensures
            r@ == clock_line(*self),
    {
        let mut s = String::new();
        push_decimal(&mut s, self.hour as u64);
        s.append(":");
        push_decimal(&mut s, self.minute as u64);
        s.append(":");
        push_decimal(&mut s, self.second as u64);
        s.append(" UTC ");
        s.append(self.timezone.as_str());
        s
    }

    /// The time's text.
    pub fn text(&self) -> (r: String)
        ensures
            r@ == time_text(*self),
    {
        let mut s = self.clock_line();
        match self.offset_micros {
            Some(m) => {
                s.append("\n");
                s.append(offset_text(m).as_str());
            },
            None => {},
        }
        s
    }

    /// The time with the offset that a synchronization yields: on a timeout or
    /// a failure it has no offset, and the time of day stands.
    pub fn settle(self, sync: ClockSync) -> (r: Time)
        ensures
            r.hour == self.hour,
            r.minute == self.minute,
            r.second == self.second,
            r.timezone == self.timezone,
            r.offset_micros == sync_offset(sync),
    {
        let offset_micros = match sync {
            ClockSync::Offset(m) => Some(m),
            _ => None,
        };
        Time { offset_micros, ..self }
    }
}

/// A date and a time taken together.
#[derive(Debug)]
pub struct Datetime {
    pub date: Date,
    pub time: Time,
}

/// The date's line, then the time's text.
pub open spec fn datetime_text(d: Datetime) -> Seq<char> {
    date_line(d.date) + "\n"@ + time_text(d.time)
}

impl Datetime {
    /// The text of the date and time.
    pub fn text(&self) -> (r: String)
        ensures
            r@ == datetime_text(*self),
    {
        let mut s = self.date.line();
        s.append("\n");
        s.append(self.time.text().as_str());
        s
    }
}

} // verus!
