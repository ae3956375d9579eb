use chrono::{Datelike, Timelike};
use vstd::prelude::*;

verus! {

/// A due date and time of day, without time zone, to the minute.
#[derive(Clone, Copy, Debug, PartialEq, Eq, Structural)]
pub struct DueDate {
    pub year: i32,
    pub month: u32,
    pub day: u32,
    pub hour: u32,
    pub minute: u32,
}

/// Leap years of the proleptic Gregorian calendar.
pub open spec fn is_leap_year(y: int) -> bool {
    (y % 4 == 0 && y % 100 != 0) || y % 400 == 0
}

/// How many days month `m` of year `y` has.
pub open spec fn days_in_month(y: int, m: int) -> int {
    if m == 2 {
        if is_leap_year(y) { 29 } else { 28 }
    } else if m == 4 || m == 6 || m == 9 || m == 11 {
        30
    } else {
        31
    }
}

impl DueDate {
    /// A real calendar day and a time of day.
    pub open spec fn wf(&self) -> bool {
        &&& 1 <= self.month <= 12
        &&& 1 <= self.day <= days_in_month(self.year as int, self.month as int)
        &&& self.hour < 24
        &&& self.minute < 60
    }
}

/// An instant with the UTC offset of the place where it was taken.
#[derive(Clone, Copy, Debug, PartialEq, Eq, Structural)]
pub struct Stamp {
    /// Seconds since the Unix epoch.
    pub secs: i64,
    /// Nanoseconds past `secs`; a leap second runs past one billion.
    pub nanos: u32,
    /// Local time minus UTC, in seconds.
    pub offset_secs: i32,
}

impl Stamp {
    /// Within the ranges that chrono keeps these fields in.
    pub open spec fn wf(&self) -> bool {
        &&& self.nanos < 2_000_000_000
        &&& -86_400 < self.offset_secs < 86_400
    }
}

/// The outcome of reading a due date from a text in the form `YYYY-MM-DD HH:MM`:
/// the date, or the parser's message.
pub uninterp spec fn due_parse(text: Seq<char>) -> Result<DueDate, Seq<char>>;

/// Relies on chrono's `NaiveDateTime::parse_from_str` with the format `%Y-%m-%d %H:%M`:
/// its outcome depends on the text alone, and a value it returns is a valid date and time.
#[verifier::external_body]
pub(crate) fn parse_due_text(text: &str) -> (r: Result<DueDate, String>)
    ensures
        match r {
            Ok(d) => due_parse(text@) == Ok::<DueDate, Seq<char>>(d) && d.wf(),
            Err(m) => due_parse(text@) == Err::<DueDate, Seq<char>>(m@),
        },
{
    match chrono::NaiveDateTime::parse_from_str(text, "%Y-%m-%d %H:%M") {
        Ok(d) => Ok(DueDate { year: d.year(), month: d.month(), day: d.day(), hour: d.hour(), minute: d.minute() }),
        Err(e) => Err(e.to_string()),
    }
}

/// Relies on chrono's `Local::now`: the current instant as Unix seconds and nanoseconds,
/// and the local offset, a `FixedOffset`, which is less than a day either way.
#[verifier::external_body]
pub(crate) fn local_now() -> (r: Stamp)
    ensures
        r.wf(),
{
    let now = chrono::Local::now();
    Stamp { secs: now.timestamp(), nanos: now.timestamp_subsec_nanos(), offset_secs: now.offset().local_minus_utc() }
}

} // verus!
