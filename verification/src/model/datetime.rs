use chrono::{Datelike, Timelike};
use vstd::prelude::*;

verus! {

/// A day of the calendar, by its numbers.
#[derive(Clone, Copy, Debug, PartialEq, Eq, Structural)]
pub struct Date {
    pub year: i32,
    /// The month, counted from 1.
    pub month: u32,
    /// The day of the month, counted from 1.
    pub day: u32,
}

/// A day and a time of day without a time zone, by their numbers.
#[derive(Clone, Copy, Debug, PartialEq, Eq, Structural)]
pub struct DateTime {
    pub date: Date,
    pub hour: u32,
    pub minute: u32,
    pub second: u32,
    /// The nanoseconds since the second began. A leap second is the 59th
    /// second with a thousand million nanoseconds or more.
    pub nanosecond: u32,
}

/// A text is no date and time; `message` says why.
#[derive(Clone, Debug, PartialEq)]
pub struct ParseError {
    pub message: String,
}

impl View for ParseError {
    type V = Seq<char>;

    open spec fn view(&self) -> Seq<char> {
        self.message@
    }
}

/// What `NaiveDateTime::parse_from_str` makes of a text under a format: the
/// date and time that it reads, or the message of the error with which it
/// refuses the text.
pub uninterp spec fn date_time_parse(text: Seq<char>, format: Seq<char>) -> Result<
    DateTime,
    Seq<char>,
>;

/// Calls `NaiveDateTime::parse_from_str` and hands back the numbers of what it
/// read, or the error's message. The contract only gives the outcome its name.
#[verifier::external_body]
pub(crate) fn parse_date_time(text: &str, format: &str) -> (r: Result<DateTime, String>)
    ensures
        match r {
            Ok(at) => date_time_parse(text@, format@) == Ok::<DateTime, Seq<char>>(at),
            Err(message) => date_time_parse(text@, format@) == Err::<DateTime, Seq<char>>(
                message@,
            ),
        },
{
    match chrono::NaiveDateTime::parse_from_str(text, format) {
        Ok(t) => Ok(
            DateTime {
                date: Date { year: t.year(), month: t.month(), day: t.day() },
                hour: t.hour(),
                minute: t.minute(),
                second: t.second(),
                nanosecond: t.nanosecond(),
            },
        ),
        Err(error) => Err(error.to_string()),
    }
}

} // verus!
