//! The format of the log: one line per message, each led by the local time
//! in square brackets.

use crate::text::{digit_char, digit_text};
use vstd::prelude::*;

verus! {

/// A reading of the local clock.
#[derive(Clone, Copy, Debug, PartialEq, Eq, Structural)]
pub struct LogTime {
    pub year: u16,
    pub month: u8,
    pub day: u8,
    pub hour: u8,
    pub minute: u8,
    pub second: u8,
}

impl LogTime {
    /// Whether every field lies in the range that a calendar date and a time
    /// of day give it. A second of 60 is a leap second.
    pub open spec fn well_formed(self) -> bool {
        &&& self.year <= 9999
        &&& 1 <= self.month <= 12
        &&& 1 <= self.day <= 31
        &&& self.hour <= 23
        &&& self.minute <= 59
        &&& self.second <= 60
    }

    /// The reading with these fields, if each lies in its range.
    pub fn new(year: u16, month: u8, day: u8, hour: u8, minute: u8, second: u8) -> (res: Option<
        LogTime,
    >)
        ensures
            res is Some <==> (LogTime { year, month, day, hour, minute, second }).well_formed(),
            res matches Some(t) ==> t == (LogTime { year, month, day, hour, minute, second }),
    {
        if year <= 9999 && 1 <= month && month <= 12 && 1 <= day && day <= 31 && hour <= 23
            && minute <= 59 && second <= 60 {
            Some(LogTime { year, month, day, hour, minute, second })
        } else {
            None
        }
    }
}

/// `n` below one hundred, as two digits.
pub open spec fn two_digits(n: int) -> Seq<char> {
    seq![digit_char(n / 10), digit_char(n % 10)]
}

/// `n` below ten thousand, as four digits.
pub open spec fn four_digits(n: int) -> Seq<char> {
    two_digits(n / 100) + two_digits(n % 100)
}

/// A reading as `YYYY-MM-DD HH:MM:SS`.
pub open spec fn timestamp_spec(t: LogTime) -> Seq<char> {
    four_digits(t.year as int) + seq!['-'] + two_digits(t.month as int) + seq!['-'] + two_digits(
        t.day as int,
    ) + seq![' '] + two_digits(t.hour as int) + seq![':'] + two_digits(t.minute as int) + seq![
        ':',
    ] + two_digits(t.second as int)
}

/// The line that records `message` at time `t`, line feed included.
pub open spec fn log_line_spec(t: LogTime, message: Seq<char>) -> Seq<char> {
    seq!['['] + timestamp_spec(t) + seq![']', ' '] + message + seq!['\n']
}

/// Appends `n` to `text` as two digits.
fn push_two_digits(text: &mut String, n: u8)
    requires
        n <= 99,
    ensures
        final(text)@ == old(text)@ + two_digits(n as int),
{
    text.append(digit_text(n / 10));
    text.append(digit_text(n % 10));
}

/// A reading of the clock in the form that leads every log line.
pub fn timestamp(time: &LogTime) -> (res: String)
    requires
        time.well_formed(),
    ensures
        res@ == timestamp_spec(*time),
{
    proof {
        reveal_strlit("-");
        reveal_strlit(" ");
        reveal_strlit(":");
    }
    let mut res = String::new();
    push_two_digits(&mut res, (time.year / 100) as u8);
    push_two_digits(&mut res, (time.year % 100) as u8);
    res.append("-");
    push_two_digits(&mut res, time.month);
    res.append("-");
    push_two_digits(&mut res, time.day);
    res.append(" ");
    push_two_digits(&mut res, time.hour);
    res.append(":");
    push_two_digits(&mut res, time.minute);
    res.append(":");
    push_two_digits(&mut res, time.second);
    res
}

/// Formats a message for the log file: the time in square brackets, a space,
/// the message, and a line feed.
pub fn log_message(time: &LogTime, message: &str) -> (line: String)
    requires
        time.well_formed(),
    ensures
        line@ == log_line_spec(*time, message@),
{
    proof {
        reveal_strlit("[");
        reveal_strlit("] ");
        reveal_strlit("\n");
    }
    let mut line = String::new();
    line.append("[");
    let stamp = timestamp(time);
    line.append(stamp.as_str());
    line.append("] ");
    line.append(message);
    line.append("\n");
    line
}

} // verus!
