//! What the console logger decides: which records it prints, in which
//! colour and shape, and how it writes the date.

use crate::server::prometheus::decimal;
use crate::server::prometheus::decimal_string;
use vstd::prelude::*;
use vstd::string::StringExecFns;

verus! {

/// The level of a log record, most severe first.
#[derive(Debug, Clone, Copy, PartialEq, Eq, Structural)]
pub enum Level {
    Error,
    Warn,
    Info,
    Debug,
    Trace,
}

/// The colour a level is printed in.
#[derive(Debug, Clone, Copy, PartialEq, Eq, Structural)]
pub enum LevelColor {
    Green,
    Red,
    Yellow,
}

/// The shape of a printed line.
#[derive(Debug, Clone, Copy, PartialEq, Eq, Structural)]
pub enum LineShape {
    /// Level and module, then file and line of the call, then the message.
    WithSource,
    /// Date, level and module, then the message.
    WithDate,
}

/// The logger level where none is set.
pub const DEFAULT_LEVEL: &'static str = "info";

/// The logger level that lets debug records through.
pub const DEBUG_LEVEL: &'static str = "debug";

/// The environment where none is set.
pub const DEFAULT_ENV: &'static str = "dev";

impl Level {
    /// Severity as a number: 1 for errors up to 5 for traces.
    pub open spec fn rank(self) -> int {
        match self {
            Level::Error => 1,
            Level::Warn => 2,
            Level::Info => 3,
            Level::Debug => 4,
            Level::Trace => 5,
        }
    }

    /// Whether the level is `Info` or more severe.
    pub fn at_most_info(&self) -> (r: bool)
        ensures
            r == (self.rank() <= Level::Info.rank()),
    {
        match self {
            Level::Error => true,
            Level::Warn => true,
            Level::Info => true,
            Level::Debug => false,
            Level::Trace => false,
        }
    }
}

/// The logger level, from the value of `LOGGER_LEVEL`: `info` where the
/// variable is not set.
pub fn logger_level(value: Option<String>) -> (level: String)
    ensures
        level@ == match value {
            Some(v) => v@,
            None => DEFAULT_LEVEL@,
        },
{
    match value {
        Some(v) => v,
        None => String::from_str(DEFAULT_LEVEL),
    }
}

/// The environment, from the value of `ENV`: `dev` where the variable is not
/// set.
pub fn run_env(value: Option<String>) -> (env: String)
    ensures
        env@ == match value {
            Some(v) => v@,
            None => DEFAULT_ENV@,
        },
{
    match value {
        Some(v) => v,
        None => String::from_str(DEFAULT_ENV),
    }
}

/// Whether a record is printed: it is `Info` or more severe, or the logger
/// level is `debug`.
pub open spec fn is_enabled(level: Level, logger_level: Seq<char>) -> bool {
    level.rank() <= Level::Info.rank() || logger_level == DEBUG_LEVEL@
}

/// Whether a record of the given level is printed under the given logger
/// level.
pub fn enabled(level: Level, logger_level: &str) -> (r: bool)
    ensures
        r == is_enabled(level, logger_level@),
{
    level.at_most_info() || *logger_level == *DEBUG_LEVEL
}

/// The most verbose level that is let through at all: `Debug` under the
/// logger level `debug`, else `Info`.
pub fn max_level(logger_level: &str) -> (level: Level)
    ensures
        level == if logger_level@ == DEBUG_LEVEL@ {
            Level::Debug
        } else {
            Level::Info
        },
{
    if *logger_level == *DEBUG_LEVEL {
        Level::Debug
    } else {
        Level::Info
    }
}

/// The colour of a level: green for `Info`, red for `Error`, yellow for the
/// rest.
pub fn level_color(level: Level) -> (color: LevelColor)
    ensures
        color == match level {
            Level::Info => LevelColor::Green,
            Level::Error => LevelColor::Red,
            _ => LevelColor::Yellow,
        },
{
    match level {
        Level::Info => LevelColor::Green,
        Level::Error => LevelColor::Red,
        _ => LevelColor::Yellow,
    }
}

/// The shape of a line: errors and warnings outside `dev` name their source,
/// everything else carries the date.
pub fn line_shape(level: Level, env: &str) -> (shape: LineShape)
    ensures
        shape == if (level == Level::Error || level == Level::Warn) && env@ != DEFAULT_ENV@ {
            LineShape::WithSource
        } else {
            LineShape::WithDate
        },
{
    let severe = match level {
        Level::Error => true,
        Level::Warn => true,
        _ => false,
    };
    if severe && !(*env == *DEFAULT_ENV) {
        LineShape::WithSource
    } else {
        LineShape::WithDate
    }
}

/// A number in at least two digits.
pub open spec fn two_digits(n: nat) -> Seq<char> {
    if n < 10 {
        seq!['0'] + decimal(n)
    } else {
        decimal(n)
    }
}

/// Date and time as `year-MM-DD hh:mm:ss`.
pub open spec fn date_text(
    year: u32,
    month: u32,
    day: u32,
    hour: u32,
    minute: u32,
    second: u32,
) -> Seq<char> {
    decimal(year as nat) + seq!['-'] + two_digits(month as nat) + seq!['-'] + two_digits(
        day as nat,
    ) + seq![' '] + two_digits(hour as nat) + seq![':'] + two_digits(minute as nat) + seq![':']
        + two_digits(second as nat)
}

/// Appends a number in at least two digits.
fn push_two_digits(text: &mut String, n: u32)
    ensures
        final(text)@ == old(text)@ + two_digits(n as nat),
{
    if n < 10 {
        text.push('0');
    }
    text.append(decimal_string(n as usize).as_str());
    proof {
        if n < 10 {
            assert(old(text)@.push('0') + decimal(n as nat) =~= old(text)@ + (seq!['0'] + decimal(
                n as nat,
            )));
        }
    }
}

/// Writes date and time as `year-MM-DD hh:mm:ss`.
pub fn format_date(year: u32, month: u32, day: u32, hour: u32, minute: u32, second: u32) -> (date:
    String)
    ensures
        date@ == date_text(year, month, day, hour, minute, second),
{
    let mut date = decimal_string(year as usize);
    date.push('-');
    push_two_digits(&mut date, month);
    date.push('-');
    push_two_digits(&mut date, day);
    date.push(' ');
    push_two_digits(&mut date, hour);
    date.push(':');
    push_two_digits(&mut date, minute);
    date.push(':');
    push_two_digits(&mut date, second);
    proof {
        assert(date@ =~= date_text(year, month, day, hour, minute, second));
    }
    date
}

} // verus!
