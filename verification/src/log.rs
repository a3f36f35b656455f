//! Log levels and the line-oriented logger.
//!
//! The logger formats records into lines and keeps them in an output buffer;
//! the caller decides where the buffered lines go.

use vstd::prelude::*;

verus! {

/// The severity of one log record, from most to least severe.
#[derive(Clone, Copy, Debug, PartialEq, Eq, Structural)]
pub enum Level {
    Error,
    Warn,
    Info,
    Debug,
    Trace,
}

/// The verbosity cap of a logger: records above the cap are dropped.
#[derive(Clone, Copy, Debug, PartialEq, Eq, Structural)]
pub enum LevelFilter {
    Off,
    Error,
    Warn,
    Info,
    Debug,
    Trace,
}

/// The position of a record's level on the severity scale.
pub open spec fn level_rank(level: Level) -> int {
    match level {
        Level::Error => 1,
        Level::Warn => 2,
        Level::Info => 3,
        Level::Debug => 4,
        Level::Trace => 5,
    }
}

/// The position of a filter on the severity scale; `Off` sits below every level.
pub open spec fn filter_rank(filter: LevelFilter) -> int {
    match filter {
        LevelFilter::Off => 0,
        LevelFilter::Error => 1,
        LevelFilter::Warn => 2,
        LevelFilter::Info => 3,
        LevelFilter::Debug => 4,
        LevelFilter::Trace => 5,
    }
}

/// The ANSI escape that opens the color of a level.
pub open spec fn color_code(level: Level) -> Seq<char> {
    match level {
        Level::Trace => "\u{1b}[0;30m"@,
        Level::Debug => "\u{1b}[0;34m"@,
        Level::Info => "\u{1b}[0;32m"@,
        Level::Warn => "\u{1b}[0;33m"@,
        Level::Error => "\u{1b}[0;31m"@,
    }
}

/// The rendering of one record: the program tag and the message, wrapped in
/// the level's color when colors are on.
pub open spec fn log_line(with_color: bool, level: Level, msg: Seq<char>) -> Seq<char> {
    if with_color {
        color_code(level) + "[denv] "@ + msg + "\u{1b}"@
    } else {
        "[denv] "@ + msg
    }
}

/// A logger: a verbosity cap, a color switch, and the lines logged so far.
#[derive(Debug)]
pub struct Logger {
    pub lvl: LevelFilter,
    pub with_color: bool,
    pub out: Vec<String>,
}

impl Logger {
    pub fn new(lvl: LevelFilter, with_color: bool, out: Vec<String>) -> (r: Logger)
        ensures
            r.lvl == lvl,
            r.with_color == with_color,
            r.out == out,
    {
        Logger { lvl, with_color, out }
    }

    /// Whether a record at `level` passes this logger's verbosity cap.
    pub fn enabled(&self, level: Level) -> (r: bool)
        ensures
            r == (level_rank(level) <= filter_rank(self.lvl)),
    {
        level_exec_rank(level) <= filter_exec_rank(self.lvl)
    }

    /// Appends the rendering of one record to the output buffer.
    pub fn log(&mut self, level: Level, msg: &str)
        ensures
            final(self).lvl == old(self).lvl,
            final(self).with_color == old(self).with_color,
            final(self).out@.len() == old(self).out@.len() + 1,
            forall|i: int| 0 <= i < old(self).out@.len() ==> final(self).out@[i] == old(self).out@[i],
            final(self).out@.last()@ == log_line(old(self).with_color, level, msg@),
    {
        let line = format_log_line(self.with_color, level, msg);
        self.out.push(line);
    }
}

/// Renders one record as `log_line` describes.
pub fn format_log_line(with_color: bool, level: Level, msg: &str) -> (r: String)
    ensures
        r@ == log_line(with_color, level, msg@),
{
    let mut s = String::new();
    if with_color {
        match level {
            Level::Trace => s.append("\u{1b}[0;30m"),
            Level::Debug => s.append("\u{1b}[0;34m"),
            Level::Info => s.append("\u{1b}[0;32m"),
            Level::Warn => s.append("\u{1b}[0;33m"),
            Level::Error => s.append("\u{1b}[0;31m"),
        }
    }
    s.append("[denv] ");
    s.append(msg);
    if with_color {
        s.append("\u{1b}");
    }
    s
}

/// `level_rank`, executably.
fn level_exec_rank(level: Level) -> (r: u8)
    ensures
        r == level_rank(level),
{
    match level {
        Level::Error => 1,
        Level::Warn => 2,
        Level::Info => 3,
        Level::Debug => 4,
        Level::Trace => 5,
    }
}

/// `filter_rank`, executably.
fn filter_exec_rank(filter: LevelFilter) -> (r: u8)
    ensures
        r == filter_rank(filter),
{
    match filter {
        LevelFilter::Off => 0,
        LevelFilter::Error => 1,
        LevelFilter::Warn => 2,
        LevelFilter::Info => 3,
        LevelFilter::Debug => 4,
        LevelFilter::Trace => 5,
    }
}

} // verus!
