//! The command-line surface as plain data: the command, its options, and the
//! verbosity setting. Argument parsing happens outside the library; these
//! types carry its result.

use vstd::prelude::*;
use crate::log::LevelFilter;
use crate::log::filter_rank;

verus! {

/// One invocation's command.
#[derive(Clone, Debug, PartialEq, Eq)]
pub enum Command {
    /// Print the shell hook statement for a shell.
    Hook(Shell),
    /// Print shell export statements.
    Load,
    /// Print shell unset statements.
    Unload,
}

/// The shells a hook statement can be printed for.
#[derive(Clone, Copy, Debug, PartialEq, Eq, Structural)]
pub enum Shell {
    Bash,
    Zsh,
}

/// The whole parsed command line.
#[derive(Clone, Debug, PartialEq, Eq)]
pub struct Cli {
    pub cmd: Command,
    pub opts: Options,
}

/// The global options.
#[derive(Clone, Debug, PartialEq, Eq)]
pub struct Options {
    /// Overrides the configuration file path.
    pub cfg_filepath: Option<String>,
    /// Disables log colors.
    pub no_color: bool,
    pub verbosity: Verbosity,
}

impl Default for Options {
    fn default() -> (r: Options)
        ensures
            r.cfg_filepath is None,
            !r.no_color,
            r.verbosity.count == 1,
            !r.verbosity.quiet,
    {
        Options { cfg_filepath: None, no_color: false, verbosity: Verbosity::default() }
    }
}

/// How verbose logging should be: a repeat count, and a switch that silences
/// everything.
#[derive(Clone, Copy, Debug, PartialEq, Eq, Structural)]
pub struct Verbosity {
    /// Each occurrence raises the log level by one step.
    pub count: u8,
    /// Drops every log line; wins over `count`.
    pub quiet: bool,
}

impl Default for Verbosity {
    fn default() -> (r: Verbosity)
        ensures
            r.count == 1,
            !r.quiet,
    {
        Verbosity { count: 1, quiet: false }
    }
}

/// The level a verbosity setting selects: `Off` when quiet, else one step per
/// occurrence from `Error` up, capped at `Trace`.
pub open spec fn verbosity_level(v: Verbosity) -> LevelFilter {
    if v.quiet {
        LevelFilter::Off
    } else if v.count == 0 {
        LevelFilter::Error
    } else if v.count == 1 {
        LevelFilter::Warn
    } else if v.count == 2 {
        LevelFilter::Info
    } else if v.count == 3 {
        LevelFilter::Debug
    } else {
        LevelFilter::Trace
    }
}

impl Verbosity {
    pub fn to_log_level(&self) -> (r: LevelFilter)
        ensures
            r == verbosity_level(*self),
            !self.quiet ==> filter_rank(r) > 0,
    {
        if self.quiet {
            LevelFilter::Off
        } else {
            match self.count {
                0 => LevelFilter::Error,
                1 => LevelFilter::Warn,
                2 => LevelFilter::Info,
                3 => LevelFilter::Debug,
                _ => LevelFilter::Trace,
            }
        }
    }
}

} // verus!
