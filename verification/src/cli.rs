//! The command line of the `cyrok` program: log level and options.
use vstd::prelude::*;
use crate::text::{str_equal, with_default, opt_chars, opt_str_chars};

verus! {

/// How much the programs log, from most to least verbose.
#[derive(Debug, Copy, Clone, Hash, PartialEq, Eq, PartialOrd, Ord)]
pub enum LogLevel {
    DEBUG,
    NOTICE,
    ERROR,
}

/// The level named by a command-line word: `DEBUG`, `NOTICE` or `ERROR`; any other word means `NOTICE`.
pub open spec fn log_level_of(raw: Seq<char>) -> LogLevel {
    if raw == "DEBUG"@ {
        LogLevel::DEBUG
    } else if raw == "NOTICE"@ {
        LogLevel::NOTICE
    } else if raw == "ERROR"@ {
        LogLevel::ERROR
    } else {
        LogLevel::NOTICE
    }
}

impl<'a> From<&'a str> for LogLevel {
    fn from(raw: &'a str) -> (r: LogLevel) {
        if str_equal(raw, "DEBUG") {
            LogLevel::DEBUG
        } else if str_equal(raw, "NOTICE") {
            LogLevel::NOTICE
        } else if str_equal(raw, "ERROR") {
            LogLevel::ERROR
        } else {
            LogLevel::NOTICE
        }
    }
}

impl<'a> vstd::std_specs::convert::FromSpecImpl<&'a str> for LogLevel {
    open spec fn obeys_from_spec() -> bool {
        true
    }

    open spec fn from_spec(raw: &'a str) -> LogLevel {
        log_level_of(raw@)
    }
}

} // verus!

verus! {

/// Path of the configuration file where none is given.
pub const DEFAULT_CONFIG: &'static str = ".cyrok";

/// Log destination where none is given.
pub const DEFAULT_LOG_PATH: &'static str = "none";

/// Log level word where none is given.
pub const DEFAULT_LOG_LEVEL: &'static str = "NOTICE";

/// The options of the `cyrok` program.
#[derive(Debug, Clone, Hash, PartialEq, Eq)]
pub struct Options {
    pub config: String,
    pub logto: String,
    pub loglevel: LogLevel,
    /// The command selected on the command line, if any.
    pub command: Option<String>,
}

/// What a value of `Options` holds.
pub struct OptionsView {
    pub config: Seq<char>,
    pub logto: Seq<char>,
    pub loglevel: LogLevel,
    pub command: Option<Seq<char>>,
}

impl View for Options {
    type V = OptionsView;

    open spec fn view(&self) -> OptionsView {
        OptionsView {
            config: self.config@,
            logto: self.logto@,
            loglevel: self.loglevel,
            command: opt_chars(self.command),
        }
    }
}

/// The command that a subcommand name selects: `list`, `start` and `start_all` select themselves,
/// anything else (or no subcommand) selects none.
pub open spec fn command_of(sub: Option<Seq<char>>) -> Option<Seq<char>> {
    match sub {
        Some(s) => if s == "list"@ || s == "start"@ || s == "start_all"@ {
            Some(s)
        } else {
            None
        },
        None => None,
    }
}

/// The command that a subcommand name selects.
pub fn select_command(subcommand: Option<&str>) -> (r: Option<String>)
    ensures
        opt_chars(r) == command_of(opt_str_chars(subcommand)),
{
    match subcommand {
        Some(s) => {
            if str_equal(s, "list") || str_equal(s, "start") || str_equal(s, "start_all") {
                Some(s.to_owned())
            } else {
                None
            }
        },
        None => None,
    }
}

impl Options {
    /// The options that the parsed command-line arguments give: each missing value takes its
    /// default, the log level word is read by `LogLevel::from`. `names_given` tells whether the
    /// `start` subcommand was given its `--names`, which it must have.
    pub fn from_args(
        config: Option<&str>,
        log_path: Option<&str>,
        log_level: Option<&str>,
        subcommand: Option<&str>,
        names_given: bool,
    ) -> (r: Options)
        requires
            opt_str_chars(subcommand) == Some("start"@) ==> names_given,
        ensures
            r@.config == (match config { Some(c) => c@, None => DEFAULT_CONFIG@ }),
            r@.logto == (match log_path { Some(p) => p@, None => DEFAULT_LOG_PATH@ }),
            r@.loglevel == log_level_of(match log_level { Some(l) => l@, None => DEFAULT_LOG_LEVEL@ }),
            r@.command == command_of(opt_str_chars(subcommand)),
    {
        let level = with_default(log_level, DEFAULT_LOG_LEVEL);
        Options {
            config: with_default(config, DEFAULT_CONFIG),
            logto: with_default(log_path, DEFAULT_LOG_PATH),
            loglevel: LogLevel::from(level.as_str()),
            command: select_command(subcommand),
        }
    }

    /// The command selected on the command line, if any.
    pub fn command(&self) -> (r: &Option<String>)
        ensures
            opt_chars(*r) == self@.command,
    {
        &self.command
    }
}

} // verus!
