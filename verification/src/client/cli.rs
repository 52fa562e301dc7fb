//! The command line of the tunnel client.
use vstd::prelude::*;
use crate::cli::{command_of, select_command};
use crate::text::{with_default, str_equal, opt_chars, opt_str_chars};

verus! {

/// Log destination where none is given.
pub const DEFAULT_LOG_PATH: &'static str = "none";

/// Log level where none is given.
pub const DEFAULT_LOG_LEVEL: &'static str = "NOTICE";

/// Path of the configuration file where none is given.
pub const DEFAULT_CONFIG: &'static str = ".cyrok";

/// The options of the tunnel client.
#[derive(Debug, PartialEq, Eq)]
pub struct Options {
    pub configpath: String,
    pub logpath: String,
    pub loglevel: String,
    /// The command and, for `start`, the names of the tunnels to start.
    pub command: (Option<String>, Option<Vec<String>>),
}

impl Options {
    /// The options that the parsed command-line arguments give: each missing value takes its
    /// default; the subcommand selects the command, and `start` carries the tunnel names
    /// given to it, which it must have.
    pub fn from_args(
        config: Option<&str>,
        log_path: Option<&str>,
        log_level: Option<&str>,
        subcommand: Option<&str>,
        start_names: Option<Vec<String>>,
    ) -> (r: Options)
        requires
            opt_str_chars(subcommand) == Some("start"@) ==> start_names is Some,
        ensures
            r.configpath@ == (match config { Some(c) => c@, None => DEFAULT_CONFIG@ }),
            r.logpath@ == (match log_path { Some(p) => p@, None => DEFAULT_LOG_PATH@ }),
            r.loglevel@ == (match log_level { Some(l) => l@, None => DEFAULT_LOG_LEVEL@ }),
            opt_chars(r.command.0) == command_of(opt_str_chars(subcommand)),
            r.command.1 == (if opt_str_chars(subcommand) == Some("start"@) { start_names } else { None }),
    {
        let command = select_command(subcommand);
        let names = match subcommand {
            Some(s) => if str_equal(s, "start") { start_names } else { None },
            None => None,
        };
        Options {
            configpath: with_default(config, DEFAULT_CONFIG),
            logpath: with_default(log_path, DEFAULT_LOG_PATH),
            loglevel: with_default(log_level, DEFAULT_LOG_LEVEL),
            command: (command, names),
        }
    }
}

} // verus!
