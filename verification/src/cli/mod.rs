//! The command line: global options, subcommands and their arguments, and
//! what the program reports.

pub mod config_cmd;
pub mod daemon_cmd;
pub mod exit_codes;
pub mod json;
pub mod status_cmd;

pub use config_cmd::ConfigCmd;
pub use daemon_cmd::DaemonCmd;
pub use status_cmd::StatusCmd;

use vstd::prelude::*;

verus! {

/// The parsed command line.
#[derive(Debug)]
pub struct Cli {
    /// Verbosity (-v, -vv, -vvv for increasing levels)
    pub verbose: u8,
    /// Output in JSON format for machine parsing
    pub json: bool,
    /// Suppress all output except errors
    pub quiet: bool,
    /// The subcommand, if one was given
    pub command: Option<Command>,
}

/// Available subcommands.
#[derive(Debug)]
pub enum Command {
    /// Run the daemon (this is the default if no subcommand is given)
    Daemon(DaemonCmd),
    /// Manage configuration settings
    Config(ConfigCmd),
    /// Check daemon and device status
    Status(StatusCmd),
    /// Show version information
    Version,
}

/// The log level of the verbosity options: `error` when quiet, otherwise
/// `info`, `debug` for one `-v`, `trace` for more.
pub open spec fn log_level_for(quiet: bool, verbose: u8) -> Seq<char> {
    if quiet {
        "error"@
    } else if verbose == 0 {
        "info"@
    } else if verbose == 1 {
        "debug"@
    } else {
        "trace"@
    }
}

impl Cli {
    /// The log level that the verbosity options select.
    pub fn log_level(&self) -> (l: &'static str)
        ensures
            l@ == log_level_for(self.quiet, self.verbose),
    {
        if self.quiet {
            "error"
        } else {
            match self.verbose {
                0 => "info",
                1 => "debug",
                _ => "trace",
            }
        }
    }
}

/// How the program reports: as JSON or as text.
#[derive(Debug, Clone, Copy)]
pub struct Output {
    /// Whether to output in JSON format
    pub json: bool,
}

impl Output {
    /// An output in JSON (`true`) or text form.
    pub fn new(json: bool) -> (o: Self)
        ensures
            o.json == json,
    {
        Output { json }
    }
}

} // verus!
