//! Arguments of the `daemon` subcommand, and the settings they override.

use crate::config::{Config, DaemonConfig};
use std::path::PathBuf;
use vstd::prelude::*;

verus! {

/// `std::path::PathBuf`, carried through without looking inside.
#[verifier::external_type_specification]
#[verifier::external_body]
pub struct ExPathBuf(PathBuf);

/// Options of the daemon.
#[derive(Debug, Clone)]
pub struct DaemonCmd {
    /// Path to configuration file (default: ~/.config/surface-dial/config.toml)
    pub config: Option<PathBuf>,
    /// Run in foreground (don't daemonize)
    pub foreground: bool,
    /// Override log level (error, warn, info, debug, trace)
    pub log_level: Option<String>,
    /// Disable file logging
    pub no_log_file: bool,
}

impl Default for DaemonCmd {
    fn default() -> (c: Self)
        ensures
            c.config is None,
            !c.foreground,
            c.log_level is None,
            !c.no_log_file,
    {
        DaemonCmd { config: None, foreground: false, log_level: None, no_log_file: false }
    }
}

impl DaemonCmd {
    /// The configuration with the command-line overrides applied: a given
    /// log level replaces the configured one, and `--no-log-file` turns file
    /// logging off.
    pub fn apply_overrides(&self, config: &mut Config)
        ensures
            *final(config) == (Config {
                daemon: DaemonConfig {
                    log_level: match self.log_level {
                        Some(l) => l,
                        None => old(config).daemon.log_level,
                    },
                    log_file_enabled: if self.no_log_file {
                        false
                    } else {
                        old(config).daemon.log_file_enabled
                    },
                    ..old(config).daemon
                },
                ..*old(config)
            }),
    {
        if let Some(level) = &self.log_level {
            config.daemon.log_level = level.clone();
        }
        if self.no_log_file {
            config.daemon.log_file_enabled = false;
        }
    }
}

} // verus!
