//! Arguments of the `config` subcommand: show, get, set, reset, path.

use crate::cli::exit_codes::INVALID_ARGS;
use crate::config::{
    default_setting, key_section_of, section_lookup, unknown_section_text, Config, ConfigError,
    ConfigFault, ConfigKey, Section, WebhookConfig,
};
use crate::text::cat;
use vstd::prelude::*;

verus! {

/// Configuration management commands.
#[derive(Debug, Clone)]
pub enum ConfigCmd {
    /// Show all configuration settings
    Show,
    /// Get a specific configuration value
    Get(GetArgs),
    /// Set a configuration value (`config set`)
    SetValue(SetArgs),
    /// Reset configuration to defaults
    Reset(ResetArgs),
    /// Show configuration file path
    Path,
}

/// Arguments of `config get`.
#[derive(Debug, Clone)]
pub struct GetArgs {
    /// Configuration key (e.g., volume.step_min, daemon.log_level)
    pub key: String,
}

/// Arguments of `config set`.
#[derive(Debug, Clone)]
pub struct SetArgs {
    /// Configuration key (e.g., volume.step_min, daemon.log_level)
    pub key: String,
    /// Value to set
    pub value: String,
    /// Don't save to file, just show what would change
    pub dry_run: bool,
}

/// Arguments of `config reset`.
#[derive(Debug, Clone)]
pub struct ResetArgs {
    /// Reset specific section only (volume, microphone, daemon, etc.)
    pub section: Option<String>,
    /// Force reset without confirmation
    pub force: bool,
}

/// What a configuration error says.
pub open spec fn fault_text(f: ConfigFault) -> Seq<char> {
    match f {
        ConfigFault::UnknownKey(k) => "Unknown config key: "@ + k,
        ConfigFault::InvalidValue(k, m) => "Invalid value for "@ + k + ": "@ + m,
        ConfigFault::TypeMismatch(k, e, g) => "Type mismatch for "@ + k + ": expected "@ + e
            + ", got "@ + g,
        ConfigFault::FloatSetting(k, v, _, _) => "Type mismatch for "@ + k + ": expected "@
            + "float"@ + ", got "@ + v,
    }
}

/// The message of a configuration error.
pub fn describe_error(e: &ConfigError) -> (s: String)
    ensures
        s@ == fault_text(e@),
{
    match e {
        ConfigError::UnknownKey(k) => cat("Unknown config key: ".to_owned(), k.as_str()),
        ConfigError::InvalidValue { key, message } => cat(
            cat(cat("Invalid value for ".to_owned(), key.as_str()), ": "),
            message.as_str(),
        ),
        ConfigError::TypeMismatch { key, expected, got } => cat(
            cat(
                cat(cat(cat("Type mismatch for ".to_owned(), key.as_str()), ": expected "), expected.as_str()),
                ", got ",
            ),
            got.as_str(),
        ),
        ConfigError::FloatSetting { key, value, .. } => cat(
            cat(
                cat(cat(cat("Type mismatch for ".to_owned(), key.as_str()), ": expected "), "float"),
                ", got ",
            ),
            value.as_str(),
        ),
    }
}

/// What a configuration subcommand reports.
pub enum CommandReport {
    /// Success: the message, and whether the configuration is saved first
    Done { message: String, save: bool },
    /// Failure: the exit code and the message
    Failed { code: i32, message: String },
}

/// Whether `r` is a success with message `m`, saving when `save`.
pub open spec fn done_with(r: CommandReport, m: Seq<char>, save: bool) -> bool {
    r matches CommandReport::Done { message, save: s } && message@ == m && s == save
}

/// Whether `r` is a failure with exit code `code` and message `m`.
pub open spec fn failed_with(r: CommandReport, code: i32, m: Seq<char>) -> bool {
    r matches CommandReport::Failed { code: c, message } && c == code && message@ == m
}

/// The report of `config set` for the result of setting `key` to `value`:
/// on success the change (saved unless it is a dry run), otherwise the
/// error as invalid arguments.
pub fn set_report(key: &str, value: &str, dry_run: bool, result: &Result<(), ConfigError>) -> (r:
    CommandReport)
    ensures
        match result {
            Ok(()) => done_with(
                r,
                (if dry_run {
                    "Would set "@
                } else {
                    "Set "@
                }) + key@ + " = "@ + value@,
                !dry_run,
            ),
            Err(e) => failed_with(
                r,
                INVALID_ARGS,
                "Failed to set '"@ + key@ + "': "@ + fault_text(e@),
            ),
        },
{
    match result {
        Ok(()) => {
            let lead = if dry_run {
                "Would set ".to_owned()
            } else {
                "Set ".to_owned()
            };
            let message = cat(cat(cat(lead, key), " = "), value);
            CommandReport::Done { message, save: !dry_run }
        },
        Err(e) => {
            let message = cat(
                cat(cat("Failed to set '".to_owned(), key), "': "),
                describe_error(e).as_str(),
            );
            CommandReport::Failed { code: INVALID_ARGS, message }
        },
    }
}

/// The message of `config get` when reading `key` failed.
pub fn get_failure(key: &str, e: &ConfigError) -> (m: String)
    ensures
        m@ == "Failed to get '"@ + key@ + "': "@ + fault_text(e@),
{
    cat(cat(cat("Failed to get '".to_owned(), key), "': "), describe_error(e).as_str())
}

/// Whether `c` holds the default value of every setting.
pub open spec fn is_default(c: Config) -> bool {
    &&& forall|k: ConfigKey| #[trigger] c.setting(k) == default_setting(k)
    &&& c.battery.warning_thresholds@ == seq![20i32, 10i32, 5i32]
    &&& c.events.webhooks@ == Seq::<WebhookConfig>::empty()
}

/// Whether `new` is `old` with section `sec` back at its defaults.
pub open spec fn section_reset(old: Config, new: Config, sec: Section) -> bool {
    &&& forall|k: ConfigKey| #[trigger]
        new.setting(k) == if key_section_of(k) == sec {
            default_setting(k)
        } else {
            old.setting(k)
        }
    &&& new.battery.warning_thresholds@ == if sec == Section::Battery {
        seq![20i32, 10i32, 5i32]
    } else {
        old.battery.warning_thresholds@
    }
    &&& new.events.webhooks@ == if sec == Section::Events {
        Seq::<WebhookConfig>::empty()
    } else {
        old.events.webhooks@
    }
}

/// `config reset` on `config`: refused without `--force`; with a section,
/// that section back at its defaults (an unknown section is an invalid
/// argument); without one, the whole configuration.
pub fn reset_config_in(config: &mut Config, section: Option<&str>, force: bool) -> (r:
    CommandReport)
    ensures
        !force ==> failed_with(r, INVALID_ARGS, "Reset requires --force flag to confirm"@)
            && *final(config) == *old(config),
        force && section is None ==> done_with(r, "Reset all configuration to defaults"@, true)
            && is_default(*final(config)),
        force ==> (section matches Some(s) ==> match section_lookup(s@) {
            Some(sec) => done_with(r, "Reset section '"@ + s@ + "' to defaults"@, true)
                && section_reset(*old(config), *final(config), sec),
            None => failed_with(
                r,
                INVALID_ARGS,
                "Failed to reset section '"@ + s@ + "': "@ + fault_text(
                    ConfigFault::UnknownKey(unknown_section_text(s@)),
                ),
            ) && *final(config) == *old(config),
        }),
{
    if !force {
        return CommandReport::Failed {
            code: INVALID_ARGS,
            message: "Reset requires --force flag to confirm".to_owned(),
        };
    }
    match section {
        Some(s) => match config.reset_section(s) {
            Ok(()) => CommandReport::Done {
                message: cat(cat("Reset section '".to_owned(), s), "' to defaults"),
                save: true,
            },
            Err(e) => CommandReport::Failed {
                code: INVALID_ARGS,
                message: cat(
                    cat(cat("Failed to reset section '".to_owned(), s), "': "),
                    describe_error(&e).as_str(),
                ),
            },
        },
        None => {
            *config = Config::default();
            assert(config.events.webhooks@ =~= Seq::<WebhookConfig>::empty());
            CommandReport::Done {
                message: "Reset all configuration to defaults".to_owned(),
                save: true,
            }
        },
    }
}

} // verus!
