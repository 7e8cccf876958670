//! Log levels and the size-based rotation of the log file.

use crate::config::{ascii_lower, ascii_lowercase};
use crate::text::{cat, format_u32, nat_text, pad_right, pad_right_exec, str_eq};
use vstd::prelude::*;

verus! {

/// How much is logged.
#[derive(Debug, Clone, Copy, PartialEq, Eq, Structural)]
pub enum LogLevel {
    Error,
    Warn,
    Info,
    Debug,
    Trace,
}

/// The level a configured name selects, compared without regard to case;
/// an unknown name selects `Info`.  (No character outside ASCII lowers to
/// a letter of these names, so ASCII lowering is what Unicode lowering
/// gives here.)
pub open spec fn level_named(name: Seq<char>) -> LogLevel {
    let l = ascii_lower(name);
    if l == "error"@ {
        LogLevel::Error
    } else if l == "warn"@ {
        LogLevel::Warn
    } else if l == "info"@ {
        LogLevel::Info
    } else if l == "debug"@ {
        LogLevel::Debug
    } else if l == "trace"@ {
        LogLevel::Trace
    } else {
        LogLevel::Info
    }
}

/// The level a configured name selects.
pub fn parse_level(level: &str) -> (l: LogLevel)
    ensures
        l == level_named(level@),
{
    let lower = ascii_lowercase(level);
    let s = lower.as_str();
    if str_eq(s, "error") {
        LogLevel::Error
    } else if str_eq(s, "warn") {
        LogLevel::Warn
    } else if str_eq(s, "info") {
        LogLevel::Info
    } else if str_eq(s, "debug") {
        LogLevel::Debug
    } else if str_eq(s, "trace") {
        LogLevel::Trace
    } else {
        LogLevel::Info
    }
}

/// Bytes in a mebibyte.
pub const BYTES_PER_MB: u64 = 1024 * 1024;

/// The size limit in bytes of a limit in mebibytes.
pub fn max_size_bytes(max_size_mb: u32) -> (b: u64)
    ensures
        b == max_size_mb * BYTES_PER_MB,
{
    (max_size_mb as u64) * BYTES_PER_MB
}

/// Whether writing `len` more bytes to a file of `current_size` bytes
/// passes the limit, so the file is rotated first.
pub fn needs_rotation(current_size: u64, len: u64, max_size: u64) -> (b: bool)
    requires
        current_size + len <= u64::MAX,
    ensures
        b == (current_size + len > max_size),
{
    current_size + len > max_size
}

/// The name of the `n`th rotated file of the log file `name`: `name.n`.
pub fn rotated_file_name(name: &str, n: u32) -> (r: String)
    ensures
        r@ == name@ + "."@ + nat_text(n as nat),
{
    cat(cat(name.to_owned(), "."), format_u32(n).as_str())
}

/// The renames that shift rotated files up by one before a rotation, in
/// order: file `k` becomes file `k + 1`, from `keep_files - 1` down to 1.
/// (The file numbered `keep_files` is removed next, and the current file
/// becomes file 1.)
pub open spec fn shift_plan(keep_files: u32) -> Seq<(u32, u32)> {
    if keep_files <= 1 {
        seq![]
    } else {
        Seq::new(
            (keep_files - 1) as nat,
            |k: int| ((keep_files - 1 - k) as u32, (keep_files - k) as u32),
        )
    }
}

/// The renames that shift rotated files up by one before a rotation.
pub fn rotation_shifts(keep_files: u32) -> (plan: Vec<(u32, u32)>)
    ensures
        plan@ == shift_plan(keep_files),
{
    let mut plan: Vec<(u32, u32)> = Vec::new();
    if keep_files <= 1 {
        return plan;
    }
    let mut i: u32 = keep_files - 1;
    while i >= 1
        invariant
            keep_files > 1,
            i < keep_files,
            plan@.len() == keep_files - 1 - i,
            forall|k: int|
                0 <= k < plan@.len() ==> #[trigger] plan@[k] == ((keep_files - 1 - k) as u32, (
                keep_files - k) as u32),
        decreases i,
    {
        plan.push((i, i + 1));
        i = i - 1;
    }
    assert(plan@ =~= shift_plan(keep_files));
    plan
}

/// The name of a level in a log line.
pub open spec fn level_label(l: LogLevel) -> Seq<char> {
    match l {
        LogLevel::Error => "ERROR"@,
        LogLevel::Warn => "WARN"@,
        LogLevel::Info => "INFO"@,
        LogLevel::Debug => "DEBUG"@,
        LogLevel::Trace => "TRACE"@,
    }
}

/// The terminal color of a level on the console.
pub open spec fn level_color(l: LogLevel) -> Seq<char> {
    match l {
        LogLevel::Error => "\x1b[31m"@,
        LogLevel::Warn => "\x1b[33m"@,
        LogLevel::Info => "\x1b[32m"@,
        LogLevel::Debug => "\x1b[36m"@,
        LogLevel::Trace => "\x1b[90m"@,
    }
}

/// A log line: `[timestamp] [LEVEL] [target] message` and a line feed, the
/// level name padded to five columns.
pub open spec fn log_line(timestamp: Seq<char>, l: LogLevel, target: Seq<char>, message: Seq<char>) -> Seq<char> {
    "["@ + timestamp + "] ["@ + pad_right(level_label(l), 5) + "] ["@ + target + "] "@ + message
        + "\n"@
}

/// A console line: the log line, in the level's color on a terminal.
pub open spec fn console_line_spec(
    timestamp: Seq<char>,
    l: LogLevel,
    target: Seq<char>,
    message: Seq<char>,
    is_tty: bool,
) -> Seq<char> {
    if is_tty {
        level_color(l) + "["@ + timestamp + "] ["@ + pad_right(level_label(l), 5) + "] ["@ + target
            + "] "@ + message + "\x1b[0m"@ + "\n"@
    } else {
        log_line(timestamp, l, target, message)
    }
}

fn level_label_exec(l: LogLevel) -> (s: &'static str)
    ensures
        s@ == level_label(l),
{
    match l {
        LogLevel::Error => "ERROR",
        LogLevel::Warn => "WARN",
        LogLevel::Info => "INFO",
        LogLevel::Debug => "DEBUG",
        LogLevel::Trace => "TRACE",
    }
}

fn level_color_exec(l: LogLevel) -> (s: &'static str)
    ensures
        s@ == level_color(l),
{
    match l {
        LogLevel::Error => "\x1b[31m",
        LogLevel::Warn => "\x1b[33m",
        LogLevel::Info => "\x1b[32m",
        LogLevel::Debug => "\x1b[36m",
        LogLevel::Trace => "\x1b[90m",
    }
}

/// The line a log record is written as in the log file (text form).
pub fn file_line(timestamp: &str, l: LogLevel, target: &str, message: &str) -> (s: String)
    ensures
        s@ == log_line(timestamp@, l, target@, message@),
{
    let s = cat(cat("[".to_owned(), timestamp), "] [");
    let s = cat(cat(s, pad_right_exec(level_label_exec(l), 5).as_str()), "] [");
    cat(cat(cat(cat(s, target), "] "), message), "\n")
}

/// The line a log record is written as on the console.
pub fn console_line(timestamp: &str, l: LogLevel, target: &str, message: &str, is_tty: bool) -> (s:
    String)
    ensures
        s@ == console_line_spec(timestamp@, l, target@, message@, is_tty),
{
    if is_tty {
        let s = cat(cat(cat(level_color_exec(l).to_owned(), "["), timestamp), "] [");
        let s = cat(cat(s, pad_right_exec(level_label_exec(l), 5).as_str()), "] [");
        cat(cat(cat(cat(cat(s, target), "] "), message), "\x1b[0m"), "\n")
    } else {
        file_line(timestamp, l, target, message)
    }
}

/// Whether console output gets colors: never when `NO_COLOR` is set;
/// otherwise when `TERM` names a terminal (set, not empty, not `dumb`) or
/// one of the other variables that announce color support is set.
pub open spec fn colors_wanted(no_color: bool, term: Option<Seq<char>>, other_color_hint: bool) -> bool {
    if no_color {
        false
    } else {
        (term matches Some(t) && t.len() > 0 && t != "dumb"@) || other_color_hint
    }
}

/// Whether console output gets colors, from the environment: whether
/// `NO_COLOR` is set, the value of `TERM`, and whether any of `COLORTERM`,
/// `WT_SESSION`, `ANSICON`, `CLICOLOR`, `FORCE_COLOR` is set.
pub fn colors_supported(no_color: bool, term: Option<&str>, other_color_hint: bool) -> (b: bool)
    ensures
        b == colors_wanted(no_color, match term {
            Some(t) => Some(t@),
            None => None,
        }, other_color_hint),
{
    if no_color {
        return false;
    }
    let term_ok = match term {
        Some(t) => t.unicode_len() > 0 && !str_eq(t, "dumb"),
        None => false,
    };
    term_ok || other_color_hint
}

} // verus!
