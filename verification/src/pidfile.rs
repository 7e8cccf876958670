//! What a PID file holds: the daemon's process id, in decimal, surrounded
//! by white space at most.

use crate::platform::is_space;
use crate::text::{is_digit, lemma_nat_text_digits, lemma_parse_format_u32, nat_text, parse_u32, parse_u32_spec};
use std::io;
use vstd::prelude::*;

verus! {

/// `std::io::Error`, carried through without looking inside.
#[verifier::external_type_specification]
#[verifier::external_body]
pub struct ExIoError(io::Error);

/// Errors of PID file operations.
#[derive(Debug)]
pub enum PidFileError {
    /// Another instance of the daemon is already running
    AlreadyRunning(u32),
    /// Failed to create or write the PID file
    CreateFailed(io::Error),
    /// PID file exists but contains invalid data
    InvalidContents(String),
    /// Failed to create parent directory
    DirectoryError(io::Error),
}

/// `s` without leading white space.
pub open spec fn trim_start(s: Seq<char>) -> Seq<char>
    decreases s.len(),
{
    if s.len() > 0 && is_space(s[0]) {
        trim_start(s.drop_first())
    } else {
        s
    }
}

/// `s` without trailing white space.
pub open spec fn trim_end(s: Seq<char>) -> Seq<char>
    decreases s.len(),
{
    if s.len() > 0 && is_space(s.last()) {
        trim_end(s.drop_last())
    } else {
        s
    }
}

/// `s` without leading and trailing white space (`str::trim`).
pub open spec fn trim(s: Seq<char>) -> Seq<char> {
    trim_end(trim_start(s))
}

/// The process id a PID file holds: its contents, trimmed, as a `u32`.
pub open spec fn pid_in(contents: Seq<char>) -> Option<u32> {
    parse_u32_spec(trim(contents))
}

proof fn lemma_trim_start_skip(s: Seq<char>, i: int)
    requires
        0 <= i <= s.len(),
        forall|j: int| 0 <= j < i ==> is_space(#[trigger] s[j]),
    ensures
        trim_start(s) == trim_start(s.subrange(i, s.len() as int)),
    decreases i,
{
    if i > 0 {
        lemma_trim_start_skip(s.drop_first(), i - 1);
        assert(s.drop_first().subrange(i - 1, s.drop_first().len() as int) =~= s.subrange(
            i,
            s.len() as int,
        ));
    } else {
        assert(s.subrange(0, s.len() as int) =~= s);
    }
}

/// `s` trimmed (`str::trim`).
pub fn trim_str(s: &str) -> (r: &str)
    ensures
        r@ == trim(s@),
{
    let n = s.unicode_len();
    let mut start: usize = 0;
    while start < n && is_space_char(s.get_char(start))
        invariant
            n == s@.len(),
            start <= n,
            forall|j: int| 0 <= j < start ==> is_space(#[trigger] s@[j]),
        decreases n - start,
    {
        start = start + 1;
    }
    proof {
        lemma_trim_start_skip(s@, start as int);
    }
    let ghost rest = s@.subrange(start as int, n as int);
    assert(trim_start(rest) == rest);
    let mut end: usize = n;
    assert(rest.subrange(0, (end - start) as int) =~= rest);
    while end > start && is_space_char(s.get_char(end - 1))
        invariant
            n == s@.len(),
            start <= end <= n,
            rest == s@.subrange(start as int, n as int),
            trim_end(rest) == trim_end(s@.subrange(start as int, end as int)),
        decreases end - start,
    {
        assert(s@.subrange(start as int, end as int).drop_last() =~= s@.subrange(
            start as int,
            end - 1,
        ));
        end = end - 1;
    }
    s.substring_char(start, end)
}

fn is_space_char(c: char) -> (b: bool)
    ensures
        b == is_space(c),
{
    crate::platform::is_space_exec(c)
}

/// The process id that PID file contents hold, or `InvalidContents` with
/// the contents as they were.
pub fn parse_pid_contents(contents: String) -> (r: Result<u32, PidFileError>)
    ensures
        match pid_in(contents@) {
            Some(p) => r matches Ok(q) && q == p,
            None => r matches Err(PidFileError::InvalidContents(c)) && c@ == contents@,
        },
{
    let parsed = parse_u32(trim_str(contents.as_str()));
    match parsed {
        Some(p) => Ok(p),
        None => Err(PidFileError::InvalidContents(contents)),
    }
}

/// What is found at a PID file's path before the daemon writes its own.
#[derive(Debug, Clone, Copy, PartialEq, Eq, Structural)]
pub enum PidFileFound {
    /// No file is there
    Nothing,
    /// A file that cannot be read or holds no process id
    Invalid,
    /// A file holding this process id, and whether that process is alive
    Pid(u32, bool),
}

/// Whether what was found shows a running daemon: a file holding the id of a
/// live process.
pub open spec fn shows_running(found: PidFileFound) -> bool {
    found matches PidFileFound::Pid(_, true)
}

/// Executable `shows_running`.
pub fn daemon_running(found: PidFileFound) -> (b: bool)
    ensures
        b == shows_running(found),
{
    match found {
        PidFileFound::Pid(_, alive) => alive,
        _ => false,
    }
}

/// What creating a PID file does about the file already at its path: with
/// a live process recorded there it refuses with `AlreadyRunning` and that
/// process id; otherwise it goes on, answering whether a stale or invalid
/// file must be removed first (`false` when there is none).
pub fn existing_pid_file_action(found: PidFileFound) -> (r: Result<bool, PidFileError>)
    ensures
        match found {
            PidFileFound::Nothing => r matches Ok(remove) && !remove,
            PidFileFound::Invalid => r matches Ok(remove) && remove,
            PidFileFound::Pid(pid, alive) => if alive {
                r matches Err(PidFileError::AlreadyRunning(p)) && p == pid
            } else {
                r matches Ok(remove) && remove
            },
        },
{
    match found {
        PidFileFound::Nothing => Ok(false),
        PidFileFound::Invalid => Ok(true),
        PidFileFound::Pid(pid, alive) => if alive {
            Err(PidFileError::AlreadyRunning(pid))
        } else {
            Ok(true)
        },
    }
}

/// A PID file written as the process id in decimal and a line feed reads
/// back as that process id.
pub proof fn lemma_pid_file_roundtrip(pid: u32)
    ensures
        pid_in(nat_text(pid as nat) + "\n"@) == Some(pid),
{
    let t = nat_text(pid as nat);
    let nl = "\n"@;
    reveal_strlit("\n");
    lemma_nat_text_digits(pid as nat);
    lemma_parse_format_u32(pid);
    let s = t + nl;
    assert(!is_space(t[0])) by {
        assert(is_digit(t[0]));
    }
    assert(s[0] == t[0]);
    assert(trim_start(s) == s);
    assert(s.last() == '\n');
    assert(s.drop_last() =~= t);
    assert(!is_space(t.last())) by {
        assert(is_digit(t[t.len() - 1]));
    }
    assert(trim_end(s) == trim_end(t));
    assert(trim_end(t) == t);
}

} // verus!
