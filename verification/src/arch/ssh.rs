//! The secure-shell client of a remote session.
//!
//! The caller looks at the environment, the search path and the file system;
//! the functions here choose among what was found and word the failure.

use vstd::prelude::*;
use vstd::string::StringExecFns;
use crate::text::{chars_of, contains_char, opt_text, string_of_range, trim, trim_bounds};

verus! {

/// The client program: the override from the environment, trimmed, if it is
/// set and not blank; else `ssh` as found on the search path; else the
/// system's own OpenSSH client if it exists; else the bare name `ssh`.
pub open spec fn ssh_program_choice(
    env_override: Option<Seq<char>>,
    on_path: Option<Seq<char>>,
    system_client: Option<Seq<char>>,
) -> Seq<char> {
    match env_override {
        Some(p) if trim(p).len() > 0 => trim(p),
        _ => match on_path {
            Some(p) => p,
            None => match system_client {
                Some(p) => p,
                None => "ssh"@,
            },
        },
    }
}

/// Whether a program is given as a path (it holds a slash or a backslash)
/// rather than as a bare name to look up.
pub open spec fn names_a_path(program: Seq<char>) -> bool {
    program.contains('\\') || program.contains('/')
}

/// What is reported when the client cannot be used.
pub open spec fn ssh_missing_message(program: Seq<char>) -> Seq<char> {
    if names_a_path(program) {
        "ssh binary not found at path: "@ + program
    } else {
        "ssh binary not found. Install OpenSSH client or set OPSPAD_SSH to a full path."@
    }
}

/// The client program to run. `env_override` is the value of the
/// `OPSPAD_SSH` variable, `on_path` where the search path has `ssh`,
/// `system_client` the system's own OpenSSH client where the platform has a
/// standard place for one and it exists.
pub fn ssh_program_from(
    env_override: Option<String>,
    on_path: Option<String>,
    system_client: Option<String>,
) -> (r: String)
    ensures
        r@ == ssh_program_choice(
            opt_text(env_override),
            opt_text(on_path),
            opt_text(system_client),
        ),
{
    if let Some(p) = env_override {
        let v = chars_of(p.as_str());
        let (a, b) = trim_bounds(&v);
        if a < b {
            return string_of_range(&v, a, b);
        }
    }
    if let Some(p) = on_path {
        return p;
    }
    if let Some(p) = system_client {
        return p;
    }
    String::from_str("ssh")
}

/// Tells whether `program` is given as a path. The caller checks a path for
/// existence, and looks a bare name up on the search path.
pub fn is_path(program: &str) -> (r: bool)
    ensures
        r == names_a_path(program@),
{
    contains_char(program, '\\') || contains_char(program, '/')
}

/// The client program if it is available, else the message to report.
/// `available` says what the caller's check of `program` found.
pub fn ssh_program_checked_from(program: String, available: bool) -> (r: Result<String, String>)
    ensures
        match r {
            Ok(p) => available && p == program,
            Err(msg) => !available && msg@ == ssh_missing_message(program@),
        },
{
    if available {
        return Ok(program);
    }
    if is_path(program.as_str()) {
        Err(String::from_str("ssh binary not found at path: ").concat(program.as_str()))
    } else {
        Err(
            String::from_str(
                "ssh binary not found. Install OpenSSH client or set OPSPAD_SSH to a full path.",
            ),
        )
    }
}

} // verus!
