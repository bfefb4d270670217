//! The shell of a new local session.
//!
//! The caller looks at the environment and the search path; the functions
//! here choose among what was found.

use vstd::prelude::*;
use vstd::string::StringExecFns;
use crate::text::{is_blank, opt_text, str_is_blank, texts};

verus! {

/// A program to run, with its arguments.
#[derive(Clone, Debug)]
pub struct ShellCommand {
    pub program: String,
    pub args: Vec<String>,
}

impl ShellCommand {
    /// The command that runs `program` with `args`.
    pub fn new(program: String, args: Vec<String>) -> (r: Self)
        ensures
            r.program == program,
            r.args == args,
    {
        ShellCommand { program, args }
    }
}

/// The shell program on a Unix-like system: the user's shell from the
/// environment if that is set and not blank, else `zsh` as found on the search
/// path, else the bare name `zsh`.
pub open spec fn unix_shell_program(
    shell_env: Option<Seq<char>>,
    zsh_on_path: Option<Seq<char>>,
) -> Seq<char> {
    match shell_env {
        Some(shell) if !is_blank(shell) => shell,
        _ => match zsh_on_path {
            Some(path) => path,
            None => "zsh"@,
        },
    }
}

/// The shell program on Windows: PowerShell 7 as found on the search path,
/// else Windows PowerShell as found there, else the first of the known
/// install locations that exist, else the bare name `powershell`.
pub open spec fn windows_shell_program(
    pwsh_on_path: Option<Seq<char>>,
    powershell_on_path: Option<Seq<char>>,
    known_locations: Seq<Seq<char>>,
) -> Seq<char> {
    match pwsh_on_path {
        Some(path) => path,
        None => match powershell_on_path {
            Some(path) => path,
            None => if known_locations.len() > 0 {
                known_locations[0]
            } else {
                "powershell"@
            },
        },
    }
}

/// The default shell on a Unix-like system, run without arguments.
/// `shell_env` is the value of the `SHELL` variable, `zsh_on_path` where the
/// search path has `zsh`.
pub fn unix_default_shell(shell_env: Option<String>, zsh_on_path: Option<String>) -> (r:
    ShellCommand)
    ensures
        r.program@ == unix_shell_program(
            opt_text(shell_env),
            opt_text(zsh_on_path),
        ),
        r.args@.len() == 0,
{
    if let Some(shell) = shell_env {
        if !str_is_blank(shell.as_str()) {
            return ShellCommand::new(shell, Vec::new());
        }
    }
    match zsh_on_path {
        Some(path) => ShellCommand::new(path, Vec::new()),
        None => ShellCommand::new(String::from_str("zsh"), Vec::new()),
    }
}

/// The default shell on Windows, run without arguments. `pwsh_on_path` and
/// `powershell_on_path` are where the search path has the two programs,
/// `known_locations` the standard install locations that exist, in order of
/// preference.
pub fn windows_default_shell(
    pwsh_on_path: Option<String>,
    powershell_on_path: Option<String>,
    known_locations: Vec<String>,
) -> (r: ShellCommand)
    ensures
        r.program@ == windows_shell_program(
            opt_text(pwsh_on_path),
            opt_text(powershell_on_path),
            texts(known_locations@),
        ),
        r.args@.len() == 0,
{
    if let Some(path) = pwsh_on_path {
        return ShellCommand::new(path, Vec::new());
    }
    if let Some(path) = powershell_on_path {
        return ShellCommand::new(path, Vec::new());
    }
    if known_locations.len() > 0 {
        let first = known_locations[0].clone();
        return ShellCommand::new(first, Vec::new());
    }
    ShellCommand::new(String::from_str("powershell"), Vec::new())
}

} // verus!
