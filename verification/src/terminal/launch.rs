//! From a request for a session to the specification that the spawner gets.
//!
//! A local session runs the default shell as it is. A remote session runs the
//! secure-shell client with arguments assembled here; apart from those
//! arguments it is spawned like any other program.

use vstd::prelude::*;
use vstd::string::StringExecFns;
use crate::arch::shell::ShellCommand;
use crate::terminal::session_manager::{SpawnSpec, TerminalKind};
use crate::terminal::TerminalError;
use crate::text::{decimal, is_blank, opt_text, str_is_blank, texts, u16_to_decimal};

verus! {

/// The tag of a local session that names none.
pub const LOCAL_TAG: &'static str = "LOCAL";

/// The tag of a remote session that names none.
pub const UNKNOWN_TAG: &'static str = "UNKNOWN";

/// The arguments of the secure-shell client for one remote session, in this
/// order: the flag that forces a pseudo-terminal; the port flag and the port
/// in decimal, if a port is given; the identity flag and the identity file,
/// if one is given and not blank; the caller's extra arguments as given; and
/// last the target, `user@host`.
pub open spec fn ssh_arguments(
    user: Seq<char>,
    host: Seq<char>,
    port: Option<u16>,
    identity_file: Option<Seq<char>>,
    extra_args: Seq<Seq<char>>,
) -> Seq<Seq<char>> {
    seq!["-tt"@] + (match port {
        Some(p) => seq!["-p"@, decimal(p as nat)],
        None => Seq::empty(),
    }) + (match identity_file {
        Some(file) if !is_blank(file) => seq!["-i"@, file],
        _ => Seq::empty(),
    }) + extra_args + seq![user + "@"@ + host]
}

/// The tag that a session carries: the one given, else `fallback`.
pub open spec fn tag_or(tag: Option<String>, fallback: Seq<char>) -> Seq<char> {
    match tag {
        Some(t) => t@,
        None => fallback,
    }
}

/// Assembles the arguments of the secure-shell client for one remote session.
pub fn ssh_args(
    user: &str,
    host: &str,
    port: Option<u16>,
    identity_file: Option<String>,
    extra_args: Vec<String>,
) -> (args: Vec<String>)
    ensures
        texts(args@) == ssh_arguments(
            user@,
            host@,
            port,
            opt_text(identity_file),
            texts(extra_args@),
        ),
{
    let mut args: Vec<String> = Vec::new();
    args.push(String::from_str("-tt"));
    let ghost head: Seq<Seq<char>> = seq!["-tt"@];
    assert(texts(args@) =~= head);
    let ghost with_port = head + (match port {
        Some(p) => seq!["-p"@, decimal(p as nat)],
        None => Seq::empty(),
    });
    if let Some(p) = port {
        args.push(String::from_str("-p"));
        args.push(u16_to_decimal(p));
    }
    assert(texts(args@) =~= with_port);
    let ghost with_identity = with_port + (match opt_text(identity_file) {
        Some(file) if !is_blank(file) => seq!["-i"@, file],
        _ => Seq::empty(),
    });
    if let Some(file) = identity_file {
        if !str_is_blank(file.as_str()) {
            args.push(String::from_str("-i"));
            args.push(file);
        }
    }
    assert(texts(args@) =~= with_identity);
    let mut extra = extra_args;
    args.append(&mut extra);
    assert(texts(args@) =~= with_identity + texts(extra_args@));
    let target = String::from_str(user).concat("@").concat(host);
    args.push(target);
    assert(texts(args@) =~= with_identity + texts(extra_args@) + seq![user@ + "@"@ + host@]);
    args
}

impl SpawnSpec {
    /// The specification of a local session: it runs `shell` as it is, under
    /// the tag given, or `LOCAL` if none is.
    pub fn local(
        shell: ShellCommand,
        environment_tag: Option<String>,
        initial_cols: Option<u16>,
        initial_rows: Option<u16>,
    ) -> (spec: SpawnSpec)
        ensures
            spec.kind == TerminalKind::Local,
            spec.environment_tag@ == tag_or(environment_tag, LOCAL_TAG@),
            spec.initial_cols == initial_cols,
            spec.initial_rows == initial_rows,
            spec.program == shell.program,
            spec.args == shell.args,
    {
        let environment_tag = match environment_tag {
            Some(tag) => tag,
            None => String::from_str(LOCAL_TAG),
        };
        SpawnSpec {
            kind: TerminalKind::Local,
            environment_tag,
            initial_cols,
            initial_rows,
            program: shell.program,
            args: shell.args,
        }
    }

    /// The specification of a remote session: it runs the secure-shell
    /// client `program` with the arguments that `ssh_arguments` describes,
    /// under the tag given, or `UNKNOWN` if none is.
    pub fn ssh(
        program: String,
        user: &str,
        host: &str,
        port: Option<u16>,
        identity_file: Option<String>,
        extra_args: Vec<String>,
        environment_tag: Option<String>,
        initial_cols: Option<u16>,
        initial_rows: Option<u16>,
    ) -> (spec: SpawnSpec)
        ensures
            spec.kind == TerminalKind::Ssh,
            spec.environment_tag@ == tag_or(environment_tag, UNKNOWN_TAG@),
            spec.initial_cols == initial_cols,
            spec.initial_rows == initial_rows,
            spec.program == program,
            texts(spec.args@) == ssh_arguments(
                user@,
                host@,
                port,
                opt_text(identity_file),
                texts(extra_args@),
            ),
    {
        let args = ssh_args(user, host, port, identity_file, extra_args);
        let environment_tag = match environment_tag {
            Some(tag) => tag,
            None => String::from_str(UNKNOWN_TAG),
        };
        SpawnSpec {
            kind: TerminalKind::Ssh,
            environment_tag,
            initial_cols,
            initial_rows,
            program,
            args,
        }
    }

    /// The specification of a remote session, given how the search for the
    /// secure-shell client ended: with the program, or with the message of
    /// why there is none. Without a client the answer is a `Backend` error
    /// that carries the message, before anything is spawned.
    pub fn ssh_with(
        client: Result<String, String>,
        user: &str,
        host: &str,
        port: Option<u16>,
        identity_file: Option<String>,
        extra_args: Vec<String>,
        environment_tag: Option<String>,
        initial_cols: Option<u16>,
        initial_rows: Option<u16>,
    ) -> (r: Result<SpawnSpec, TerminalError>)
        ensures
            match client {
                Ok(program) => {
                    &&& r matches Ok(spec)
                    &&& spec.kind == TerminalKind::Ssh
                    &&& spec.environment_tag@ == tag_or(environment_tag, UNKNOWN_TAG@)
                    &&& spec.initial_cols == initial_cols
                    &&& spec.initial_rows == initial_rows
                    &&& spec.program == program
                    &&& texts(spec.args@) == ssh_arguments(
                        user@,
                        host@,
                        port,
                        opt_text(identity_file),
                        texts(extra_args@),
                    )
                },
                Err(msg) => r == Err::<SpawnSpec, TerminalError>(TerminalError::Backend(msg)),
            },
    {
        match client {
            Ok(program) => Ok(
                SpawnSpec::ssh(
                    program,
                    user,
                    host,
                    port,
                    identity_file,
                    extra_args,
                    environment_tag,
                    initial_cols,
                    initial_rows,
                ),
            ),
            Err(msg) => Err(TerminalError::Backend(msg)),
        }
    }
}

} // verus!
