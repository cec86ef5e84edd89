//! The connection dispatcher: plans the external SSH client invocation
//! and translates its outcome.
//!
//! The dispatcher never talks to the operating system itself. It decides
//! which program is run with which argument vector — the process boundary's
//! whole wire-level contract — and how an exit status is surfaced. The
//! caller spawns or replaces the process and feeds the outcome back.

use vstd::prelude::*;
use vstd::string::StringExecFns;
use crate::dependencies::ToolStatus;
use crate::dependencies::spec_preflight;
use crate::dependencies::check_ssh_dependencies;
use crate::text::spec_dec;
use crate::text::u16_to_dec;

verus! {

/// Why a connection attempt failed.
#[derive(Debug, Clone, Copy, PartialEq, Eq)]
pub enum ConnectError {
    /// The named host is absent from the registry.
    NotFound,
    /// The user cancelled the interactive selection.
    CancelledBySelection,
    /// A required external binary is absent and could not be installed.
    MissingDependency(DependencyKind),
    /// A stored secret could not be recovered.
    DecodeFailure,
    /// The external client could not be started, or exited with the
    /// carried non-zero status.
    LaunchFailure(Option<i32>),
}

/// Which external binary a connection is missing.
#[derive(Debug, Clone, Copy, PartialEq, Eq)]
pub enum DependencyKind {
    /// The SSH client itself.
    SshClient,
    /// The non-interactive password-feeding helper.
    PasswordHelper,
}

/// One external invocation: a program and its argument vector.
#[derive(Debug)]
pub struct CommandSpec {
    pub program: String,
    pub args: Vec<String>,
}

/// The mathematical image of an invocation.
pub struct CommandSpecView {
    pub program: Seq<char>,
    pub args: Seq<Seq<char>>,
}

impl View for CommandSpec {
    type V = CommandSpecView;

    open spec fn view(&self) -> CommandSpecView {
        CommandSpecView { program: self.program@, args: self.args@.map_values(|s: String| s@) }
    }
}

/// The client's destination argument, `user@host`.
pub open spec fn spec_destination(username: Seq<char>, hostname: Seq<char>) -> Seq<char> {
    username + "@"@ + hostname
}

/// The invocation that connects to `username@hostname` on `port`: with a
/// password, the helper feeding the password and chaining to the client;
/// without one, the client directly, deferring to its own authentication.
pub open spec fn spec_ssh_command(
    hostname: Seq<char>,
    port: u16,
    username: Seq<char>,
    password: Option<Seq<char>>,
) -> CommandSpecView {
    match password {
        Some(pw) => CommandSpecView {
            program: "sshpass"@,
            args: seq![
                "-p"@,
                pw,
                "ssh"@,
                "-p"@,
                spec_dec(port as nat),
                spec_destination(username, hostname),
            ],
        },
        None => CommandSpecView {
            program: "ssh"@,
            args: seq!["-p"@, spec_dec(port as nat), spec_destination(username, hostname)],
        },
    }
}

fn destination_string(username: &str, hostname: &str) -> (r: String)
    ensures
        r@ == spec_destination(username@, hostname@),
{
    let mut r: String = username.to_owned();
    r.append("@");
    r.append(hostname);
    proof {
        assert(r@ =~= spec_destination(username@, hostname@));
    }
    r
}

/// Plans a connection: checks the preflight decision over the probed
/// tools, then builds the exact client invocation.
pub fn connect_to_host(
    hostname: &str,
    port: u16,
    username: &str,
    password: Option<&str>,
    tools: ToolStatus,
) -> (r: Result<CommandSpec, ConnectError>)
    ensures
        match spec_preflight(password is Some, tools) {
            Some(e) => r == Err::<CommandSpec, ConnectError>(e),
            None => (r matches Ok(c) && c@ == spec_ssh_command(
                hostname@,
                port,
                username@,
                match password {
                    Some(p) => Some(p@),
                    None => None,
                },
            )),
        },
{
    match check_ssh_dependencies(password.is_some(), tools) {
        Err(e) => Err(e),
        Ok(()) => {
            let mut args: Vec<String> = Vec::new();
            let program: String;
            match password {
                Some(pw) => {
                    program = "sshpass".to_owned();
                    args.push("-p".to_owned());
                    args.push(pw.to_owned());
                    args.push("ssh".to_owned());
                },
                None => {
                    program = "ssh".to_owned();
                },
            }
            args.push("-p".to_owned());
            args.push(u16_to_dec(port));
            args.push(destination_string(username, hostname));
            let c = CommandSpec { program, args };
            proof {
                let pv = match password {
                    Some(p) => Some(p@),
                    None => None::<Seq<char>>,
                };
                assert(c@.args =~= spec_ssh_command(hostname@, port, username@, pv).args);
            }
            Ok(c)
        },
    }
}

/// Translates the supervised client's exit: success passes through, any
/// failure is surfaced as a launch failure carrying the status.
pub fn interpret_exit_status(success: bool, code: Option<i32>) -> (r: Result<(), ConnectError>)
    ensures
        success ==> r == Ok::<(), ConnectError>(()),
        !success ==> r == Err::<(), ConnectError>(ConnectError::LaunchFailure(code)),
{
    if success {
        Ok(())
    } else {
        Err(ConnectError::LaunchFailure(code))
    }
}

} // verus!
