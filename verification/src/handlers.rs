//! The command handlers' decision cores: what each subcommand does to the
//! registry and what it answers, with all terminal and process work left
//! to the caller.

use vstd::prelude::*;
use vstd::string::StringExecFns;
use crate::commands::AddArgs;
use crate::config::Config;
use crate::config::HostConfig;
use crate::config::HostView;
use crate::config::lemma_lookup_characterizes_membership;
use crate::config::spec_lookup;
use crate::dependencies::ToolStatus;
use crate::dependencies::spec_preflight;
use crate::encryption::obscure;
use crate::encryption::obscured;
use crate::encryption::decrypt_password;
use crate::ssh::CommandSpec;
use crate::ssh::ConnectError;
use crate::ssh::connect_to_host;
use crate::ssh::spec_ssh_command;
use crate::text::spec_endpoint;
use crate::text::endpoint_string;

verus! {

/// What adding a host did.
#[derive(Debug, Clone, Copy, PartialEq, Eq)]
pub enum AddOutcome {
    /// The profile was appended.
    Added,
    /// A profile of that name already exists; the registry is unchanged.
    AlreadyExists,
}

/// A password as it is stored: obscured, or absent.
pub open spec fn spec_stored_password(password: Option<Seq<char>>) -> Option<Seq<char>> {
    match password {
        Some(pw) => Some(obscured(pw)),
        None => None,
    }
}

/// Adds a profile from the add subcommand's arguments: refuses a name that
/// is already registered, otherwise obscures the password and appends.
pub fn handle_add(config: &mut Config, args: AddArgs) -> (r: AddOutcome)
    requires
        old(config).wf(),
    ensures
        final(config).wf(),
        (r == AddOutcome::AlreadyExists) == (spec_lookup(old(config)@, args.name@) is Some),
        r == AddOutcome::AlreadyExists ==> final(config)@ == old(config)@,
        r == AddOutcome::Added ==> final(config)@ == old(config)@.push(
            HostView {
                name: args.name@,
                hostname: args.hostname@,
                port: args.port,
                username: args.username@,
                password: spec_stored_password(
                    match args.password {
                        Some(p) => Some(p@),
                        None => None,
                    },
                ),
            },
        ),
{
    if config.get_host(args.name.as_str()).is_some() {
        return AddOutcome::AlreadyExists;
    }
    proof {
        lemma_lookup_characterizes_membership(config@, args.name@);
    }
    let password = match args.password {
        Some(p) => Some(obscure(p.as_str())),
        None => None,
    };
    let host = HostConfig {
        name: args.name,
        hostname: args.hostname,
        port: args.port,
        username: args.username,
        password,
    };
    config.add_host(host);
    AddOutcome::Added
}

/// The text of one profile in the listing: the name, the endpoint, and a
/// note when a password is stored.
pub open spec fn spec_list_entry(h: HostView) -> Seq<char> {
    "  - "@ + h.name + ": "@ + spec_endpoint(h.username, h.hostname, h.port) + " "@ + (
    if h.password is Some {
        "(encrypted password)"@
    } else {
        Seq::<char>::empty()
    })
}

/// Renders one profile's listing line.
pub fn list_entry_line(h: &HostConfig) -> (r: String)
    ensures
        r@ == spec_list_entry(h@),
{
    let mut r: String = "  - ".to_owned();
    r.append(h.name.as_str());
    r.append(": ");
    let ep = endpoint_string(h.username.as_str(), h.hostname.as_str(), h.port);
    r.append(ep.as_str());
    r.append(" ");
    if h.password.is_some() {
        r.append("(encrypted password)");
    }
    proof {
        assert(r@ =~= spec_list_entry(h@));
    }
    r
}

/// What recovering a profile's stored secret found.
#[derive(Debug)]
pub enum SecretOutcome {
    /// The profile stores no password; authentication is left to the
    /// client's key or agent negotiation.
    NoSecret,
    /// The stored password, recovered in plaintext.
    Recovered(String),
    /// The stored text is not the obscured form of any password; the
    /// connection degrades to a passwordless attempt.
    Unrecoverable,
}

/// Recovers a profile's password from its stored, obscured form.
pub fn recover_secret(host: &HostConfig) -> (r: SecretOutcome)
    ensures
        host@.password is None ==> r is NoSecret,
        host@.password is Some ==> !(r is NoSecret),
        host@.password matches Some(enc) ==> (r matches SecretOutcome::Recovered(s) ==> enc
            == obscured(s@)),
        host@.password matches Some(enc) ==> (forall|p: Seq<char>|
            enc == obscured(p) ==> (r matches SecretOutcome::Recovered(s) && s@ == p)),
        host@.password matches Some(enc) ==> (r is Unrecoverable ==> (forall|p: Seq<char>|
            enc != obscured(p))),
{
    match &host.password {
        None => SecretOutcome::NoSecret,
        Some(enc) => {
            match decrypt_password(enc.as_str()) {
                Ok(s) => SecretOutcome::Recovered(s),
                Err(_) => {
                    proof {
                        assert forall|p: Seq<char>| enc@ != obscured(p) by {
                            if enc@ == obscured(p) {
                                assert(false);
                            }
                        }
                    }
                    SecretOutcome::Unrecoverable
                },
            }
        },
    }
}

/// The plaintext a stored password recovers to: the unique password whose
/// obscured form it is, or nothing when it is not an obscured form (the
/// connection then degrades to a passwordless attempt).
pub open spec fn spec_plain_secret(stored: Option<Seq<char>>) -> Option<Seq<char>> {
    match stored {
        None => None,
        Some(enc) => if exists|p: Seq<char>| obscured(p) == enc {
            Some(choose|p: Seq<char>| obscured(p) == enc)
        } else {
            None
        },
    }
}

/// Plans the connect subcommand for a named host: resolves the profile,
/// recovers its password (degrading to none when that fails), checks the
/// preflight decision, and builds the client invocation.
pub fn plan_connect(config: &Config, name: &str, tools: ToolStatus) -> (r: Result<
    CommandSpec,
    ConnectError,
>)
    ensures
        match spec_lookup(config@, name@) {
            None => r == Err::<CommandSpec, ConnectError>(ConnectError::NotFound),
            Some(h) => match spec_preflight(spec_plain_secret(h.password) is Some, tools) {
                Some(e) => r == Err::<CommandSpec, ConnectError>(e),
                None => (r matches Ok(c) && c@ == spec_ssh_command(
                    h.hostname,
                    h.port,
                    h.username,
                    spec_plain_secret(h.password),
                )),
            },
        },
{
    let host = match config.get_host(name) {
        Some(h) => h,
        None => {
            return Err(ConnectError::NotFound);
        },
    };
    let secret = match recover_secret(host) {
        SecretOutcome::NoSecret => None,
        SecretOutcome::Recovered(s) => Some(s),
        SecretOutcome::Unrecoverable => None,
    };
    proof {
        let ghost stored = host@.password;
        if stored is Some && spec_plain_secret(stored) is Some {
            let enc = stored.unwrap();
            let p = choose|p: Seq<char>| obscured(p) == enc;
            assert(enc == obscured(p));
        }
    }
    let password = match &secret {
        Some(s) => Some(s.as_str()),
        None => None,
    };
    connect_to_host(host.hostname.as_str(), host.port, host.username.as_str(), password, tools)
}

} // verus!
