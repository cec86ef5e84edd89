//! The dependency preflight: decides, from what is installed, whether a
//! connection attempt may proceed, and which package-manager invocation
//! would install the missing password helper.
//!
//! Probing the system for binaries and running an installer are the
//! caller's work; the decisions over the probe results live here.

use vstd::prelude::*;
use crate::ssh::CommandSpec;
use crate::ssh::CommandSpecView;
use crate::ssh::ConnectError;
use crate::ssh::DependencyKind;

verus! {

/// What a probe of the system found: whether the SSH client and the
/// password helper are present, and whether an attempted install of the
/// helper succeeded.
#[derive(Debug, Clone, Copy, PartialEq, Eq)]
pub struct ToolStatus {
    pub ssh_client: bool,
    pub password_helper: bool,
    pub helper_install_succeeded: bool,
}

/// The preflight decision: password authentication needs the helper, on
/// hand or just installed; every connection needs the SSH client.
pub open spec fn spec_preflight(password_auth: bool, tools: ToolStatus) -> Option<ConnectError> {
    if password_auth && !tools.password_helper && !tools.helper_install_succeeded {
        Some(ConnectError::MissingDependency(DependencyKind::PasswordHelper))
    } else if !tools.ssh_client {
        Some(ConnectError::MissingDependency(DependencyKind::SshClient))
    } else {
        None
    }
}

/// Checks that the binaries a connection needs are available.
pub fn check_ssh_dependencies(password_auth: bool, tools: ToolStatus) -> (r: Result<
    (),
    ConnectError,
>)
    ensures
        r == match spec_preflight(password_auth, tools) {
            Some(e) => Err::<(), ConnectError>(e),
            None => Ok::<(), ConnectError>(()),
        },
{
    if password_auth && !tools.password_helper && !tools.helper_install_succeeded {
        Err(ConnectError::MissingDependency(DependencyKind::PasswordHelper))
    } else if !tools.ssh_client {
        Err(ConnectError::MissingDependency(DependencyKind::SshClient))
    } else {
        Ok(())
    }
}

/// A package manager the installer knows how to drive.
#[derive(Debug, Clone, Copy, PartialEq, Eq)]
pub enum PackageManager {
    AptGet,
    Yum,
    Dnf,
    Brew,
    Pacman,
}

/// Which package managers a probe of the system found.
#[derive(Debug, Clone, Copy, PartialEq, Eq)]
pub struct PackageManagerStatus {
    pub apt_get: bool,
    pub yum: bool,
    pub dnf: bool,
    pub brew: bool,
    pub pacman: bool,
}

/// The first available package manager, in the fixed preference order.
pub open spec fn spec_chosen_manager(s: PackageManagerStatus) -> Option<PackageManager> {
    if s.apt_get {
        Some(PackageManager::AptGet)
    } else if s.yum {
        Some(PackageManager::Yum)
    } else if s.dnf {
        Some(PackageManager::Dnf)
    } else if s.brew {
        Some(PackageManager::Brew)
    } else if s.pacman {
        Some(PackageManager::Pacman)
    } else {
        None
    }
}

/// The invocation that installs the password helper through `m`.
pub open spec fn spec_install_command(m: PackageManager) -> CommandSpecView {
    match m {
        PackageManager::AptGet => CommandSpecView {
            program: "sudo"@,
            args: seq!["apt-get"@, "install"@, "-y"@, "sshpass"@],
        },
        PackageManager::Yum => CommandSpecView {
            program: "sudo"@,
            args: seq!["yum"@, "install"@, "-y"@, "sshpass"@],
        },
        PackageManager::Dnf => CommandSpecView {
            program: "sudo"@,
            args: seq!["dnf"@, "install"@, "-y"@, "sshpass"@],
        },
        PackageManager::Brew => CommandSpecView {
            program: "brew"@,
            args: seq!["install"@, "sshpass"@],
        },
        PackageManager::Pacman => CommandSpecView {
            program: "sudo"@,
            args: seq!["pacman"@, "-S"@, "--noconfirm"@, "sshpass"@],
        },
    }
}

/// Plans the install of the password helper: the first available package
/// manager's invocation, or nothing when none is available.
pub fn plan_sshpass_install(s: PackageManagerStatus) -> (r: Option<CommandSpec>)
    ensures
        match spec_chosen_manager(s) {
            Some(m) => (r matches Some(c) && c@ == spec_install_command(m)),
            None => r is None,
        },
{
    let mut args: Vec<String> = Vec::new();
    let program: String;
    if s.apt_get {
        program = "sudo".to_owned();
        args.push("apt-get".to_owned());
        args.push("install".to_owned());
        args.push("-y".to_owned());
        args.push("sshpass".to_owned());
    } else if s.yum {
        program = "sudo".to_owned();
        args.push("yum".to_owned());
        args.push("install".to_owned());
        args.push("-y".to_owned());
        args.push("sshpass".to_owned());
    } else if s.dnf {
        program = "sudo".to_owned();
        args.push("dnf".to_owned());
        args.push("install".to_owned());
        args.push("-y".to_owned());
        args.push("sshpass".to_owned());
    } else if s.brew {
        program = "brew".to_owned();
        args.push("install".to_owned());
        args.push("sshpass".to_owned());
    } else if s.pacman {
        program = "sudo".to_owned();
        args.push("pacman".to_owned());
        args.push("-S".to_owned());
        args.push("--noconfirm".to_owned());
        args.push("sshpass".to_owned());
    } else {
        return None;
    }
    let c = CommandSpec { program, args };
    proof {
        let m = spec_chosen_manager(s).unwrap();
        assert(c@.args =~= spec_install_command(m).args);
    }
    Some(c)
}

} // verus!
