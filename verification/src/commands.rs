//! The subcommands the tool accepts, as plain data. Parsing the command
//! line into these is the caller's work.

use vstd::prelude::*;

verus! {

/// A subcommand with its arguments.
#[derive(Debug)]
pub enum Commands {
    /// Add a new host.
    Add(AddArgs),
    /// Remove a host.
    Remove(RemoveArgs),
    /// List all hosts.
    List,
    /// Connect to a host; without a name, the interactive picker runs.
    Connect(ConnectArgs),
}

/// Arguments of the add subcommand. The password, when given, arrives in
/// plaintext and is obscured before it is stored.
#[derive(Debug)]
pub struct AddArgs {
    pub name: String,
    pub hostname: String,
    pub port: u16,
    pub username: String,
    pub password: Option<String>,
}

/// Arguments of the remove subcommand.
#[derive(Debug)]
pub struct RemoveArgs {
    pub name: String,
}

/// Arguments of the connect subcommand.
#[derive(Debug)]
pub struct ConnectArgs {
    pub name: Option<String>,
}

} // verus!
