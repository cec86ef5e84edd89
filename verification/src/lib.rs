//! A host registry and SSH launcher library: named connection profiles,
//! a reversible password obfuscator, an interactive host picker modeled
//! as an input state machine, and a connection dispatcher that plans the
//! external client invocation.

pub mod commands;
pub mod config;
pub mod dependencies;
pub mod encryption;
pub mod handlers;
pub mod interactive;
pub mod ssh;
pub mod text;

use vstd::prelude::*;

verus! {

/// The default port used when a profile does not supply one.
pub const DEFAULT_PORT: u16 = 60022;

} // verus!
