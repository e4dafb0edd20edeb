//! A git assistant whose model runs in a long-lived local daemon: the wire
//! protocol, the daemon's serving decisions, the client's side of an exchange,
//! the daemon's process lifecycle, and the git workflow logic around them.

use vstd::prelude::*;

pub mod branch;
pub mod client;
pub mod config;
pub mod git;
pub mod lifecycle;
pub mod llm;
pub mod protocol;
pub mod server;
pub mod text;
pub mod workflow;

verus! {

} // verus!
