//! Terminal data shapes.

use vstd::prelude::*;

verus! {

/// Where one line of terminal output came from.
#[derive(Debug, Clone, Copy, PartialEq, Eq, Structural)]
pub enum OutputType {
    Stdout,
    Stderr,
    Command,
    System,
}

/// The outcome of one executed command.
#[derive(Debug, Clone)]
pub struct CommandResult {
    pub command: String,
    pub exit_code: i32,
    pub stdout: String,
    pub stderr: String,
    pub duration_ms: u64,
}

} // verus!
