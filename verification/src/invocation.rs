//! Subprocess invocations: the one child process an orchestrator composes,
//! for the caller to spawn and report back on.

use vstd::prelude::*;

verus! {

/// How a child process's standard streams connect to the tool's own.
#[derive(Clone, Copy, Debug, PartialEq, Eq, Structural)]
pub enum StdioPolicy {
    /// Standard input, output and error all pass through: interactive use.
    InheritAll,
    /// Standard output and error pass through; input is left untouched.
    InheritOutput,
}

/// One child process to spawn: a program name, its arguments in order, and
/// the standard-stream policy. An orchestrator composes it; the caller
/// spawns it, blocks until it exits, and reports the outcome.
#[derive(Debug)]
pub struct Invocation {
    pub program: String,
    pub args: Vec<String>,
    pub stdio: StdioPolicy,
}

} // verus!
