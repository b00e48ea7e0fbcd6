//! What a finished external command reports back.
use vstd::prelude::*;

verus! {

/// The outcome of a command that ran: whether it exited with success, and
/// what it wrote to stdout and stderr (decoded as text).
#[derive(Debug, Clone)]
pub struct CommandOutput {
    pub success: bool,
    pub stdout: String,
    pub stderr: String,
}

/// A command ran and exited with success (`None`: it could not be started).
pub open spec fn ran_ok(out: Option<CommandOutput>) -> bool {
    out matches Some(o) && o.success
}

/// Whether the command ran and exited with success.
pub fn succeeded(out: &Option<CommandOutput>) -> (b: bool)
    ensures
        b == ran_ok(*out),
{
    match out {
        Some(o) => o.success,
        None => false,
    }
}

} // verus!
