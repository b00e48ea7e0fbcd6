//! The installation as a sequence of steps: each step runs only when the
//! one before it succeeded, and the first failure ends the process.
use vstd::prelude::*;
use crate::error::InstallError;
use crate::text::{chars_of, equals_str};

verus! {

/// A stage of the installation process.
#[derive(Debug, Clone, Copy, PartialEq, Eq, Structural)]
pub enum InstallStep {
    /// Look for an existing Rust installation and the redistributable.
    CheckExisting,
    /// Deal with an installation that is already there.
    HandleExisting,
    /// Install the Visual C++ redistributable.
    InstallRedist,
    /// Install Rust with the MSVC target.
    InstallRust,
    /// Put Cargo's binary directory on the user `PATH`.
    EnsurePath,
    /// Check the result.
    Verify,
    /// Every step succeeded.
    Done,
    /// A step failed; nothing more runs.
    Failed,
}

/// The position of a step in the process; the two ends come last.
pub open spec fn step_rank(s: InstallStep) -> nat {
    match s {
        InstallStep::CheckExisting => 0,
        InstallStep::HandleExisting => 1,
        InstallStep::InstallRedist => 2,
        InstallStep::InstallRust => 3,
        InstallStep::EnsurePath => 4,
        InstallStep::Verify => 5,
        InstallStep::Done => 6,
        InstallStep::Failed => 6,
    }
}

/// The process has ended.
pub open spec fn is_terminal(s: InstallStep) -> bool {
    s == InstallStep::Done || s == InstallStep::Failed
}

/// The step after `s` when `s` succeeded (`ok`) or failed.
pub open spec fn next_step_spec(s: InstallStep, ok: bool) -> InstallStep {
    if is_terminal(s) {
        s
    } else if !ok {
        InstallStep::Failed
    } else {
        match s {
            InstallStep::CheckExisting => InstallStep::HandleExisting,
            InstallStep::HandleExisting => InstallStep::InstallRedist,
            InstallStep::InstallRedist => InstallStep::InstallRust,
            InstallStep::InstallRust => InstallStep::EnsurePath,
            InstallStep::EnsurePath => InstallStep::Verify,
            _ => InstallStep::Done,
        }
    }
}

/// The installer runs on Windows only: `os` is the name of the operating
/// system it runs on, as `std::env::consts::OS` gives it.
pub fn check_platform(os: &str) -> (r: Result<(), InstallError>)
    ensures
        os@ == "windows"@ ==> r is Ok,
        os@ != "windows"@ ==> (r matches Err(e) && e is UnsupportedPlatform),
{
    if equals_str(&chars_of(os), "windows") {
        Ok(())
    } else {
        Err(InstallError::UnsupportedPlatform)
    }
}

/// The first step of the process on the operating system `os`.
pub fn first_step(os: &str) -> (r: Result<InstallStep, InstallError>)
    ensures
        os@ == "windows"@ ==> r == Ok::<InstallStep, InstallError>(InstallStep::CheckExisting),
        os@ != "windows"@ ==> (r matches Err(e) && e is UnsupportedPlatform),
{
    match check_platform(os) {
        Ok(()) => Ok(InstallStep::CheckExisting),
        Err(e) => Err(e),
    }
}

/// The step after `s`, given whether `s` succeeded.
pub fn next_step(s: InstallStep, ok: bool) -> (n: InstallStep)
    ensures
        n == next_step_spec(s, ok),
{
    match s {
        InstallStep::Done => InstallStep::Done,
        InstallStep::Failed => InstallStep::Failed,
        _ => {
            if !ok {
                InstallStep::Failed
            } else {
                match s {
                    InstallStep::CheckExisting => InstallStep::HandleExisting,
                    InstallStep::HandleExisting => InstallStep::InstallRedist,
                    InstallStep::InstallRedist => InstallStep::InstallRust,
                    InstallStep::InstallRust => InstallStep::EnsurePath,
                    InstallStep::EnsurePath => InstallStep::Verify,
                    _ => InstallStep::Done,
                }
            }
        },
    }
}

/// The step reached from `s` after `n` successful steps.
pub open spec fn run_succeeding(s: InstallStep, n: nat) -> InstallStep
    decreases n,
{
    if n == 0 {
        s
    } else {
        run_succeeding(next_step_spec(s, true), (n - 1) as nat)
    }
}

/// Every step moves the process forward: a success to the next stage, a
/// failure to the end; an ended process stays where it is.
pub proof fn lemma_steps_advance(s: InstallStep, ok: bool)
    ensures
        !is_terminal(s) ==> step_rank(next_step_spec(s, ok)) > step_rank(s),
        !is_terminal(s) && !ok ==> next_step_spec(s, ok) == InstallStep::Failed,
        !is_terminal(s) && ok ==> next_step_spec(s, ok) != InstallStep::Failed,
        is_terminal(s) ==> next_step_spec(s, ok) == s,
{
}

/// Once failed, the process stays failed whatever follows.
pub proof fn lemma_failure_is_final(n: nat)
    ensures
        run_succeeding(InstallStep::Failed, n) == InstallStep::Failed,
    decreases n,
{
    if n > 0 {
        lemma_failure_is_final((n - 1) as nat);
    }
}

/// When every step succeeds, the six steps lead from the first check to the
/// end, and no earlier than that.
pub proof fn lemma_all_steps_succeed()
    ensures
        run_succeeding(InstallStep::CheckExisting, 6) == InstallStep::Done,
        forall|n: nat| n < 6 ==> !is_terminal(#[trigger] run_succeeding(InstallStep::CheckExisting, n)),
{
    reveal_with_fuel(run_succeeding, 7);
    assert forall|n: nat| n < 6 implies !is_terminal(
        #[trigger] run_succeeding(InstallStep::CheckExisting, n),
    ) by {
        reveal_with_fuel(run_succeeding, 7);
        if n == 0 {
        } else if n == 1 {
        } else if n == 2 {
        } else if n == 3 {
        } else if n == 4 {
        } else {
        }
    }
}

} // verus!
