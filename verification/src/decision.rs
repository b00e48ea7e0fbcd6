//! What to do about a Rust installation that is already there: which
//! question to ask the user, and what the answer decides.
use vstd::prelude::*;
use crate::error::InstallError;
use crate::status::{RustInstallationStatus, StatusView};
use crate::text::{chars_of, equals_str, trim, trim_chars};

verus! {

/// The question put to the user about an existing installation.
#[derive(Debug, Clone, Copy, PartialEq, Eq, Structural)]
pub enum Prompt {
    /// "Do you want to remove the existing installation? (y/N)".
    RemoveOrCancel,
    /// 1: remove and install fresh, 2: continue with it, 3: cancel.
    RemoveContinueOrCancel,
    /// 1: repair it with the MSVC toolchain, 2: remove it, 3: cancel.
    RepairRemoveOrCancel,
}

/// What happens to the existing installation before installing.
#[derive(Debug, Clone, Copy, PartialEq, Eq, Structural)]
pub enum Action {
    /// Nothing stands in the way: go on with the installation.
    Proceed,
    /// Go on with the existing installation although it may cause issues.
    KeepExisting,
    /// Remove the existing installation first.
    Uninstall,
    /// Repair the existing installation by setting up the MSVC toolchain.
    Repair,
}

/// The question that an installation in state `s` calls for, if any.
pub open spec fn prompt_spec(s: StatusView) -> Option<Prompt> {
    match s {
        StatusView::NotInstalled => None,
        StatusView::Msvc(_) => None,
        StatusView::Gnu(_) => Some(Prompt::RemoveOrCancel),
        StatusView::Unknown(_) => Some(Prompt::RemoveContinueOrCancel),
        StatusView::Broken(_) => Some(Prompt::RepairRemoveOrCancel),
    }
}

/// The answer, trimmed, starts with `y` once lower-cased: its first
/// character is `y` or `Y` (no other character lower-cases to a string that
/// starts with `y`).
pub open spec fn answered_yes(answer: Seq<char>) -> bool {
    let t = trim(answer);
    t.len() > 0 && (t[0] == 'y' || t[0] == 'Y')
}

/// The answer, trimmed, is exactly the option `opt`.
pub open spec fn chose(answer: Seq<char>, opt: Seq<char>) -> bool {
    trim(answer) == opt
}

/// What the user's `answer` decides for an installation in state `s`
/// (the answer is not read where no question is asked).
pub open spec fn decision(s: StatusView, answer: Seq<char>) -> Result<Action, InstallError> {
    match s {
        StatusView::NotInstalled => Ok(Action::Proceed),
        StatusView::Msvc(_) => Ok(Action::Proceed),
        StatusView::Gnu(_) => if answered_yes(answer) {
            Ok(Action::Uninstall)
        } else {
            Err(InstallError::CancelledKeepingGnu)
        },
        StatusView::Unknown(_) => if chose(answer, "1"@) {
            Ok(Action::Uninstall)
        } else if chose(answer, "2"@) {
            Ok(Action::KeepExisting)
        } else {
            Err(InstallError::Cancelled)
        },
        StatusView::Broken(_) => if chose(answer, "1"@) {
            Ok(Action::Repair)
        } else if chose(answer, "2"@) {
            Ok(Action::Uninstall)
        } else {
            Err(InstallError::Cancelled)
        },
    }
}

/// The question to ask about an installation in state `status`, if any.
pub fn prompt_for(status: &RustInstallationStatus) -> (p: Option<Prompt>)
    ensures
        p == prompt_spec(status@),
{
    match status {
        RustInstallationStatus::NotInstalled => None,
        RustInstallationStatus::InstalledMSVC(_) => None,
        RustInstallationStatus::InstalledGNU(_) => Some(Prompt::RemoveOrCancel),
        RustInstallationStatus::InstalledUnknown(_) => Some(Prompt::RemoveContinueOrCancel),
        RustInstallationStatus::BrokenInstallation(_) => Some(Prompt::RepairRemoveOrCancel),
    }
}

/// Whether `answer` is a yes.
pub fn is_yes(answer: &str) -> (b: bool)
    ensures
        b == answered_yes(answer@),
{
    let t = trim_chars(&chars_of(answer));
    t.len() > 0 && (t[0] == 'y' || t[0] == 'Y')
}

/// Whether `answer` picks the option `opt`.
pub fn is_choice(answer: &str, opt: &str) -> (b: bool)
    ensures
        b == chose(answer@, opt@),
{
    let t = trim_chars(&chars_of(answer));
    equals_str(&t, opt)
}

/// What the user's `answer` decides for an installation in state `status`.
pub fn decide(status: &RustInstallationStatus, answer: &str) -> (r: Result<Action, InstallError>)
    ensures
        r == decision(status@, answer@),
{
    match status {
        RustInstallationStatus::NotInstalled => Ok(Action::Proceed),
        RustInstallationStatus::InstalledMSVC(_) => Ok(Action::Proceed),
        RustInstallationStatus::InstalledGNU(_) => {
            if is_yes(answer) {
                Ok(Action::Uninstall)
            } else {
                Err(InstallError::CancelledKeepingGnu)
            }
        },
        RustInstallationStatus::InstalledUnknown(_) => {
            if is_choice(answer, "1") {
                Ok(Action::Uninstall)
            } else if is_choice(answer, "2") {
                Ok(Action::KeepExisting)
            } else {
                Err(InstallError::Cancelled)
            }
        },
        RustInstallationStatus::BrokenInstallation(_) => {
            if is_choice(answer, "1") {
                Ok(Action::Repair)
            } else if is_choice(answer, "2") {
                Ok(Action::Uninstall)
            } else {
                Err(InstallError::Cancelled)
            }
        },
    }
}

/// Where no question is asked, the answer has no effect: the decision is the
/// same whatever the user typed.
pub proof fn lemma_unasked_answer_ignored(s: StatusView, a: Seq<char>, b: Seq<char>)
    requires
        prompt_spec(s) is None,
    ensures
        decision(s, a) == decision(s, b),
        decision(s, a) == Ok::<Action, InstallError>(Action::Proceed),
{
}

/// A question is asked exactly where the installation is neither absent nor
/// already using MSVC; every refusal of the offered options cancels.
pub proof fn lemma_refusal_cancels(s: StatusView, answer: Seq<char>)
    requires
        prompt_spec(s) is Some,
        !answered_yes(answer),
        !chose(answer, "1"@),
        !chose(answer, "2"@),
    ensures
        decision(s, answer) is Err,
{
}

/// A GNU toolchain is never kept: the installation goes on only after
/// removing it.
pub proof fn lemma_gnu_never_kept(version: Seq<char>, answer: Seq<char>)
    ensures
        decision(StatusView::Gnu(version), answer) is Ok ==> decision(
            StatusView::Gnu(version),
            answer,
        ) == Ok::<Action, InstallError>(Action::Uninstall),
{
}

} // verus!
