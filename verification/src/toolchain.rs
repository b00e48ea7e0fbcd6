//! Decisions around rustup: repairing a broken installation, adding the
//! MSVC target, choosing the MSVC toolchain and installing rustup itself.
use vstd::prelude::*;
use crate::command::{CommandOutput, ran_ok};
use crate::error::InstallError;
use crate::text::{chars_of, contains, contains_str, string_of, trim, trim_chars};

verus! {

/// The toolchain name that selects MSVC.
pub open spec fn msvc_host() -> Seq<char> {
    "x86_64-pc-windows-msvc"@
}

/// What `rustup default stable-x86_64-pc-windows-msvc` decides: the repair
/// goes on only where the command succeeded.
pub fn check_set_default(out: &CommandOutput) -> (r: Result<(), InstallError>)
    ensures
        out.success ==> r is Ok,
        !out.success ==> (r matches Err(InstallError::SetDefaultFailed(e)) && e@ == out.stderr@),
{
    if out.success {
        Ok(())
    } else {
        Err(InstallError::SetDefaultFailed(out.stderr.clone()))
    }
}

/// What `rustc --version` shows after a repair.
#[derive(Debug, Clone)]
pub struct RepairReport {
    /// The version, without surrounding whitespace.
    pub version: String,
    /// The version names the MSVC toolchain.
    pub msvc: bool,
}

/// Whether the repair worked: `rustc --version` must run and succeed. The
/// report holds its trimmed version and whether the output names MSVC.
pub fn repair_verdict(rustc: &Option<CommandOutput>) -> (r: Result<RepairReport, InstallError>)
    ensures
        ran_ok(*rustc) ==> (r matches Ok(rep) && rep.version@ == trim(rustc->Some_0.stdout@)
            && rep.msvc == contains(rustc->Some_0.stdout@, "msvc"@)),
        !ran_ok(*rustc) ==> (r matches Err(e) && e is RustcStillBroken),
{
    match rustc {
        Some(o) if o.success => {
            let out = chars_of(o.stdout.as_str());
            let version = string_of(&trim_chars(&out));
            let msvc = contains_str(&out, "msvc");
            Ok(RepairReport { version, msvc })
        },
        _ => Err(InstallError::RustcStillBroken),
    }
}

/// The outcome of `rustup target add x86_64-pc-windows-msvc`.
#[derive(Debug, Clone, Copy, PartialEq, Eq, Structural)]
pub enum TargetAdd {
    /// The target was added or confirmed.
    Added,
    /// The command failed because the target is there already.
    AlreadyAvailable,
    /// The command failed for another reason (a warning, not an error).
    Issue,
}

/// The outcome that `rustup target add` reports.
pub open spec fn target_add_spec(out: CommandOutput) -> TargetAdd {
    if out.success {
        TargetAdd::Added
    } else if contains(out.stderr@, "is up to date"@) || contains(
        out.stderr@,
        "already installed"@,
    ) {
        TargetAdd::AlreadyAvailable
    } else {
        TargetAdd::Issue
    }
}

/// Classifies the outcome of `rustup target add`.
pub fn classify_target_add(out: &CommandOutput) -> (t: TargetAdd)
    ensures
        t == target_add_spec(*out),
{
    if out.success {
        return TargetAdd::Added;
    }
    let err = chars_of(out.stderr.as_str());
    if contains_str(&err, "is up to date") || contains_str(&err, "already installed") {
        TargetAdd::AlreadyAvailable
    } else {
        TargetAdd::Issue
    }
}

/// What to do about the active toolchain after `rustup show`.
#[derive(Debug, Clone, Copy, PartialEq, Eq, Structural)]
pub enum OverrideDecision {
    /// The MSVC toolchain is already the active one.
    AlreadyActive,
    /// Set the MSVC toolchain as override for the current directory.
    SetOverride,
    /// `rustup show` could not run; the terminal may need a restart.
    Unknown,
}

/// The decision that the outcome of `rustup show` calls for.
pub open spec fn override_spec(show: Option<CommandOutput>) -> OverrideDecision {
    match show {
        None => OverrideDecision::Unknown,
        Some(o) => if contains(o.stdout@, msvc_host()) {
            OverrideDecision::AlreadyActive
        } else {
            OverrideDecision::SetOverride
        },
    }
}

/// Decides whether the MSVC toolchain must be set as override.
pub fn override_decision(show: &Option<CommandOutput>) -> (d: OverrideDecision)
    ensures
        d == override_spec(*show),
{
    match show {
        None => OverrideDecision::Unknown,
        Some(o) => {
            let out = chars_of(o.stdout.as_str());
            if contains_str(&out, "x86_64-pc-windows-msvc") {
                OverrideDecision::AlreadyActive
            } else {
                OverrideDecision::SetOverride
            }
        },
    }
}

/// What the download of `rustup-init.exe` decides: the command must succeed
/// and the file must then exist.
pub fn check_rustup_download(out: &CommandOutput, installer_exists: bool) -> (r: Result<
    (),
    InstallError,
>)
    ensures
        !out.success ==> (r matches Err(InstallError::RustupDownloadFailed(e)) && e@
            == out.stderr@),
        out.success && !installer_exists ==> (r matches Err(e) && e is RustupNotFound),
        out.success && installer_exists ==> r is Ok,
{
    if !out.success {
        Err(InstallError::RustupDownloadFailed(out.stderr.clone()))
    } else if !installer_exists {
        Err(InstallError::RustupNotFound)
    } else {
        Ok(())
    }
}

/// What running `rustup-init.exe` decides.
pub fn check_rustup_install(out: &CommandOutput) -> (r: Result<(), InstallError>)
    ensures
        out.success ==> r is Ok,
        !out.success ==> (r matches Err(InstallError::RustupInstallFailed(e, o)) && e@
            == out.stderr@ && o@ == out.stdout@),
{
    if out.success {
        Ok(())
    } else {
        Err(InstallError::RustupInstallFailed(out.stderr.clone(), out.stdout.clone()))
    }
}

} // verus!
