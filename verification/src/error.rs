//! The reasons for which an installation stops.
use vstd::prelude::*;
use vstd::string::StringExecFns;
use crate::text::{concat, concat3};

verus! {

/// Why the installation process stopped before its end.
#[derive(Debug, Clone)]
pub enum InstallError {
    /// The installer runs on Windows only.
    UnsupportedPlatform,
    /// The user cancelled while a GNU toolchain stands in the way.
    CancelledKeepingGnu,
    /// The user cancelled at a prompt.
    Cancelled,
    /// `rustup default` failed; holds what it wrote to stderr.
    SetDefaultFailed(String),
    /// `rustc` still does not run after a repair.
    RustcStillBroken,
    /// The user profile directory is unknown.
    NoUserProfile,
    /// PowerShell refused to run the download script.
    ScriptsDisabled,
    /// Downloading the redistributable failed; holds stderr.
    RedistDownloadFailed(String),
    /// The downloaded redistributable is not on disk.
    RedistNotFound,
    /// No installation method installed the redistributable.
    RedistInstallFailed,
    /// Downloading the rustup installer failed; holds stderr.
    RustupDownloadFailed(String),
    /// The downloaded rustup installer is not on disk.
    RustupNotFound,
    /// The rustup installer failed; holds its stderr and stdout.
    RustupInstallFailed(String, String),
}

/// The text reported for each error.
pub open spec fn error_message(e: InstallError) -> Seq<char> {
    match e {
        InstallError::UnsupportedPlatform => "This installer is designed for Windows systems only."@,
        InstallError::CancelledKeepingGnu =>
            "Installation cancelled by user. Please manually remove the existing Rust installation or choose to continue with GNU toolchain."@,
        InstallError::Cancelled => "Installation cancelled by user."@,
        InstallError::SetDefaultFailed(err) => "Failed to set default toolchain: "@ + err@,
        InstallError::RustcStillBroken => "Fix attempt failed - rustc is still not working"@,
        InstallError::NoUserProfile => "Could not get user profile directory"@,
        InstallError::ScriptsDisabled =>
            "PowerShell execution policy blocks downloads. Please run as administrator or enable PowerShell scripts."@,
        InstallError::RedistDownloadFailed(err) =>
            "Failed to download Visual C++ redistributable: "@ + err@,
        InstallError::RedistNotFound =>
            "Visual C++ redistributable download failed - file not found"@,
        InstallError::RedistInstallFailed =>
            "Failed to install Visual C++ redistributable. Please install manually from https://aka.ms/vs/17/release/vc_redist.x64.exe"@,
        InstallError::RustupDownloadFailed(err) => "Failed to download rustup installer: "@ + err@,
        InstallError::RustupNotFound => "rustup installer download failed - file not found"@,
        InstallError::RustupInstallFailed(err, out) =>
            "rustup installation failed:\nSTDERR: "@ + err@ + "\nSTDOUT: "@ + out@,
    }
}

impl InstallError {
    /// The text that describes this error to the user.
    pub fn message(&self) -> (m: String)
        ensures
            m@ == error_message(*self),
    {
        match self {
            InstallError::UnsupportedPlatform => "This installer is designed for Windows systems only.".to_owned(),
            InstallError::CancelledKeepingGnu =>
                "Installation cancelled by user. Please manually remove the existing Rust installation or choose to continue with GNU toolchain.".to_owned(),
            InstallError::Cancelled => "Installation cancelled by user.".to_owned(),
            InstallError::SetDefaultFailed(err) => concat("Failed to set default toolchain: ", err.as_str()),
            InstallError::RustcStillBroken => "Fix attempt failed - rustc is still not working".to_owned(),
            InstallError::NoUserProfile => "Could not get user profile directory".to_owned(),
            InstallError::ScriptsDisabled =>
                "PowerShell execution policy blocks downloads. Please run as administrator or enable PowerShell scripts.".to_owned(),
            InstallError::RedistDownloadFailed(err) =>
                concat("Failed to download Visual C++ redistributable: ", err.as_str()),
            InstallError::RedistNotFound =>
                "Visual C++ redistributable download failed - file not found".to_owned(),
            InstallError::RedistInstallFailed =>
                "Failed to install Visual C++ redistributable. Please install manually from https://aka.ms/vs/17/release/vc_redist.x64.exe".to_owned(),
            InstallError::RustupDownloadFailed(err) =>
                concat("Failed to download rustup installer: ", err.as_str()),
            InstallError::RustupNotFound => "rustup installer download failed - file not found".to_owned(),
            InstallError::RustupInstallFailed(err, out) => {
                let mut m = concat3("rustup installation failed:\nSTDERR: ", err.as_str(), "\nSTDOUT: ");
                m.append(out.as_str());
                m
            },
        }
    }
}

} // verus!
