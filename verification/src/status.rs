//! What state an existing Rust installation is in, read from the output of
//! `rustup --version`, `rustup show` and `rustc --version`.
use vstd::prelude::*;
use crate::command::{CommandOutput, ran_ok, succeeded};
use crate::text::{chars_of, concat, contains, contains_str, string_of, string_views, trim, trim_chars};

verus! {

/// The state of the Rust installation found on the machine.
#[derive(Debug, Clone)]
pub enum RustInstallationStatus {
    /// No working `rustup`.
    NotInstalled,
    /// A toolchain whose `rustc --version` names MSVC; holds that version.
    InstalledMSVC(String),
    /// A toolchain whose version names GNU; holds that version.
    InstalledGNU(String),
    /// A toolchain whose version names neither; holds that version.
    InstalledUnknown(String),
    /// `rustup` is there but no toolchain works; holds the reason.
    BrokenInstallation(String),
}

/// The mathematical value of a [`RustInstallationStatus`].
pub enum StatusView {
    NotInstalled,
    Msvc(Seq<char>),
    Gnu(Seq<char>),
    Unknown(Seq<char>),
    Broken(Seq<char>),
}

impl View for RustInstallationStatus {
    type V = StatusView;

    open spec fn view(&self) -> StatusView {
        match self {
            RustInstallationStatus::NotInstalled => StatusView::NotInstalled,
            RustInstallationStatus::InstalledMSVC(v) => StatusView::Msvc(v@),
            RustInstallationStatus::InstalledGNU(v) => StatusView::Gnu(v@),
            RustInstallationStatus::InstalledUnknown(v) => StatusView::Unknown(v@),
            RustInstallationStatus::BrokenInstallation(r) => StatusView::Broken(r@),
        }
    }
}

/// The view of an optional status.
pub open spec fn opt_status_view(s: Option<RustInstallationStatus>) -> Option<StatusView> {
    match s {
        Some(x) => Some(x@),
        None => None,
    }
}

/// `rustup show` says that no toolchain is active or configured.
pub open spec fn reports_no_toolchain(stdout: Seq<char>, stderr: Seq<char>) -> bool {
    ||| contains(stdout, "no default toolchain configured"@)
    ||| contains(stdout, "no toolchain is active"@)
    ||| contains(stderr, "no default is configured"@)
    ||| contains(stderr, "could not choose a version"@)
    ||| contains(stdout, "No `rustc` is currently active"@)
}

/// The status that a `rustc` version string stands for.
pub open spec fn version_status(version: Seq<char>) -> StatusView {
    if contains(version, "msvc"@) {
        StatusView::Msvc(version)
    } else if contains(version, "gnu"@) {
        StatusView::Gnu(version)
    } else {
        StatusView::Unknown(version)
    }
}

/// What `rustup show` settles: a broken installation, or nothing yet (`None`).
pub open spec fn show_status(show: Option<CommandOutput>) -> Option<StatusView> {
    match show {
        None => Some(StatusView::Broken("rustup exists but 'rustup show' command failed"@)),
        Some(o) => if reports_no_toolchain(o.stdout@, o.stderr@) {
            Some(StatusView::Broken("rustup installed but no active toolchain"@))
        } else {
            None
        },
    }
}

/// What `rustc --version` settles.
pub open spec fn rustc_status(rustc: Option<CommandOutput>) -> StatusView {
    if ran_ok(rustc) {
        version_status(trim(rustc->Some_0.stdout@))
    } else {
        StatusView::Broken("rustup show works but rustc is not available"@)
    }
}

/// The status of the installation given the three commands' outcomes
/// (`None`: the command could not be started). A later command counts
/// only where the earlier ones leave the question open.
pub open spec fn installation_status(
    rustup: Option<CommandOutput>,
    show: Option<CommandOutput>,
    rustc: Option<CommandOutput>,
) -> StatusView {
    if !ran_ok(rustup) {
        StatusView::NotInstalled
    } else {
        match show_status(show) {
            Some(s) => s,
            None => rustc_status(rustc),
        }
    }
}

/// The status that the version string `version` stands for.
pub fn classify_version(version: &str) -> (s: RustInstallationStatus)
    ensures
        s@ == version_status(version@),
{
    let v = chars_of(version);
    if contains_str(&v, "msvc") {
        RustInstallationStatus::InstalledMSVC(version.to_owned())
    } else if contains_str(&v, "gnu") {
        RustInstallationStatus::InstalledGNU(version.to_owned())
    } else {
        RustInstallationStatus::InstalledUnknown(version.to_owned())
    }
}

/// Whether `rustup show` reports that no toolchain is active.
pub fn show_reports_no_toolchain(stdout: &str, stderr: &str) -> (b: bool)
    ensures
        b == reports_no_toolchain(stdout@, stderr@),
{
    let out = chars_of(stdout);
    let err = chars_of(stderr);
    contains_str(&out, "no default toolchain configured") || contains_str(
        &out,
        "no toolchain is active",
    ) || contains_str(&err, "no default is configured") || contains_str(
        &err,
        "could not choose a version",
    ) || contains_str(&out, "No `rustc` is currently active")
}

/// The verdict of `rustup show`: a broken installation, or `None` where the
/// version of `rustc` decides.
pub fn show_verdict(show: &Option<CommandOutput>) -> (s: Option<RustInstallationStatus>)
    ensures
        opt_status_view(s) == show_status(*show),
{
    match show {
        None => Some(
            RustInstallationStatus::BrokenInstallation(
                "rustup exists but 'rustup show' command failed".to_owned(),
            ),
        ),
        Some(o) => {
            if show_reports_no_toolchain(o.stdout.as_str(), o.stderr.as_str()) {
                Some(
                    RustInstallationStatus::BrokenInstallation(
                        "rustup installed but no active toolchain".to_owned(),
                    ),
                )
            } else {
                None
            }
        },
    }
}

/// The verdict of `rustc --version`.
pub fn rustc_verdict(rustc: &Option<CommandOutput>) -> (s: RustInstallationStatus)
    ensures
        s@ == rustc_status(*rustc),
{
    match rustc {
        Some(o) if o.success => {
            let out = chars_of(o.stdout.as_str());
            let version = string_of(&trim_chars(&out));
            classify_version(version.as_str())
        },
        _ => RustInstallationStatus::BrokenInstallation(
            "rustup show works but rustc is not available".to_owned(),
        ),
    }
}

/// The status of the installation from the outcomes of `rustup --version`,
/// `rustup show` and `rustc --version`.
pub fn classify_installation(
    rustup: &Option<CommandOutput>,
    show: &Option<CommandOutput>,
    rustc: &Option<CommandOutput>,
) -> (s: RustInstallationStatus)
    ensures
        s@ == installation_status(*rustup, *show, *rustc),
{
    if !succeeded(rustup) {
        return RustInstallationStatus::NotInstalled;
    }
    match show_verdict(show) {
        Some(s) => s,
        None => rustc_verdict(rustc),
    }
}

/// The lines that describe a status to the user.
pub open spec fn summary_lines(s: StatusView) -> Seq<Seq<char>> {
    match s {
        StatusView::NotInstalled => seq!["No existing Rust installation found."@],
        StatusView::Msvc(v) => seq![
            "✅ Found compatible Rust installation: "@ + v,
            "   Already using MSVC toolchain."@,
        ],
        StatusView::Gnu(v) => seq![
            "⚠️  Found incompatible Rust installation: "@ + v,
            "   Current installation uses GNU toolchain."@,
            "   This will conflict with MSVC installation."@,
        ],
        StatusView::Unknown(v) => seq![
            "⚠️  Found Rust installation with unknown toolchain: "@ + v,
            "   May cause compatibility issues."@,
        ],
        StatusView::Broken(r) => seq![
            "❌ Found broken Rust installation: "@ + r,
            "   Installation is incomplete or corrupted."@,
        ],
    }
}

/// The lines that describe `status` to the user.
pub fn status_summary(status: &RustInstallationStatus) -> (lines: Vec<String>)
    ensures
        string_views(lines@) == summary_lines(status@),
{
    let mut lines: Vec<String> = Vec::new();
    match status {
        RustInstallationStatus::NotInstalled => {
            lines.push("No existing Rust installation found.".to_owned());
        },
        RustInstallationStatus::InstalledMSVC(v) => {
            lines.push(concat("✅ Found compatible Rust installation: ", v.as_str()));
            lines.push("   Already using MSVC toolchain.".to_owned());
        },
        RustInstallationStatus::InstalledGNU(v) => {
            lines.push(concat("⚠️  Found incompatible Rust installation: ", v.as_str()));
            lines.push("   Current installation uses GNU toolchain.".to_owned());
            lines.push("   This will conflict with MSVC installation.".to_owned());
        },
        RustInstallationStatus::InstalledUnknown(v) => {
            lines.push(concat("⚠️  Found Rust installation with unknown toolchain: ", v.as_str()));
            lines.push("   May cause compatibility issues.".to_owned());
        },
        RustInstallationStatus::BrokenInstallation(r) => {
            lines.push(concat("❌ Found broken Rust installation: ", r.as_str()));
            lines.push("   Installation is incomplete or corrupted.".to_owned());
        },
    }
    assert(string_views(lines@) =~= summary_lines(status@));
    lines
}

} // verus!
