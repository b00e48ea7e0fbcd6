//! What the installer's decisions are for, stated over the text primitives
//! of `text` and the phrases the tools print.
use vstd::prelude::*;
use crate::command::CommandOutput;
use crate::decision::{decision, Action};
use crate::error::InstallError;
use crate::redist::{attempt_ok, listed_entry, listing_entries, redist_listing, InstallMethod};
use crate::scripts::{cleanup_paths_spec, download_script_spec, path_check_spec};
use crate::error::error_message;
use crate::text::lines;
use crate::report::{info_line, target_line};
use crate::status::{installation_status, reports_no_toolchain, show_status, version_status, StatusView};
use crate::text::{contains, trim};
use crate::toolchain::{override_spec, target_add_spec, OverrideDecision, TargetAdd};

verus! {

// ---------------------------------------------------------------------------
// Answers at the prompt

/// Only the trimmed answer counts: answers that differ in surrounding
/// whitespace (such as the `"\r\n"` that `read_line` keeps on Windows) decide
/// the same.
pub proof fn law_answer_whitespace_ignored(s: StatusView, a: Seq<char>, b: Seq<char>)
    requires
        trim(a) == trim(b),
    ensures
        decision(s, a) == decision(s, b),
{
}

/// A broken installation: `1` repairs, `2` removes, anything else cancels.
pub proof fn law_broken_menu(r: Seq<char>, answer: Seq<char>)
    ensures
        trim(answer) == "1"@ ==> decision(StatusView::Broken(r), answer) == Ok::<
            Action,
            InstallError,
        >(Action::Repair),
        trim(answer) == "2"@ ==> decision(StatusView::Broken(r), answer) == Ok::<
            Action,
            InstallError,
        >(Action::Uninstall),
        trim(answer) != "1"@ && trim(answer) != "2"@ ==> decision(StatusView::Broken(r), answer)
            == Err::<Action, InstallError>(InstallError::Cancelled),
{
    reveal_strlit("1");
    reveal_strlit("2");
    assert("1"@[0] != "2"@[0]);
}

/// An unknown toolchain: `1` removes, `2` keeps it, anything else cancels.
pub proof fn law_unknown_menu(v: Seq<char>, answer: Seq<char>)
    ensures
        trim(answer) == "1"@ ==> decision(StatusView::Unknown(v), answer) == Ok::<
            Action,
            InstallError,
        >(Action::Uninstall),
        trim(answer) == "2"@ ==> decision(StatusView::Unknown(v), answer) == Ok::<
            Action,
            InstallError,
        >(Action::KeepExisting),
        trim(answer) != "1"@ && trim(answer) != "2"@ ==> decision(StatusView::Unknown(v), answer)
            == Err::<Action, InstallError>(InstallError::Cancelled),
{
    reveal_strlit("1");
    reveal_strlit("2");
    assert("1"@[0] != "2"@[0]);
}

/// A GNU toolchain: an answer whose trimmed text starts with `y` or `Y`
/// removes it; any other answer cancels.
pub proof fn law_gnu_prompt(v: Seq<char>, answer: Seq<char>)
    ensures
        trim(answer).len() > 0 && (trim(answer)[0] == 'y' || trim(answer)[0] == 'Y') ==> decision(
            StatusView::Gnu(v),
            answer,
        ) == Ok::<Action, InstallError>(Action::Uninstall),
        !(trim(answer).len() > 0 && (trim(answer)[0] == 'y' || trim(answer)[0] == 'Y'))
            ==> decision(StatusView::Gnu(v), answer) == Err::<Action, InstallError>(
            InstallError::CancelledKeepingGnu,
        ),
{
}

// ---------------------------------------------------------------------------
// Detecting the installation

/// Each of the five phrases, in the stream where `rustup show` prints it,
/// marks the installation as broken; without any of them the version of
/// `rustc` decides.
pub proof fn law_no_toolchain_phrases(o: CommandOutput)
    ensures
        contains(o.stdout@, "no default toolchain configured"@) ==> reports_no_toolchain(
            o.stdout@,
            o.stderr@,
        ),
        contains(o.stdout@, "no toolchain is active"@) ==> reports_no_toolchain(
            o.stdout@,
            o.stderr@,
        ),
        contains(o.stderr@, "no default is configured"@) ==> reports_no_toolchain(
            o.stdout@,
            o.stderr@,
        ),
        contains(o.stderr@, "could not choose a version"@) ==> reports_no_toolchain(
            o.stdout@,
            o.stderr@,
        ),
        contains(o.stdout@, "No `rustc` is currently active"@) ==> reports_no_toolchain(
            o.stdout@,
            o.stderr@,
        ),
        reports_no_toolchain(o.stdout@, o.stderr@) ==> show_status(Some(o)) == Some(
            StatusView::Broken("rustup installed but no active toolchain"@),
        ),
        !contains(o.stdout@, "no default toolchain configured"@) && !contains(
            o.stdout@,
            "no toolchain is active"@,
        ) && !contains(o.stderr@, "no default is configured"@) && !contains(
            o.stderr@,
            "could not choose a version"@,
        ) && !contains(o.stdout@, "No `rustc` is currently active"@) ==> show_status(Some(o))
            is None,
        show_status(None) == Some(
            StatusView::Broken("rustup exists but 'rustup show' command failed"@),
        ),
{
}

/// A version naming `msvc` is MSVC; one naming `gnu` but not `msvc` is GNU;
/// any other is unknown. The version is kept as given.
pub proof fn law_version_names_toolchain(v: Seq<char>)
    ensures
        contains(v, "msvc"@) ==> version_status(v) == StatusView::Msvc(v),
        !contains(v, "msvc"@) && contains(v, "gnu"@) ==> version_status(v) == StatusView::Gnu(v),
        !contains(v, "msvc"@) && !contains(v, "gnu"@) ==> version_status(v) == StatusView::Unknown(
            v,
        ),
{
}

/// Without a working `rustup` nothing else is consulted: the installation
/// counts as absent.
pub proof fn law_no_rustup_not_installed(
    rustup: Option<CommandOutput>,
    show: Option<CommandOutput>,
    rustc: Option<CommandOutput>,
)
    requires
        !(rustup matches Some(o) && o.success),
    ensures
        installation_status(rustup, show, rustc) == StatusView::NotInstalled,
{
}

/// With a working `rustup` and a `rustup show` that reports a toolchain, a
/// working `rustc` decides by its trimmed version.
pub proof fn law_rustc_decides(o: CommandOutput, show: CommandOutput, rustc: CommandOutput)
    requires
        o.success,
        !reports_no_toolchain(show.stdout@, show.stderr@),
        rustc.success,
    ensures
        installation_status(Some(o), Some(show), Some(rustc)) == version_status(
            trim(rustc.stdout@),
        ),
{
}

// ---------------------------------------------------------------------------
// The redistributable listing

/// The entries are exactly the lines that are non-blank and hold neither
/// `---` nor `DisplayName`, each trimmed, in their order: none is dropped,
/// none is added.
pub proof fn law_listing_is_filter(ls: Seq<Seq<char>>)
    ensures
        listing_entries(ls) == ls.filter(|l: Seq<char>| listed_entry(l)).map_values(
            |l: Seq<char>| trim(l),
        ),
        listing_entries(ls).len() == ls.filter(|l: Seq<char>| listed_entry(l)).len(),
    decreases ls.len(),
{
    reveal_with_fuel(Seq::<Seq<char>>::filter, 1);
    if ls.len() > 0 {
        law_listing_is_filter(ls.drop_last());
        let f = |l: Seq<char>| listed_entry(l);
        let g = |l: Seq<char>| trim(l);
        let sub = ls.drop_last().filter(f);
        if listed_entry(ls.last()) {
            assert(sub.push(ls.last()).map_values(g) =~= sub.map_values(g).push(trim(ls.last())));
        }
    }
}

/// Every non-blank line without `---` and `DisplayName` shows up, trimmed,
/// among the entries.
pub proof fn law_listing_complete(ls: Seq<Seq<char>>, i: int)
    requires
        0 <= i < ls.len(),
        trim(ls[i]).len() > 0,
        !contains(ls[i], "---"@),
        !contains(ls[i], "DisplayName"@),
    ensures
        listing_entries(ls).contains(trim(ls[i])),
    decreases ls.len(),
{
    if i == ls.len() - 1 {
        assert(listing_entries(ls).last() == trim(ls[i]));
    } else {
        law_listing_complete(ls.drop_last(), i);
        let k = choose|k: int|
            0 <= k < listing_entries(ls.drop_last()).len() && listing_entries(ls.drop_last())[k]
                == trim(ls[i]);
        assert(listing_entries(ls)[k] == trim(ls[i]));
    }
}

// ---------------------------------------------------------------------------
// Reports, targets and toolchains

/// A target line is marked exactly when it names `windows-msvc`; every other
/// line is indented.
pub proof fn law_target_mark(l: Seq<char>)
    ensures
        contains(l, "windows-msvc"@) ==> target_line(l) == "✅ "@ + l,
        !contains(l, "windows-msvc"@) ==> target_line(l) == "   "@ + l,
{
}

/// A compiler info line is marked exactly when it names both `host:` and
/// `msvc`; other non-blank lines are indented and blank ones left out.
pub proof fn law_info_mark(l: Seq<char>)
    ensures
        contains(l, "host:"@) && contains(l, "msvc"@) ==> info_line(l) == Some("✅ "@ + l),
        !(contains(l, "host:"@) && contains(l, "msvc"@)) && trim(l).len() > 0 ==> info_line(l)
            == Some("   "@ + l),
        !(contains(l, "host:"@) && contains(l, "msvc"@)) && !contains(l, "release:"@) && !contains(
            l,
            "commit-hash:"@,
        ) && trim(l).len() == 0 ==> info_line(l) is None,
{
}

/// The override is left alone exactly when `rustup show` names the MSVC
/// host anywhere, whichever toolchain channel it shows.
pub proof fn law_override_follows_msvc_host(o: CommandOutput)
    ensures
        override_spec(Some(o)) == OverrideDecision::AlreadyActive <==> contains(
            o.stdout@,
            "x86_64-pc-windows-msvc"@,
        ),
        !contains(o.stdout@, "x86_64-pc-windows-msvc"@) ==> override_spec(Some(o))
            == OverrideDecision::SetOverride,
        override_spec(None) == OverrideDecision::Unknown,
{
}

/// `rustup target add`: success adds the target; a failure that says it is
/// up to date or already installed still has it available.
pub proof fn law_target_add(o: CommandOutput)
    ensures
        o.success ==> target_add_spec(o) == TargetAdd::Added,
        !o.success && (contains(o.stderr@, "is up to date"@) || contains(
            o.stderr@,
            "already installed"@,
        )) ==> target_add_spec(o) == TargetAdd::AlreadyAvailable,
        !o.success && !contains(o.stderr@, "is up to date"@) && !contains(
            o.stderr@,
            "already installed"@,
        ) ==> target_add_spec(o) == TargetAdd::Issue,
{
}

/// The install attempts: the direct run counts when it succeeded or the
/// product is installed already (code `0x80070666`); the PowerShell run
/// counts when its output holds a `0` or its errors that code; the elevated
/// run counts when it succeeded; an attempt that could not start never
/// counts.
pub proof fn law_attempt_verdicts(o: CommandOutput)
    ensures
        o.success ==> attempt_ok(InstallMethod::Direct, Some(o)),
        contains(o.stderr@, "0x80070666"@) ==> attempt_ok(InstallMethod::Direct, Some(o)),
        contains(o.stderr@, "Another version of this product is already installed"@)
            ==> attempt_ok(InstallMethod::Direct, Some(o)),
        contains(o.stdout@, "already installed"@) ==> attempt_ok(InstallMethod::Direct, Some(o)),
        !o.success && !contains(o.stderr@, "0x80070666"@) && !contains(
            o.stderr@,
            "Another version of this product is already installed"@,
        ) && !contains(o.stdout@, "already installed"@) ==> !attempt_ok(
            InstallMethod::Direct,
            Some(o),
        ),
        contains(o.stdout@, "0"@) ==> attempt_ok(InstallMethod::PowerShell, Some(o)),
        contains(o.stderr@, "0x80070666"@) ==> attempt_ok(InstallMethod::PowerShell, Some(o)),
        attempt_ok(InstallMethod::Elevated, Some(o)) == o.success,
        !attempt_ok(InstallMethod::Direct, None),
        !attempt_ok(InstallMethod::PowerShell, None),
        !attempt_ok(InstallMethod::Elevated, None),
{
}

// ---------------------------------------------------------------------------
// Listing, PATH check, paths and messages

/// The listing is missing exactly when the query could not run or printed
/// only whitespace; otherwise it holds the entries of its lines.
pub proof fn law_listing_presence(o: CommandOutput)
    ensures
        redist_listing(None) is None,
        trim(o.stdout@).len() == 0 ==> redist_listing(Some(o)) is None,
        trim(o.stdout@).len() > 0 ==> redist_listing(Some(o)) == Some(
            listing_entries(lines(o.stdout@)),
        ),
{
}

/// The `PATH` check counts as positive exactly when its output, trimmed, is
/// `Already in PATH`; surrounding whitespace does not matter.
pub proof fn law_path_check_answer(o: CommandOutput, p: CommandOutput)
    ensures
        path_check_spec(Some(o)) == Some(trim(o.stdout@) == "Already in PATH"@),
        trim(o.stdout@) == trim(p.stdout@) ==> path_check_spec(Some(o)) == path_check_spec(
            Some(p),
        ),
        path_check_spec(None) is None,
{
}

/// The clean-up covers both `.cargo` and `.rustup`, each under the profile
/// with a forward and with a backward slash.
pub proof fn law_cleanup_covers_both_dirs(profile: Seq<char>)
    ensures
        cleanup_paths_spec(profile).len() == 4,
        cleanup_paths_spec(profile).contains(profile + seq!['/'] + ".cargo"@),
        cleanup_paths_spec(profile).contains(profile + seq!['/'] + ".rustup"@),
        cleanup_paths_spec(profile).contains(profile + seq!['\\'] + ".cargo"@),
        cleanup_paths_spec(profile).contains(profile + seq!['\\'] + ".rustup"@),
{
    reveal_strlit("/.cargo");
    reveal_strlit("/.rustup");
    reveal_strlit("\\.cargo");
    reveal_strlit("\\.rustup");
    reveal_strlit(".cargo");
    reveal_strlit(".rustup");
    assert(profile + "/.cargo"@ =~= profile + seq!['/'] + ".cargo"@);
    assert(profile + "/.rustup"@ =~= profile + seq!['/'] + ".rustup"@);
    assert(profile + "\\.cargo"@ =~= profile + seq!['\\'] + ".cargo"@);
    assert(profile + "\\.rustup"@ =~= profile + seq!['\\'] + ".rustup"@);
    assert(cleanup_paths_spec(profile)[0] == profile + "/.cargo"@);
    assert(cleanup_paths_spec(profile)[1] == profile + "/.rustup"@);
    assert(cleanup_paths_spec(profile)[2] == profile + "\\.cargo"@);
    assert(cleanup_paths_spec(profile)[3] == profile + "\\.rustup"@);
}

/// The download script names the source and the destination, each quoted.
pub proof fn law_download_script_quotes(url: Seq<char>, dest: Seq<char>)
    ensures
        contains(download_script_spec(url, dest), seq!['\''] + url + seq!['\'']),
        contains(download_script_spec(url, dest), seq!['\''] + dest + seq!['\'']),
{
    reveal_strlit("Invoke-WebRequest -Uri '");
    reveal_strlit("' -OutFile '");
    reveal_strlit("' -UseBasicParsing");
    let s = download_script_spec(url, dest);
    let pre1 = "Invoke-WebRequest -Uri "@;
    let q1 = seq!['\''] + url + seq!['\''];
    let post1 = " -OutFile '"@ + dest + "' -UseBasicParsing"@;
    reveal_strlit("Invoke-WebRequest -Uri ");
    reveal_strlit(" -OutFile '");
    assert(s =~= pre1 + q1 + post1);
    crate::text::law_contains_occurrence(pre1, q1, post1, s);
    let pre2 = "Invoke-WebRequest -Uri '"@ + url + "' -OutFile "@;
    let q2 = seq!['\''] + dest + seq!['\''];
    let post2 = " -UseBasicParsing"@;
    reveal_strlit("' -OutFile ");
    reveal_strlit(" -UseBasicParsing");
    assert(s =~= pre2 + q2 + post2);
    crate::text::law_contains_occurrence(pre2, q2, post2, s);
}

/// The messages that carry a command's output end with that output.
pub proof fn law_messages_carry_output(err: InstallError)
    ensures
        err matches InstallError::SetDefaultFailed(x) ==> error_message(err).subrange(
            error_message(err).len() - x@.len(),
            error_message(err).len() as int,
        ) == x@,
        err matches InstallError::RedistDownloadFailed(x) ==> error_message(err).subrange(
            error_message(err).len() - x@.len(),
            error_message(err).len() as int,
        ) == x@,
        err matches InstallError::RustupDownloadFailed(x) ==> error_message(err).subrange(
            error_message(err).len() - x@.len(),
            error_message(err).len() as int,
        ) == x@,
        err matches InstallError::RustupInstallFailed(x, y) ==> error_message(err).subrange(
            error_message(err).len() - y@.len(),
            error_message(err).len() as int,
        ) == y@,
{
    match err {
        InstallError::SetDefaultFailed(x) => {
            let m = error_message(err);
            assert(m.subrange(m.len() - x@.len(), m.len() as int) =~= x@);
        },
        InstallError::RedistDownloadFailed(x) => {
            let m = error_message(err);
            assert(m.subrange(m.len() - x@.len(), m.len() as int) =~= x@);
        },
        InstallError::RustupDownloadFailed(x) => {
            let m = error_message(err);
            assert(m.subrange(m.len() - x@.len(), m.len() as int) =~= x@);
        },
        InstallError::RustupInstallFailed(x, y) => {
            let m = error_message(err);
            assert(m.subrange(m.len() - y@.len(), m.len() as int) =~= y@);
        },
        _ => {},
    }
}

} // verus!
