//! The Visual C++ redistributable: reading which versions are installed,
//! and the ordered attempts to install it.
use vstd::prelude::*;
use crate::command::{CommandOutput, ran_ok};
use crate::error::InstallError;
use crate::text::{
    chars_of, contains, contains_str, equals_str, lines, lines_of, string_of, string_views,
    trim, trim_chars, views, trim_bounds, lemma_contains_in_slice, lemma_trim_idempotent,
};

verus! {

/// A line of the registry listing that names an installed redistributable:
/// not blank, not the table's rule, not its header.
pub open spec fn listed_entry(l: Seq<char>) -> bool {
    &&& trim(l).len() > 0
    &&& !contains(l, "---"@)
    &&& !contains(l, "DisplayName"@)
}

/// The trimmed entry lines among `ls`, in order.
pub open spec fn listing_entries(ls: Seq<Seq<char>>) -> Seq<Seq<char>>
    decreases ls.len(),
{
    if ls.len() == 0 {
        seq![]
    } else {
        let rest = listing_entries(ls.drop_last());
        if listed_entry(ls.last()) {
            rest.push(trim(ls.last()))
        } else {
            rest
        }
    }
}

/// The redistributables that the registry query reports: `None` where the
/// query could not run or printed nothing but whitespace, else the entries.
pub open spec fn redist_listing(out: Option<CommandOutput>) -> Option<Seq<Seq<char>>> {
    match out {
        Some(o) => if trim(o.stdout@).len() > 0 {
            Some(listing_entries(lines(o.stdout@)))
        } else {
            None
        },
        None => None,
    }
}

/// Reads the output of the registry query for installed redistributables.
pub fn parse_redist_listing(out: &Option<CommandOutput>) -> (r: Option<Vec<String>>)
    ensures
        match r {
            Some(v) => redist_listing(*out) == Some(string_views(v@)),
            None => redist_listing(*out) is None,
        },
{
    match out {
        None => None,
        Some(o) => {
            let text = chars_of(o.stdout.as_str());
            if trim_chars(&text).len() == 0 {
                return None;
            }
            let ls = lines_of(&text);
            let ghost lv = views(ls@);
            let mut entries: Vec<String> = Vec::new();
            let mut i: usize = 0;
            while i < ls.len()
                invariant
                    i <= ls@.len(),
                    lv == views(ls@),
                    lv == lines(text@),
                    string_views(entries@) == listing_entries(lv.take(i as int)),
                decreases ls@.len() - i,
            {
                let line = &ls[i];
                let t = trim_chars(line);
                let ghost before = string_views(entries@);
                assert(lv.take(i + 1).drop_last() =~= lv.take(i as int));
                assert(lv.take(i + 1).last() == line@);
                if t.len() > 0 && !contains_str(line, "---") && !contains_str(line, "DisplayName") {
                    entries.push(string_of(&t));
                    assert(string_views(entries@) =~= before.push(t@));
                }
                i = i + 1;
            }
            assert(lv.take(ls@.len() as int) =~= lv);
            Some(entries)
        },
    }
}

/// Every reported redistributable is a non-blank, trimmed line that is
/// neither the table's rule nor its header.
pub proof fn lemma_listing_entries_clean(ls: Seq<Seq<char>>, k: int)
    requires
        0 <= k < listing_entries(ls).len(),
    ensures
        listing_entries(ls)[k].len() > 0,
        trim(listing_entries(ls)[k]) == listing_entries(ls)[k],
        !contains(listing_entries(ls)[k], "---"@),
        !contains(listing_entries(ls)[k], "DisplayName"@),
    decreases ls.len(),
{
    let rest = listing_entries(ls.drop_last());
    if k < rest.len() {
        lemma_listing_entries_clean(ls.drop_last(), k);
    } else {
        let l = ls.last();
        let e = trim(l);
        lemma_trim_idempotent(l);
        let (a, b) = trim_bounds(l);
        if contains(e, "---"@) {
            lemma_contains_in_slice(l, a, b, "---"@);
        }
        if contains(e, "DisplayName"@) {
            lemma_contains_in_slice(l, a, b, "DisplayName"@);
        }
    }
}

/// A way to run the redistributable's installer, in the order tried.
#[derive(Debug, Clone, Copy, PartialEq, Eq, Structural)]
pub enum InstallMethod {
    /// Run the installer itself.
    Direct,
    /// Run it through PowerShell's `Start-Process`.
    PowerShell,
    /// Run it through `Start-Process` with elevated rights.
    Elevated,
}

/// The position of a method in the order of attempts.
pub open spec fn method_rank(m: InstallMethod) -> nat {
    match m {
        InstallMethod::Direct => 0,
        InstallMethod::PowerShell => 1,
        InstallMethod::Elevated => 2,
    }
}

/// The method tried after `m`, if any.
pub open spec fn next_method_spec(m: InstallMethod) -> Option<InstallMethod> {
    match m {
        InstallMethod::Direct => Some(InstallMethod::PowerShell),
        InstallMethod::PowerShell => Some(InstallMethod::Elevated),
        InstallMethod::Elevated => None,
    }
}

/// The method tried first.
pub fn first_method() -> (m: InstallMethod)
    ensures
        method_rank(m) == 0,
{
    InstallMethod::Direct
}

/// The method tried after `m`, if any.
pub fn next_method(m: InstallMethod) -> (n: Option<InstallMethod>)
    ensures
        n == next_method_spec(m),
{
    match m {
        InstallMethod::Direct => Some(InstallMethod::PowerShell),
        InstallMethod::PowerShell => Some(InstallMethod::Elevated),
        InstallMethod::Elevated => None,
    }
}

/// The attempt with method `m` counts as a success. The direct run counts
/// when it succeeded or reported the product as installed already; the
/// PowerShell run counts whenever its output contains the digit `0`
/// anywhere (so an exit code such as `1603` counts too), or its errors name
/// code `0x80070666`; the elevated run counts when it succeeded.
pub open spec fn attempt_ok(m: InstallMethod, out: Option<CommandOutput>) -> bool {
    match m {
        InstallMethod::Direct => match out {
            Some(o) => o.success || contains(
                o.stderr@,
                "Another version of this product is already installed"@,
            ) || contains(o.stdout@, "already installed"@) || contains(o.stderr@, "0x80070666"@),
            None => false,
        },
        InstallMethod::PowerShell => match out {
            Some(o) => trim(o.stdout@) == "0"@ || contains(o.stderr@, "0x80070666"@) || contains(
                o.stdout@,
                "0"@,
            ),
            None => false,
        },
        InstallMethod::Elevated => ran_ok(out),
    }
}

/// Whether the attempt with method `m` succeeded, given what it reported.
pub fn attempt_succeeded(m: InstallMethod, out: &Option<CommandOutput>) -> (b: bool)
    ensures
        b == attempt_ok(m, *out),
{
    match out {
        None => false,
        Some(o) => match m {
            InstallMethod::Direct => {
                if o.success {
                    return true;
                }
                let err = chars_of(o.stderr.as_str());
                let so = chars_of(o.stdout.as_str());
                contains_str(&err, "Another version of this product is already installed")
                    || contains_str(&so, "already installed") || contains_str(&err, "0x80070666")
            },
            InstallMethod::PowerShell => {
                let err = chars_of(o.stderr.as_str());
                let so = chars_of(o.stdout.as_str());
                equals_str(&trim_chars(&so), "0") || contains_str(&err, "0x80070666")
                    || contains_str(&so, "0")
            },
            InstallMethod::Elevated => o.success,
        },
    }
}

/// What follows an attempt: stop with the final verdict, or try the next
/// method.
#[derive(Debug, Clone, Copy, PartialEq, Eq, Structural)]
pub enum AttemptStep {
    /// No more attempts; the redistributable is installed or not.
    Stop(bool),
    /// Try this method next.
    Next(InstallMethod),
}

/// What follows the attempt with method `m` that reported `out`: stop at
/// the first success, otherwise go on with the next method, and give up
/// only after the last one failed.
pub open spec fn attempt_step_spec(m: InstallMethod, out: Option<CommandOutput>) -> AttemptStep {
    if attempt_ok(m, out) {
        AttemptStep::Stop(true)
    } else {
        match next_method_spec(m) {
            Some(n) => AttemptStep::Next(n),
            None => AttemptStep::Stop(false),
        }
    }
}

/// What follows the attempt with method `m` that reported `out`.
pub fn attempt_step(m: InstallMethod, out: &Option<CommandOutput>) -> (s: AttemptStep)
    ensures
        s == attempt_step_spec(m, *out),
{
    if attempt_succeeded(m, out) {
        AttemptStep::Stop(true)
    } else {
        match next_method(m) {
            Some(n) => AttemptStep::Next(n),
            None => AttemptStep::Stop(false),
        }
    }
}

/// The verdict of the attempts from method `m` on, given what each method
/// reports (`outs` maps each method's rank to its outcome).
pub open spec fn attempts_verdict(m: InstallMethod, outs: Seq<Option<CommandOutput>>) -> bool
    decreases 3 - method_rank(m),
{
    if method_rank(m) >= outs.len() {
        false
    } else {
        match attempt_step_spec(m, outs[method_rank(m) as int]) {
            AttemptStep::Stop(b) => b,
            AttemptStep::Next(n) => if method_rank(n) > method_rank(m) {
                attempts_verdict(n, outs)
            } else {
                false
            },
        }
    }
}

/// Running the attempts from the first method, the redistributable counts
/// as installed exactly when some method's attempt succeeded; it is given up
/// only after all three failed.
pub proof fn lemma_attempts_stop_at_first_success(outs: Seq<Option<CommandOutput>>)
    requires
        outs.len() == 3,
    ensures
        attempts_verdict(InstallMethod::Direct, outs) <==> (attempt_ok(
            InstallMethod::Direct,
            outs[0],
        ) || attempt_ok(InstallMethod::PowerShell, outs[1]) || attempt_ok(
            InstallMethod::Elevated,
            outs[2],
        )),
{
    reveal_with_fuel(attempts_verdict, 4);
}

/// The attempts go through the methods in order, each at most once, and end
/// after the third.
pub proof fn lemma_methods_in_order(m: InstallMethod)
    ensures
        next_method_spec(m) matches Some(n) ==> method_rank(n) == method_rank(m) + 1,
        next_method_spec(m) is None <==> method_rank(m) == 2,
{
}

/// What the download of the redistributable decides: the command must
/// succeed and the file must then exist; a refusal to run scripts is told
/// apart from other failures.
pub fn check_redist_download(out: &CommandOutput, installer_exists: bool) -> (r: Result<
    (),
    InstallError,
>)
    ensures
        !out.success && contains(
            out.stderr@,
            "cannot be loaded because running scripts is disabled"@,
        ) ==> (r matches Err(e) && e is ScriptsDisabled),
        !out.success && !contains(
            out.stderr@,
            "cannot be loaded because running scripts is disabled"@,
        ) ==> (r matches Err(InstallError::RedistDownloadFailed(e)) && e@ == out.stderr@),
        out.success && !installer_exists ==> (r matches Err(e) && e is RedistNotFound),
        out.success && installer_exists ==> r is Ok,
{
    if !out.success {
        let err = chars_of(out.stderr.as_str());
        if contains_str(&err, "cannot be loaded because running scripts is disabled") {
            return Err(InstallError::ScriptsDisabled);
        }
        return Err(InstallError::RedistDownloadFailed(out.stderr.clone()));
    }
    if !installer_exists {
        return Err(InstallError::RedistNotFound);
    }
    Ok(())
}

/// The end of the installation attempts: fails unless one of them succeeded.
pub fn check_redist_installed(installed: bool) -> (r: Result<(), InstallError>)
    ensures
        installed ==> r is Ok,
        !installed ==> (r matches Err(e) && e is RedistInstallFailed),
{
    if installed {
        Ok(())
    } else {
        Err(InstallError::RedistInstallFailed)
    }
}

} // verus!
