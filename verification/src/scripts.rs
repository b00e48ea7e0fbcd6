//! Paths under the user profile, and the PowerShell scripts that the
//! installer hands to `powershell -Command`.
use vstd::prelude::*;
use vstd::string::StringExecFns;
use crate::command::CommandOutput;
use crate::redist::InstallMethod;
use crate::text::{chars_of, concat, concat3, equals_str, string_of, string_views, trim, trim_chars};

verus! {

/// The directories that a manual clean-up removes under `profile`.
pub open spec fn cleanup_paths_spec(profile: Seq<char>) -> Seq<Seq<char>> {
    seq![
        profile + "/.cargo"@,
        profile + "/.rustup"@,
        profile + "\\.cargo"@,
        profile + "\\.rustup"@,
    ]
}

/// The directories that a manual clean-up removes under `profile`.
pub fn cleanup_paths(profile: &str) -> (paths: Vec<String>)
    ensures
        string_views(paths@) == cleanup_paths_spec(profile@),
{
    let mut paths: Vec<String> = Vec::new();
    paths.push(concat(profile, "/.cargo"));
    paths.push(concat(profile, "/.rustup"));
    paths.push(concat(profile, "\\.cargo"));
    paths.push(concat(profile, "\\.rustup"));
    assert(string_views(paths@) =~= cleanup_paths_spec(profile@));
    paths
}

/// Cargo's binary directory under `profile`, as the installer writes it.
pub open spec fn cargo_bin_spec(profile: Seq<char>) -> Seq<char> {
    profile + "\\\\.cargo\\\\bin"@
}

/// Cargo's binary directory under `profile`.
pub fn cargo_bin_dir(profile: &str) -> (dir: String)
    ensures
        dir@ == cargo_bin_spec(profile@),
{
    concat(profile, "\\\\.cargo\\\\bin")
}

/// `s` with every backslash doubled, as `str::replace("\\", "\\\\")` gives it.
pub open spec fn escape_backslashes(s: Seq<char>) -> Seq<char>
    decreases s.len(),
{
    if s.len() == 0 {
        seq![]
    } else {
        let r = escape_backslashes(s.drop_last());
        if s.last() == '\\' {
            r.push('\\').push('\\')
        } else {
            r.push(s.last())
        }
    }
}

/// `s` with every backslash doubled.
pub fn escape_backslashes_str(s: &str) -> (e: String)
    ensures
        e@ == escape_backslashes(s@),
{
    let v = chars_of(s);
    let mut out: Vec<char> = Vec::new();
    let mut i: usize = 0;
    while i < v.len()
        invariant
            i <= v@.len(),
            v@ == s@,
            out@ == escape_backslashes(v@.take(i as int)),
        decreases v@.len() - i,
    {
        assert(v@.take(i + 1).drop_last() =~= v@.take(i as int));
        if v[i] == '\\' {
            out.push('\\');
            out.push('\\');
        } else {
            out.push(v[i]);
        }
        i = i + 1;
    }
    assert(v@.take(v@.len() as int) =~= v@);
    string_of(&out)
}

/// Escaping never shortens a string, and lengthens every string that holds a
/// backslash.
pub proof fn lemma_escape_lengthens(s: Seq<char>, k: int)
    ensures
        escape_backslashes(s).len() >= s.len(),
        0 <= k < s.len() && s[k] == '\\' ==> escape_backslashes(s).len() > s.len(),
    decreases s.len(),
{
    if s.len() > 0 {
        lemma_escape_lengthens(s.drop_last(), k);
    }
}

/// The pattern of the `PATH` check is never the directory itself: Cargo's
/// binary directory holds backslashes, which the check doubles again, so the
/// check looks for another text than the one the add script appends.
pub proof fn lemma_path_check_pattern_differs(profile: Seq<char>)
    ensures
        escape_backslashes(cargo_bin_spec(profile)) != cargo_bin_spec(profile),
{
    reveal_strlit("\\\\.cargo\\\\bin");
    let d = cargo_bin_spec(profile);
    assert(d[profile.len() as int] == '\\');
    lemma_escape_lengthens(d, profile.len() as int);
}

/// The script meant to tell whether the user `PATH` already holds `bin`. It
/// doubles the backslashes of `bin` in the `-like` pattern; `cargo_bin_spec`
/// already writes them doubled, so the pattern asks for four backslashes
/// where the add script writes two, never matches the entry that script
/// adds, and the directory is added again on every run.
pub open spec fn path_check_script_spec(bin: Seq<char>) -> Seq<char> {
    "$userPath = [Environment]::GetEnvironmentVariable('PATH', 'User'); \n           if ($userPath -like '*"@
        + escape_backslashes(bin)
        + "*') { \n               Write-Output 'Already in PATH' \n           } else { \n               Write-Output 'Not in PATH' \n           }"@
}

/// The `PATH` check script for `bin` (see `path_check_script_spec`: with
/// the backslashes doubled a second time it never matches).
pub fn path_check_script(bin: &str) -> (s: String)
    ensures
        s@ == path_check_script_spec(bin@),
{
    let escaped = escape_backslashes_str(bin);
    concat3(
        "$userPath = [Environment]::GetEnvironmentVariable('PATH', 'User'); \n           if ($userPath -like '*",
        escaped.as_str(),
        "*') { \n               Write-Output 'Already in PATH' \n           } else { \n               Write-Output 'Not in PATH' \n           }",
    )
}

/// The script that appends `bin` to the user `PATH`.
pub open spec fn path_add_script_spec(bin: Seq<char>) -> Seq<char> {
    "$userPath = [Environment]::GetEnvironmentVariable('PATH', 'User');\n           if ($userPath -eq $null -or $userPath -eq '') {\n               $newPath = '"@
        + bin
        + "'\n           } else {\n               $newPath = $userPath + ';"@
        + bin
        + "'\n           }\n           [Environment]::SetEnvironmentVariable('PATH', $newPath, 'User');\n           Write-Output 'Added to PATH'"@
}

/// The script that appends `bin` to the user `PATH`.
pub fn path_add_script(bin: &str) -> (s: String)
    ensures
        s@ == path_add_script_spec(bin@),
{
    let mut s = concat3(
        "$userPath = [Environment]::GetEnvironmentVariable('PATH', 'User');\n           if ($userPath -eq $null -or $userPath -eq '') {\n               $newPath = '",
        bin,
        "'\n           } else {\n               $newPath = $userPath + ';",
    );
    s.append(bin);
    s.append(
        "'\n           }\n           [Environment]::SetEnvironmentVariable('PATH', $newPath, 'User');\n           Write-Output 'Added to PATH'",
    );
    s
}

/// What the `PATH` check reports: `None` where it could not run, else
/// whether its trimmed output is exactly `Already in PATH`.
pub open spec fn path_check_spec(out: Option<CommandOutput>) -> Option<bool> {
    match out {
        None => None,
        Some(o) => Some(trim(o.stdout@) == "Already in PATH"@),
    }
}

/// Reads the output of the `PATH` check.
pub fn path_check_result(out: &Option<CommandOutput>) -> (r: Option<bool>)
    ensures
        r == path_check_spec(*out),
{
    match out {
        None => None,
        Some(o) => {
            let t = trim_chars(&chars_of(o.stdout.as_str()));
            Some(equals_str(&t, "Already in PATH"))
        },
    }
}

/// The script that downloads `url` to the file `dest`.
pub open spec fn download_script_spec(url: Seq<char>, dest: Seq<char>) -> Seq<char> {
    "Invoke-WebRequest -Uri '"@ + url + "' -OutFile '"@ + dest + "' -UseBasicParsing"@
}

/// The script that downloads `url` to the file `dest`.
pub fn download_script(url: &str, dest: &str) -> (s: String)
    ensures
        s@ == download_script_spec(url@, dest@),
{
    let mut s = concat3("Invoke-WebRequest -Uri '", url, "' -OutFile '");
    s.append(dest);
    s.append("' -UseBasicParsing");
    s
}

/// The script through which method `m` runs the installer at `path`; the
/// direct method runs no script.
pub open spec fn install_script_spec(m: InstallMethod, path: Seq<char>) -> Option<Seq<char>> {
    match m {
        InstallMethod::Direct => None,
        InstallMethod::PowerShell => Some(
            "Start-Process -FilePath '"@ + path
                + "' -ArgumentList '/install', '/quiet', '/norestart' -Wait -PassThru | ForEach-Object { Write-Output $_.ExitCode }"@,
        ),
        InstallMethod::Elevated => Some(
            "Start-Process -FilePath '"@ + path
                + "' -ArgumentList '/install', '/quiet', '/norestart' -Verb RunAs -Wait"@,
        ),
    }
}

/// The script through which method `m` runs the installer at `path`.
pub fn install_script(m: InstallMethod, path: &str) -> (s: Option<String>)
    ensures
        match s {
            Some(t) => install_script_spec(m, path@) == Some(t@),
            None => install_script_spec(m, path@) is None,
        },
{
    match m {
        InstallMethod::Direct => None,
        InstallMethod::PowerShell => Some(
            concat3(
                "Start-Process -FilePath '",
                path,
                "' -ArgumentList '/install', '/quiet', '/norestart' -Wait -PassThru | ForEach-Object { Write-Output $_.ExitCode }",
            ),
        ),
        InstallMethod::Elevated => Some(
            concat3(
                "Start-Process -FilePath '",
                path,
                "' -ArgumentList '/install', '/quiet', '/norestart' -Verb RunAs -Wait",
            ),
        ),
    }
}

} // verus!
