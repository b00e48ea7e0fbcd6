//! The external commands that the installer runs, and where it downloads
//! from.
use vstd::prelude::*;
use crate::command::{CommandOutput, ran_ok};
use crate::text::string_views;

verus! {

/// A command to run: the program and its arguments.
#[derive(Debug, Clone)]
pub struct CommandLine {
    pub program: String,
    pub args: Vec<String>,
}

/// The program and the arguments of a command line.
pub open spec fn command_view(c: CommandLine) -> (Seq<char>, Seq<Seq<char>>) {
    (c.program@, string_views(c.args@))
}

/// A command line from a program and its arguments.
fn command_line(program: &str, args: &[&str]) -> (c: CommandLine)
    ensures
        c.program@ == program@,
        string_views(c.args@) == args@.map_values(|a: &str| a@),
{
    let mut v: Vec<String> = Vec::new();
    for i in 0..args.len()
        invariant
            string_views(v@) == args@.take(i as int).map_values(|a: &str| a@),
    {
        let ghost before = string_views(v@);
        let a = args[i].to_owned();
        v.push(a);
        assert(string_views(v@) =~= before.push(args@[i as int]@));
        assert(args@.take(i + 1) =~= args@.take(i as int).push(args@[i as int]));
        assert(string_views(v@) =~= args@.take(i + 1).map_values(|a: &str| a@));
    }
    assert(args@.take(args@.len() as int) =~= args@);
    CommandLine { program: program.to_owned(), args: v }
}

/// Where the Visual C++ redistributable is downloaded from.
pub fn vc_redist_url() -> (u: &'static str)
    ensures
        u@ == "https://aka.ms/vs/17/release/vc_redist.x64.exe"@,
{
    "https://aka.ms/vs/17/release/vc_redist.x64.exe"
}

/// Where the rustup installer is downloaded from.
pub fn rustup_url() -> (u: &'static str)
    ensures
        u@ == "https://win.rustup.rs/x86_64"@,
{
    "https://win.rustup.rs/x86_64"
}

/// `rustup --version`.
pub fn rustup_version() -> (c: CommandLine)
    ensures
        command_view(c) == ("rustup"@, seq!["--version"@]),
{
    let c = command_line("rustup", &["--version"]);
    assert(command_view(c).1 =~= seq!["--version"@]);
    c
}

/// `rustup show`.
pub fn rustup_show() -> (c: CommandLine)
    ensures
        command_view(c) == ("rustup"@, seq!["show"@]),
{
    let c = command_line("rustup", &["show"]);
    assert(command_view(c).1 =~= seq!["show"@]);
    c
}

/// `rustc --version`.
pub fn rustc_version() -> (c: CommandLine)
    ensures
        command_view(c) == ("rustc"@, seq!["--version"@]),
{
    let c = command_line("rustc", &["--version"]);
    assert(command_view(c).1 =~= seq!["--version"@]);
    c
}

/// `rustc --version --verbose`.
pub fn rustc_verbose_version() -> (c: CommandLine)
    ensures
        command_view(c) == ("rustc"@, seq!["--version"@, "--verbose"@]),
{
    let c = command_line("rustc", &["--version", "--verbose"]);
    assert(command_view(c).1 =~= seq!["--version"@, "--verbose"@]);
    c
}

/// `rustup toolchain install stable-x86_64-pc-windows-msvc`.
pub fn install_msvc_toolchain() -> (c: CommandLine)
    ensures
        command_view(c) == ("rustup"@, seq![
            "toolchain"@,
            "install"@,
            "stable-x86_64-pc-windows-msvc"@,
        ]),
{
    let c = command_line("rustup", &["toolchain", "install", "stable-x86_64-pc-windows-msvc"]);
    assert(command_view(c).1 =~= seq!["toolchain"@, "install"@, "stable-x86_64-pc-windows-msvc"@]);
    c
}

/// `rustup default stable-x86_64-pc-windows-msvc`.
pub fn set_default_msvc() -> (c: CommandLine)
    ensures
        command_view(c) == ("rustup"@, seq!["default"@, "stable-x86_64-pc-windows-msvc"@]),
{
    let c = command_line("rustup", &["default", "stable-x86_64-pc-windows-msvc"]);
    assert(command_view(c).1 =~= seq!["default"@, "stable-x86_64-pc-windows-msvc"@]);
    c
}

/// `rustup self uninstall -y`.
pub fn rustup_self_uninstall() -> (c: CommandLine)
    ensures
        command_view(c) == ("rustup"@, seq!["self"@, "uninstall"@, "-y"@]),
{
    let c = command_line("rustup", &["self", "uninstall", "-y"]);
    assert(command_view(c).1 =~= seq!["self"@, "uninstall"@, "-y"@]);
    c
}

/// `rustup target add x86_64-pc-windows-msvc`.
pub fn add_msvc_target() -> (c: CommandLine)
    ensures
        command_view(c) == ("rustup"@, seq!["target"@, "add"@, "x86_64-pc-windows-msvc"@]),
{
    let c = command_line("rustup", &["target", "add", "x86_64-pc-windows-msvc"]);
    assert(command_view(c).1 =~= seq!["target"@, "add"@, "x86_64-pc-windows-msvc"@]);
    c
}

/// `rustup override set stable-x86_64-pc-windows-msvc`.
pub fn override_msvc() -> (c: CommandLine)
    ensures
        command_view(c) == ("rustup"@, seq![
            "override"@,
            "set"@,
            "stable-x86_64-pc-windows-msvc"@,
        ]),
{
    let c = command_line("rustup", &["override", "set", "stable-x86_64-pc-windows-msvc"]);
    assert(command_view(c).1 =~= seq!["override"@, "set"@, "stable-x86_64-pc-windows-msvc"@]);
    c
}

/// `rustup target list --installed`.
pub fn list_installed_targets() -> (c: CommandLine)
    ensures
        command_view(c) == ("rustup"@, seq!["target"@, "list"@, "--installed"@]),
{
    let c = command_line("rustup", &["target", "list", "--installed"]);
    assert(command_view(c).1 =~= seq!["target"@, "list"@, "--installed"@]);
    c
}

/// `rustc test_msvc.rs --target x86_64-pc-windows-msvc`.
pub fn compile_test_program() -> (c: CommandLine)
    ensures
        command_view(c) == ("rustc"@, seq![
            "test_msvc.rs"@,
            "--target"@,
            "x86_64-pc-windows-msvc"@,
        ]),
{
    let c = command_line("rustc", &["test_msvc.rs", "--target", "x86_64-pc-windows-msvc"]);
    assert(command_view(c).1 =~= seq!["test_msvc.rs"@, "--target"@, "x86_64-pc-windows-msvc"@]);
    c
}

/// Runs the compiled test program.
pub fn run_test_program() -> (c: CommandLine)
    ensures
        command_view(c) == ("./test_msvc.exe"@, Seq::<Seq<char>>::empty()),
{
    let c = command_line("./test_msvc.exe", &[]);
    assert(command_view(c).1 =~= Seq::<Seq<char>>::empty());
    c
}

/// Runs `script` with `powershell -Command`.
pub fn powershell(script: &str) -> (c: CommandLine)
    ensures
        command_view(c) == ("powershell"@, seq!["-Command"@, script@]),
{
    let c = command_line("powershell", &["-Command", script]);
    assert(command_view(c).1 =~= seq!["-Command"@, script@]);
    c
}

/// Runs the redistributable's installer at `path` quietly, without restart.
pub fn run_redist_installer(path: &str) -> (c: CommandLine)
    ensures
        command_view(c) == (path@, seq!["/install"@, "/quiet"@, "/norestart"@]),
{
    let c = command_line(path, &["/install", "/quiet", "/norestart"]);
    assert(command_view(c).1 =~= seq!["/install"@, "/quiet"@, "/norestart"@]);
    c
}

/// Runs the rustup installer at `path` with MSVC as default host.
pub fn run_rustup_installer(path: &str) -> (c: CommandLine)
    ensures
        command_view(c) == (path@, seq![
            "--default-host"@,
            "x86_64-pc-windows-msvc"@,
            "--default-toolchain"@,
            "stable"@,
            "--profile"@,
            "default"@,
            "-y"@,
        ]),
{
    let c = command_line(
        path,
        &[
            "--default-host",
            "x86_64-pc-windows-msvc",
            "--default-toolchain",
            "stable",
            "--profile",
            "default",
            "-y",
        ],
    );
    assert(command_view(c).1 =~= seq![
        "--default-host"@,
        "x86_64-pc-windows-msvc"@,
        "--default-toolchain"@,
        "stable"@,
        "--profile"@,
        "default"@,
        "-y"@,
    ]);
    c
}

/// How Rust gets the MSVC target.
#[derive(Debug, Clone, Copy, PartialEq, Eq, Structural)]
pub enum RustInstallPlan {
    /// rustup works: add the MSVC target to it.
    AddTarget,
    /// rustup does not work: download and run the rustup installer.
    InstallRustup,
}

/// The plan that the outcome of `rustup --version` calls for.
pub fn rust_install_plan(rustup_version: &Option<CommandOutput>) -> (p: RustInstallPlan)
    ensures
        ran_ok(*rustup_version) ==> p == RustInstallPlan::AddTarget,
        !ran_ok(*rustup_version) ==> p == RustInstallPlan::InstallRustup,
{
    match rustup_version {
        Some(o) if o.success => RustInstallPlan::AddTarget,
        _ => RustInstallPlan::InstallRustup,
    }
}

} // verus!
