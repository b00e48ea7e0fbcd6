use rs_easy_installer::command::{succeeded, CommandOutput};
use rs_easy_installer::decision::{decide, is_choice, is_yes, prompt_for, Action, Prompt};
use rs_easy_installer::error::InstallError;
use rs_easy_installer::process::{check_platform, first_step, next_step, InstallStep};
use rs_easy_installer::redist::{
    attempt_succeeded, check_redist_download, check_redist_installed, first_method, next_method,
    parse_redist_listing, InstallMethod,
};
use rs_easy_installer::redist::{attempt_step, AttemptStep};
use rs_easy_installer::commands::{
    add_msvc_target, compile_test_program, install_msvc_toolchain, list_installed_targets,
    override_msvc, powershell, run_redist_installer, run_rustup_installer, run_test_program,
    rust_install_plan, rustc_verbose_version, rustc_version, rustup_self_uninstall,
    rustup_show, rustup_url, rustup_version, set_default_msvc, vc_redist_url, RustInstallPlan,
};
use rs_easy_installer::report::{msvc_environment_detected, rustc_info_report, target_report};
use rs_easy_installer::scripts::{
    cargo_bin_dir, cleanup_paths, download_script, escape_backslashes_str, install_script,
    path_add_script, path_check_result, path_check_script,
};
use rs_easy_installer::status::{
    classify_installation, classify_version, rustc_verdict, show_reports_no_toolchain,
    show_verdict, status_summary, RustInstallationStatus,
};
use rs_easy_installer::text::{chars_of, contains_str, lines_of, string_of, trim_chars};
use rs_easy_installer::toolchain::{
    check_rustup_download, check_rustup_install, check_set_default, classify_target_add,
    override_decision, repair_verdict, OverrideDecision, TargetAdd,
};

fn out(success: bool, stdout: &str, stderr: &str) -> CommandOutput {
    CommandOutput { success, stdout: stdout.to_string(), stderr: stderr.to_string() }
}

fn trimmed(s: &str) -> String {
    string_of(&trim_chars(&chars_of(s)))
}

#[test]
fn test_windows_check() {
    // This test will only pass on Windows
    if check_platform("windows").is_ok() {
        assert!(true);
    } else {
        println!("Skipping Windows-specific test on non-Windows platform");
    }
}

#[test]
fn test_msvc_target_detection() {
    // Test that we can detect MSVC target
    let version = classify_version("rustc 1.80.0 (051478957 2024-07-21) x86_64-pc-windows-msvc");
    if matches!(version, RustInstallationStatus::InstalledMSVC(_)) {
        assert!(true, "MSVC environment detected");
    } else {
        println!("Not running on MSVC environment");
    }
}

// ----- text primitives

#[test]
fn trim_removes_unicode_whitespace_at_both_ends() {
    assert_eq!(trimmed("  \t hello world \r\n"), "hello world");
    assert_eq!(trimmed("\u{3000}x\u{a0}"), "x");
    assert_eq!(trimmed("   "), "");
    assert_eq!(trimmed(""), "");
    assert_eq!(trimmed("a b"), "a b");
}

#[test]
fn trim_is_idempotent_on_examples() {
    for s in ["  a  ", "\n\nb\t", "c", "", " \u{2028} d e \u{85}"] {
        let once = trimmed(s);
        assert_eq!(trimmed(&once), once);
        assert_eq!(once, s.trim());
    }
}

#[test]
fn contains_finds_substrings() {
    let hay = chars_of("stable-x86_64-pc-windows-msvc");
    assert!(contains_str(&hay, "msvc"));
    assert!(contains_str(&hay, "stable"));
    assert!(contains_str(&hay, ""));
    assert!(!contains_str(&hay, "gnu"));
    assert!(!contains_str(&chars_of("ms"), "msvc"));
}

#[test]
fn lines_split_like_str_lines() {
    for s in ["a\nb\r\nc", "a\n", "", "\n", "x\r", "one\n\ntwo\n", "a\r\r\nb"] {
        let got: Vec<String> = lines_of(&chars_of(s)).iter().map(|l| string_of(l)).collect();
        let want: Vec<String> = s.lines().map(|l| l.to_string()).collect();
        assert_eq!(got, want, "lines of {:?}", s);
    }
}

// ----- detection of an existing installation

#[test]
fn no_rustup_means_not_installed() {
    let s = classify_installation(&None, &None, &None);
    assert!(matches!(s, RustInstallationStatus::NotInstalled));
    let failing = Some(out(false, "", "not found"));
    let s = classify_installation(&failing, &None, &None);
    assert!(matches!(s, RustInstallationStatus::NotInstalled));
    assert!(!succeeded(&failing));
}

#[test]
fn rustup_show_failure_is_broken() {
    let ok = Some(out(true, "rustup 1.27.1", ""));
    let s = classify_installation(&ok, &None, &None);
    match s {
        RustInstallationStatus::BrokenInstallation(r) => {
            assert_eq!(r, "rustup exists but 'rustup show' command failed")
        }
        _ => panic!("expected a broken installation"),
    }
}

#[test]
fn no_active_toolchain_is_broken() {
    let ok = Some(out(true, "rustup 1.27.1", ""));
    let show = Some(out(false, "", "error: rustup could not choose a version of rustc to run"));
    assert!(show_reports_no_toolchain("", "rustup could not choose a version of rustc to run"));
    assert!(show_reports_no_toolchain("no default toolchain configured", ""));
    assert!(show_reports_no_toolchain("info: No `rustc` is currently active", ""));
    assert!(!show_reports_no_toolchain("active toolchain: stable", ""));
    match classify_installation(&ok, &show, &None) {
        RustInstallationStatus::BrokenInstallation(r) => {
            assert_eq!(r, "rustup installed but no active toolchain")
        }
        _ => panic!("expected a broken installation"),
    }
    assert!(show_verdict(&Some(out(true, "stable (default)", ""))).is_none());
}

#[test]
fn rustc_missing_is_broken() {
    let ok = Some(out(true, "rustup 1.27.1", ""));
    let show = Some(out(true, "stable-x86_64-pc-windows-msvc (default)", ""));
    for rustc in [None, Some(out(false, "", "error"))] {
        match classify_installation(&ok, &show, &rustc) {
            RustInstallationStatus::BrokenInstallation(r) => {
                assert_eq!(r, "rustup show works but rustc is not available")
            }
            _ => panic!("expected a broken installation"),
        }
    }
}

#[test]
fn rustc_version_decides_the_toolchain() {
    let ok = Some(out(true, "rustup 1.27.1", ""));
    let show = Some(out(true, "active toolchain", ""));
    let msvc = Some(out(true, "rustc 1.80.0 (x86_64-pc-windows-msvc)\n", ""));
    match classify_installation(&ok, &show, &msvc) {
        RustInstallationStatus::InstalledMSVC(v) => {
            assert_eq!(v, "rustc 1.80.0 (x86_64-pc-windows-msvc)")
        }
        _ => panic!("expected MSVC"),
    }
    let gnu = Some(out(true, "  rustc 1.80.0 x86_64-pc-windows-gnu  ", ""));
    assert!(matches!(rustc_verdict(&gnu), RustInstallationStatus::InstalledGNU(v) if v == "rustc 1.80.0 x86_64-pc-windows-gnu"));
    let other = Some(out(true, "rustc 1.80.0", ""));
    assert!(matches!(rustc_verdict(&other), RustInstallationStatus::InstalledUnknown(v) if v == "rustc 1.80.0"));
    assert!(matches!(classify_version("msvc and gnu"), RustInstallationStatus::InstalledMSVC(_)));
}

#[test]
fn summary_describes_each_status() {
    assert_eq!(
        status_summary(&RustInstallationStatus::NotInstalled),
        vec!["No existing Rust installation found.".to_string()]
    );
    assert_eq!(
        status_summary(&RustInstallationStatus::InstalledMSVC("rustc 1.80 msvc".to_string())),
        vec![
            "✅ Found compatible Rust installation: rustc 1.80 msvc".to_string(),
            "   Already using MSVC toolchain.".to_string()
        ]
    );
    assert_eq!(status_summary(&RustInstallationStatus::InstalledGNU("g".to_string())).len(), 3);
    assert_eq!(
        status_summary(&RustInstallationStatus::BrokenInstallation("why".to_string()))[0],
        "❌ Found broken Rust installation: why"
    );
    assert_eq!(
        status_summary(&RustInstallationStatus::InstalledUnknown("u".to_string()))[1],
        "   May cause compatibility issues."
    );
}

// ----- what to do about an existing installation

#[test]
fn prompts_follow_the_status() {
    assert_eq!(prompt_for(&RustInstallationStatus::NotInstalled), None);
    assert_eq!(prompt_for(&RustInstallationStatus::InstalledMSVC("m".to_string())), None);
    assert_eq!(
        prompt_for(&RustInstallationStatus::InstalledGNU("g".to_string())),
        Some(Prompt::RemoveOrCancel)
    );
    assert_eq!(
        prompt_for(&RustInstallationStatus::InstalledUnknown("u".to_string())),
        Some(Prompt::RemoveContinueOrCancel)
    );
    assert_eq!(
        prompt_for(&RustInstallationStatus::BrokenInstallation("b".to_string())),
        Some(Prompt::RepairRemoveOrCancel)
    );
}

#[test]
fn unasked_statuses_proceed_whatever_the_answer() {
    for answer in ["", "n", "3", "yes"] {
        assert_eq!(decide(&RustInstallationStatus::NotInstalled, answer).unwrap(), Action::Proceed);
        assert_eq!(
            decide(&RustInstallationStatus::InstalledMSVC("m".to_string()), answer).unwrap(),
            Action::Proceed
        );
    }
}

#[test]
fn gnu_answer_yes_uninstalls() {
    let gnu = RustInstallationStatus::InstalledGNU("g".to_string());
    for yes in ["y\n", "Y", "  yes please\r\n", "Yo"] {
        assert!(is_yes(yes));
        assert_eq!(decide(&gnu, yes).unwrap(), Action::Uninstall);
    }
    for no in ["\n", "n", "N", " no", "1", "x y"] {
        assert!(!is_yes(no));
        let e = decide(&gnu, no).unwrap_err();
        assert!(matches!(e, InstallError::CancelledKeepingGnu));
        assert_eq!(
            e.message(),
            "Installation cancelled by user. Please manually remove the existing Rust installation or choose to continue with GNU toolchain."
        );
    }
}

#[test]
fn unknown_toolchain_menu() {
    let unknown = RustInstallationStatus::InstalledUnknown("u".to_string());
    assert_eq!(decide(&unknown, "1\n").unwrap(), Action::Uninstall);
    assert_eq!(decide(&unknown, " 2 \r\n").unwrap(), Action::KeepExisting);
    for other in ["3\n", "", "12", "one"] {
        let e = decide(&unknown, other).unwrap_err();
        assert!(matches!(e, InstallError::Cancelled));
        assert_eq!(e.message(), "Installation cancelled by user.");
    }
    assert!(is_choice("\t1\n", "1"));
    assert!(!is_choice("11", "1"));
}

#[test]
fn broken_installation_menu() {
    let broken = RustInstallationStatus::BrokenInstallation("b".to_string());
    assert_eq!(decide(&broken, "1\n").unwrap(), Action::Repair);
    assert_eq!(decide(&broken, "2\n").unwrap(), Action::Uninstall);
    assert!(matches!(decide(&broken, "3\n").unwrap_err(), InstallError::Cancelled));
}

// ----- rustup and toolchain decisions

#[test]
fn repair_requires_set_default_to_succeed() {
    assert!(check_set_default(&out(true, "", "")).is_ok());
    let e = check_set_default(&out(false, "", "no such toolchain")).unwrap_err();
    assert_eq!(e.message(), "Failed to set default toolchain: no such toolchain");
}

#[test]
fn repair_verdict_reads_rustc() {
    let r = repair_verdict(&Some(out(true, " rustc 1.80.0 (x86_64-pc-windows-msvc)\n", ""))).unwrap();
    assert_eq!(r.version, "rustc 1.80.0 (x86_64-pc-windows-msvc)");
    assert!(r.msvc);
    let r = repair_verdict(&Some(out(true, "rustc 1.80.0 gnu", ""))).unwrap();
    assert!(!r.msvc);
    for bad in [None, Some(out(false, "", ""))] {
        let e = repair_verdict(&bad).unwrap_err();
        assert_eq!(e.message(), "Fix attempt failed - rustc is still not working");
    }
}

#[test]
fn target_add_outcomes() {
    assert_eq!(classify_target_add(&out(true, "", "")), TargetAdd::Added);
    assert_eq!(
        classify_target_add(&out(false, "", "component 'rust-std' is up to date")),
        TargetAdd::AlreadyAvailable
    );
    assert_eq!(
        classify_target_add(&out(false, "", "target already installed")),
        TargetAdd::AlreadyAvailable
    );
    assert_eq!(classify_target_add(&out(false, "", "network error")), TargetAdd::Issue);
}

#[test]
fn override_follows_rustup_show() {
    assert_eq!(override_decision(&None), OverrideDecision::Unknown);
    assert_eq!(
        override_decision(&Some(out(true, "stable-x86_64-pc-windows-msvc (default)", ""))),
        OverrideDecision::AlreadyActive
    );
    assert_eq!(
        override_decision(&Some(out(true, "stable-x86_64-pc-windows-gnu (default)", ""))),
        OverrideDecision::SetOverride
    );
}

#[test]
fn rustup_download_and_install_checks() {
    let e = check_rustup_download(&out(false, "", "404"), true).unwrap_err();
    assert_eq!(e.message(), "Failed to download rustup installer: 404");
    let e = check_rustup_download(&out(true, "", ""), false).unwrap_err();
    assert_eq!(e.message(), "rustup installer download failed - file not found");
    assert!(check_rustup_download(&out(true, "", ""), true).is_ok());
    assert!(check_rustup_install(&out(true, "ok", "")).is_ok());
    let e = check_rustup_install(&out(false, "out", "err")).unwrap_err();
    assert_eq!(e.message(), "rustup installation failed:\nSTDERR: err\nSTDOUT: out");
}

// ----- Visual C++ redistributable

#[test]
fn redist_listing_keeps_entries_only() {
    let listing = "\r\nDisplayName                                         DisplayVersion\r\n-----------                                         --------------\r\nMicrosoft Visual C++ 2015-2022 Redistributable (x64) 14.38.33130.0\r\n   \r\n";
    let entries = parse_redist_listing(&Some(out(true, listing, ""))).unwrap();
    assert_eq!(
        entries,
        vec!["Microsoft Visual C++ 2015-2022 Redistributable (x64) 14.38.33130.0".to_string()]
    );
    assert_eq!(parse_redist_listing(&Some(out(true, " \r\n\t", ""))), None);
    assert_eq!(parse_redist_listing(&None), None);
    assert_eq!(
        parse_redist_listing(&Some(out(false, "DisplayName\n---\n", ""))),
        Some(Vec::new())
    );
}

#[test]
fn install_methods_in_order() {
    let m = first_method();
    assert_eq!(m, InstallMethod::Direct);
    assert_eq!(next_method(m), Some(InstallMethod::PowerShell));
    assert_eq!(next_method(InstallMethod::PowerShell), Some(InstallMethod::Elevated));
    assert_eq!(next_method(InstallMethod::Elevated), None);
}

#[test]
fn direct_attempt_verdicts() {
    let d = InstallMethod::Direct;
    assert!(attempt_succeeded(d, &Some(out(true, "", ""))));
    assert!(attempt_succeeded(d, &Some(out(false, "", "Another version of this product is already installed."))));
    assert!(attempt_succeeded(d, &Some(out(false, "It is already installed", ""))));
    assert!(attempt_succeeded(d, &Some(out(false, "", "error 0x80070666"))));
    assert!(!attempt_succeeded(d, &Some(out(false, "", "error 0x80070005"))));
    assert!(!attempt_succeeded(d, &None));
}

#[test]
fn powershell_attempt_verdicts() {
    let p = InstallMethod::PowerShell;
    assert!(attempt_succeeded(p, &Some(out(true, "0\r\n", ""))));
    assert!(attempt_succeeded(p, &Some(out(false, "1603", "code 0x80070666"))));
    assert!(attempt_succeeded(p, &Some(out(false, "3010", ""))));
    assert!(!attempt_succeeded(p, &Some(out(true, "1638", ""))));
    assert!(!attempt_succeeded(p, &None));
    let e = InstallMethod::Elevated;
    assert!(attempt_succeeded(e, &Some(out(true, "", ""))));
    assert!(!attempt_succeeded(e, &Some(out(false, "0", ""))));
}

#[test]
fn redist_download_checks() {
    let e = check_redist_download(
        &out(false, "", "File x.ps1 cannot be loaded because running scripts is disabled on this system."),
        false,
    )
    .unwrap_err();
    assert!(matches!(e, InstallError::ScriptsDisabled));
    assert_eq!(
        e.message(),
        "PowerShell execution policy blocks downloads. Please run as administrator or enable PowerShell scripts."
    );
    let e = check_redist_download(&out(false, "", "timeout"), true).unwrap_err();
    assert_eq!(e.message(), "Failed to download Visual C++ redistributable: timeout");
    let e = check_redist_download(&out(true, "", ""), false).unwrap_err();
    assert_eq!(e.message(), "Visual C++ redistributable download failed - file not found");
    assert!(check_redist_download(&out(true, "", ""), true).is_ok());
    assert!(check_redist_installed(true).is_ok());
    assert_eq!(
        check_redist_installed(false).unwrap_err().message(),
        "Failed to install Visual C++ redistributable. Please install manually from https://aka.ms/vs/17/release/vc_redist.x64.exe"
    );
}

// ----- paths and scripts

#[test]
fn cleanup_paths_cover_both_separators() {
    assert_eq!(
        cleanup_paths("C:\\Users\\me"),
        vec![
            "C:\\Users\\me/.cargo".to_string(),
            "C:\\Users\\me/.rustup".to_string(),
            "C:\\Users\\me\\.cargo".to_string(),
            "C:\\Users\\me\\.rustup".to_string()
        ]
    );
}

#[test]
fn cargo_bin_and_escaping() {
    let bin = cargo_bin_dir("C:\\Users\\me");
    assert_eq!(bin, format!(r"{}\\.cargo\\bin", "C:\\Users\\me"));
    assert_eq!(escape_backslashes_str(&bin), bin.replace("\\", "\\\\"));
    assert_ne!(escape_backslashes_str(&bin), bin);
    assert!(!path_check_script(&bin).contains(&format!("*{}*", bin)));
    assert_eq!(escape_backslashes_str("a\\b"), "a\\\\b");
    assert_eq!(escape_backslashes_str("plain"), "plain");
}

#[test]
fn path_scripts_match_the_expected_text() {
    let bin = "C:\\u\\\\.cargo\\\\bin";
    let expected_check = format!(
        r#"$userPath = [Environment]::GetEnvironmentVariable('PATH', 'User'); 
           if ($userPath -like '*{}*') {{ 
               Write-Output 'Already in PATH' 
           }} else {{ 
               Write-Output 'Not in PATH' 
           }}"#,
        bin.replace("\\", "\\\\")
    );
    assert_eq!(path_check_script(bin), expected_check);
    let expected_add = format!(
        r#"$userPath = [Environment]::GetEnvironmentVariable('PATH', 'User');
           if ($userPath -eq $null -or $userPath -eq '') {{
               $newPath = '{}'
           }} else {{
               $newPath = $userPath + ';{}'
           }}
           [Environment]::SetEnvironmentVariable('PATH', $newPath, 'User');
           Write-Output 'Added to PATH'"#,
        bin, bin
    );
    assert_eq!(path_add_script(bin), expected_add);
}

#[test]
fn path_check_results() {
    assert_eq!(path_check_result(&None), None);
    assert_eq!(path_check_result(&Some(out(true, "Already in PATH\r\n", ""))), Some(true));
    assert_eq!(path_check_result(&Some(out(true, "Not in PATH\r\n", ""))), Some(false));
}

#[test]
fn download_and_install_scripts() {
    assert_eq!(
        download_script("https://win.rustup.rs/x86_64", "C:\\t\\rustup-init.exe"),
        "Invoke-WebRequest -Uri 'https://win.rustup.rs/x86_64' -OutFile 'C:\\t\\rustup-init.exe' -UseBasicParsing"
    );
    assert_eq!(install_script(InstallMethod::Direct, "x.exe"), None);
    assert_eq!(
        install_script(InstallMethod::PowerShell, "x.exe").unwrap(),
        "Start-Process -FilePath 'x.exe' -ArgumentList '/install', '/quiet', '/norestart' -Wait -PassThru | ForEach-Object { Write-Output $_.ExitCode }"
    );
    assert_eq!(
        install_script(InstallMethod::Elevated, "x.exe").unwrap(),
        "Start-Process -FilePath 'x.exe' -ArgumentList '/install', '/quiet', '/norestart' -Verb RunAs -Wait"
    );
}

// ----- the final report

#[test]
fn rustc_info_lines_are_marked() {
    let info = "rustc 1.80.0 (051478957 2024-07-21)\nbinary: rustc\ncommit-hash: 0514789\n\nhost: x86_64-pc-windows-msvc\nrelease: 1.80.0\n";
    assert_eq!(
        rustc_info_report(info),
        vec![
            "   rustc 1.80.0 (051478957 2024-07-21)".to_string(),
            "   binary: rustc".to_string(),
            "   commit-hash: 0514789".to_string(),
            "✅ host: x86_64-pc-windows-msvc".to_string(),
            "   release: 1.80.0".to_string(),
        ]
    );
    assert_eq!(rustc_info_report("host: x86_64-unknown-linux-gnu"), vec!["   host: x86_64-unknown-linux-gnu".to_string()]);
}

#[test]
fn target_lines_are_marked() {
    assert_eq!(
        target_report("x86_64-pc-windows-msvc\nwasm32-unknown-unknown\n"),
        vec!["✅ x86_64-pc-windows-msvc".to_string(), "   wasm32-unknown-unknown".to_string()]
    );
}

#[test]
fn test_program_output_detection() {
    assert!(msvc_environment_detected("Hello\n✅ Successfully using MSVC environment!\n"));
    assert!(!msvc_environment_detected("⚠️  Not using MSVC environment"));
}

// ----- the process

#[test]
fn platform_is_checked_first() {
    assert!(check_platform("windows").is_ok());
    let e = check_platform("linux").unwrap_err();
    assert_eq!(e.message(), "This installer is designed for Windows systems only.");
    assert_eq!(first_step("windows").unwrap(), InstallStep::CheckExisting);
    assert!(matches!(first_step("macos"), Err(InstallError::UnsupportedPlatform)));
}

#[test]
fn steps_run_in_order_until_done() {
    let mut s = first_step("windows").unwrap();
    let mut seen = vec![s];
    while s != InstallStep::Done {
        s = next_step(s, true);
        seen.push(s);
    }
    assert_eq!(
        seen,
        vec![
            InstallStep::CheckExisting,
            InstallStep::HandleExisting,
            InstallStep::InstallRedist,
            InstallStep::InstallRust,
            InstallStep::EnsurePath,
            InstallStep::Verify,
            InstallStep::Done
        ]
    );
}

#[test]
fn a_failure_ends_the_process() {
    assert_eq!(next_step(InstallStep::InstallRedist, false), InstallStep::Failed);
    assert_eq!(next_step(InstallStep::Failed, true), InstallStep::Failed);
    assert_eq!(next_step(InstallStep::Done, false), InstallStep::Done);
}

// ----- the attempt sequence, commands and plans

#[test]
fn attempts_stop_at_first_success() {
    assert_eq!(attempt_step(InstallMethod::Direct, &Some(out(true, "", ""))), AttemptStep::Stop(true));
    assert_eq!(
        attempt_step(InstallMethod::Direct, &Some(out(false, "", "denied"))),
        AttemptStep::Next(InstallMethod::PowerShell)
    );
    assert_eq!(
        attempt_step(InstallMethod::PowerShell, &None),
        AttemptStep::Next(InstallMethod::Elevated)
    );
    assert_eq!(attempt_step(InstallMethod::PowerShell, &Some(out(true, "1603", ""))), AttemptStep::Stop(true));
    assert_eq!(attempt_step(InstallMethod::Elevated, &Some(out(false, "", ""))), AttemptStep::Stop(false));
    assert_eq!(attempt_step(InstallMethod::Elevated, &Some(out(true, "", ""))), AttemptStep::Stop(true));

    // a whole run: the first two fail, the elevated one succeeds
    let outcomes = [Some(out(false, "", "denied")), Some(out(true, "1", "")), Some(out(true, "", ""))];
    let mut m = first_method();
    let mut tried = 0;
    let verdict = loop {
        tried += 1;
        let idx = match m {
            InstallMethod::Direct => 0,
            InstallMethod::PowerShell => 1,
            InstallMethod::Elevated => 2,
        };
        match attempt_step(m, &outcomes[idx]) {
            AttemptStep::Next(n) => m = n,
            AttemptStep::Stop(v) => break v,
        }
    };
    assert!(verdict);
    assert_eq!(tried, 3);
}

#[test]
fn commands_are_fixed() {
    let c = rustup_version();
    assert_eq!((c.program.as_str(), c.args.clone()), ("rustup", vec!["--version".to_string()]));
    assert_eq!(rustup_show().args, vec!["show".to_string()]);
    assert_eq!(rustc_version().program, "rustc");
    assert_eq!(rustc_verbose_version().args, vec!["--version".to_string(), "--verbose".to_string()]);
    assert_eq!(install_msvc_toolchain().args.join(" "), "toolchain install stable-x86_64-pc-windows-msvc");
    assert_eq!(set_default_msvc().args.join(" "), "default stable-x86_64-pc-windows-msvc");
    assert_eq!(rustup_self_uninstall().args.join(" "), "self uninstall -y");
    assert_eq!(add_msvc_target().args.join(" "), "target add x86_64-pc-windows-msvc");
    assert_eq!(override_msvc().args.join(" "), "override set stable-x86_64-pc-windows-msvc");
    assert_eq!(list_installed_targets().args.join(" "), "target list --installed");
    assert_eq!(compile_test_program().args.join(" "), "test_msvc.rs --target x86_64-pc-windows-msvc");
    assert_eq!(run_test_program().program, "./test_msvc.exe");
    assert!(run_test_program().args.is_empty());
    let p = powershell("Write-Output 1");
    assert_eq!((p.program.as_str(), p.args.clone()), ("powershell", vec!["-Command".to_string(), "Write-Output 1".to_string()]));
    let r = run_redist_installer("C:\\t\\vc.exe");
    assert_eq!(r.program, "C:\\t\\vc.exe");
    assert_eq!(r.args.join(" "), "/install /quiet /norestart");
    assert_eq!(
        run_rustup_installer("r.exe").args.join(" "),
        "--default-host x86_64-pc-windows-msvc --default-toolchain stable --profile default -y"
    );
    assert_eq!(vc_redist_url(), "https://aka.ms/vs/17/release/vc_redist.x64.exe");
    assert_eq!(rustup_url(), "https://win.rustup.rs/x86_64");
    assert_eq!(rust_install_plan(&Some(out(true, "rustup 1.27", ""))), RustInstallPlan::AddTarget);
    assert_eq!(rust_install_plan(&Some(out(false, "", ""))), RustInstallPlan::InstallRustup);
    assert_eq!(rust_install_plan(&None), RustInstallPlan::InstallRustup);
}
