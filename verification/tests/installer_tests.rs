use ai_assistant_client::folders::{data_dir, install_dir, Environment, PathPlan, PathRoot};
use ai_assistant_client::installer::{
    app_path, help_lines, install_steps, installer_command, reg_add_args, reg_delete_args, run_step,
    uninstall_steps, uninstall_values, InstallStep, InstallerCommand, RunAction, RunEvent, RunState,
    UninstallStep, APP_EXE_NAME, APP_NAME, VERSION,
};

fn args(a: &[&str]) -> Vec<String> {
    a.iter().map(|s| s.to_string()).collect()
}

fn env() -> Environment {
    Environment {
        data_override: None,
        local_app_data: Some("C:\\L".to_string()),
        user_profile: Some("C:\\U".to_string()),
        app_data: Some("C:\\R".to_string()),
        has_working_dir: true,
    }
}

fn plan(root: &str, segments: &[&str]) -> PathPlan {
    PathPlan { root: PathRoot::Given(root.to_string()), segments: segments.iter().map(|s| s.to_string()).collect() }
}

#[test]
fn constants() {
    assert_eq!(APP_NAME, "AI Assistant Client");
    assert_eq!(APP_EXE_NAME, "AI-Assistant-Client.exe");
    assert_eq!(VERSION, "1.0.6");
}

#[test]
fn installer_flags() {
    assert_eq!(installer_command(&args(&["setup.exe"])), InstallerCommand::SetupPanel);
    assert_eq!(installer_command(&args(&["setup.exe", "--help"])), InstallerCommand::Help);
    assert_eq!(installer_command(&args(&["setup.exe", "/?"])), InstallerCommand::Help);
    assert_eq!(installer_command(&args(&["s", "--uninstall"])), InstallerCommand::Uninstall { clean: false });
    assert_eq!(installer_command(&args(&["s", "--uninstall-clean"])), InstallerCommand::Uninstall { clean: true });
    assert_eq!(
        installer_command(&args(&["s", "--uninstall-clean", "--uninstall"])),
        InstallerCommand::Uninstall { clean: false }
    );
    assert_eq!(installer_command(&args(&["s", "--uninstall", "--help"])), InstallerCommand::Help);
}

#[test]
fn usage_text() {
    assert_eq!(
        help_lines(),
        args(&[
            "AI Assistant Client Setup 1.0.6",
            "Usage:",
            "  AI-Assistant-Client-Setup.exe              Install for current user",
            "  AI-Assistant-Client-Setup.exe --uninstall  Remove app files and shortcuts",
            "  AI-Assistant-Client-Setup.exe --uninstall-clean  Remove app and local data",
        ])
    );
}

#[test]
fn uninstall_entry() {
    let v = uninstall_values("C:\\L\\Programs\\AI-Assistant-Client", "C:\\L\\Programs\\AI-Assistant-Client\\AI-Assistant-Client.exe", Some("D:\\setup.exe"));
    let expected: Vec<(String, String)> = vec![
        ("DisplayName", "AI Assistant Client"),
        ("DisplayVersion", "1.0.6"),
        ("Publisher", "dongzhongcen"),
        ("InstallLocation", "C:\\L\\Programs\\AI-Assistant-Client"),
        ("DisplayIcon", "C:\\L\\Programs\\AI-Assistant-Client\\AI-Assistant-Client.exe,0"),
        ("UninstallString", "\"D:\\setup.exe\" --uninstall"),
        ("QuietUninstallString", "\"D:\\setup.exe\" --uninstall-clean"),
    ]
    .into_iter()
    .map(|(a, b)| (a.to_string(), b.to_string()))
    .collect();
    assert_eq!(v, expected);
    let w = uninstall_values("I", "A", None);
    assert_eq!(w[5].1, "\"A\" --uninstall");
}

#[test]
fn uninstall_entry_flags_reach_uninstall() {
    let v = uninstall_values("I", "A", Some("D:\\setup.exe"));
    for (value, clean) in [(&v[5].1, false), (&v[6].1, true)] {
        let flag = value.rsplit(' ').next().unwrap();
        assert_eq!(installer_command(&args(&["D:\\setup.exe", flag])), InstallerCommand::Uninstall { clean });
    }
}

#[test]
fn registry_commands() {
    let key = "HKCU\\Software\\Microsoft\\Windows\\CurrentVersion\\Uninstall\\AI Assistant Client";
    assert_eq!(reg_add_args("DisplayName", "X"), args(&["add", key, "/v", "DisplayName", "/d", "X", "/f"]));
    assert_eq!(reg_delete_args(), args(&["delete", key, "/f"]));
}

#[test]
fn install_plan() {
    let e = env();
    let dir = plan("C:\\L", &["Programs", "AI-Assistant-Client"]);
    let app = plan("C:\\L", &["Programs", "AI-Assistant-Client", "AI-Assistant-Client.exe"]);
    assert_eq!(app_path(&e), app);
    let steps = install_steps(&e);
    assert_eq!(
        steps,
        vec![
            InstallStep::CreateDir(plan("C:\\L", &["Programs", "AI-Assistant-Client"])),
            InstallStep::WriteApp(plan("C:\\L", &["Programs", "AI-Assistant-Client", "AI-Assistant-Client.exe"])),
            InstallStep::CreateShortcut {
                link: plan("C:\\R", &["Microsoft", "Windows", "Start Menu", "Programs", "AI Assistant Client.lnk"]),
                target: plan("C:\\L", &["Programs", "AI-Assistant-Client", "AI-Assistant-Client.exe"]),
                workdir: plan("C:\\L", &["Programs", "AI-Assistant-Client"]),
            },
            InstallStep::CreateShortcut {
                link: plan("C:\\U", &["Desktop", "AI Assistant Client.lnk"]),
                target: plan("C:\\L", &["Programs", "AI-Assistant-Client", "AI-Assistant-Client.exe"]),
                workdir: plan("C:\\L", &["Programs", "AI-Assistant-Client"]),
            },
            InstallStep::WriteUninstallEntry { install_dir: dir, app_path: app },
        ]
    );
    let stops: Vec<bool> = steps.iter().map(|s| s.failure_stops()).collect();
    assert_eq!(stops, vec![true, true, false, false, false]);
}

#[test]
fn uninstall_plans() {
    let e = env();
    let plain = uninstall_steps(&e, false);
    assert_eq!(
        plain,
        vec![
            UninstallStep::RemoveFile(plan("C:\\R", &["Microsoft", "Windows", "Start Menu", "Programs", "AI Assistant Client.lnk"])),
            UninstallStep::RemoveFile(plan("C:\\U", &["Desktop", "AI Assistant Client.lnk"])),
            UninstallStep::RemoveFile(plan("C:\\R", &["Microsoft", "Windows", "Start Menu", "Programs", "AI Assistant Client.cmd"])),
            UninstallStep::RemoveFile(plan("C:\\U", &["Desktop", "AI Assistant Client.cmd"])),
            UninstallStep::DeleteUninstallEntry,
            UninstallStep::RemoveDirIfExists(install_dir(&e)),
        ]
    );
    assert!(!plain.contains(&UninstallStep::RemoveDirIfExists(data_dir(&e))));
    let clean = uninstall_steps(&e, true);
    assert_eq!(clean.len(), 7);
    assert_eq!(&clean[..6], &plain[..]);
    assert_eq!(clean[6], UninstallStep::RemoveDirIfExists(data_dir(&e)));
    let stops: Vec<bool> = clean.iter().map(|s| s.failure_stops()).collect();
    assert_eq!(stops, vec![false, false, false, false, false, true, true]);
}

#[test]
fn uninstall_undoes_install() {
    let e = env();
    for clean in [false, true] {
        let u = uninstall_steps(&e, clean);
        for step in install_steps(&e) {
            match step {
                InstallStep::CreateShortcut { link, .. } => assert!(u.contains(&UninstallStep::RemoveFile(link))),
                InstallStep::CreateDir(d) => assert!(u.contains(&UninstallStep::RemoveDirIfExists(d))),
                InstallStep::WriteApp(_) => assert!(u.contains(&UninstallStep::RemoveDirIfExists(install_dir(&e)))),
                InstallStep::WriteUninstallEntry { .. } => assert!(u.contains(&UninstallStep::DeleteUninstallEntry)),
            }
        }
    }
}

#[test]
fn command_line_uninstall_flow() {
    let (s, a) = run_step(RunState::Start, RunEvent::Launched(InstallerCommand::Uninstall { clean: false }));
    assert_eq!(s, RunState::Confirming { clean: false });
    assert_eq!(
        a,
        RunAction::Confirm("Uninstall AI Assistant Client?\n\nThis removes the app and shortcuts. Local chat data is kept.".to_string())
    );
    let (s, a) = run_step(s, RunEvent::Answered(true));
    assert_eq!(s, RunState::Uninstalling { clean: false });
    assert_eq!(a, RunAction::Uninstall { clean: false });
    let (s, a) = run_step(s, RunEvent::UninstallFinished(Ok(())));
    assert_eq!(s, RunState::Done);
    assert_eq!(
        a,
        RunAction::Report {
            message: "AI Assistant Client has been uninstalled.".to_string(),
            log: "AI Assistant Client uninstalled.".to_string(),
        }
    );
}

#[test]
fn command_line_clean_uninstall_flow() {
    let (s, a) = run_step(RunState::Start, RunEvent::Launched(InstallerCommand::Uninstall { clean: true }));
    assert_eq!(
        a,
        RunAction::Confirm("Clean uninstall AI Assistant Client?\n\nThis removes the app, shortcuts, and local data under %LOCALAPPDATA%\\AI-Assistant-Client.".to_string())
    );
    let (s, _) = run_step(s, RunEvent::Answered(true));
    let (_, a) = run_step(s, RunEvent::UninstallFinished(Ok(())));
    assert_eq!(
        a,
        RunAction::Report {
            message: "AI Assistant Client and local data have been removed.".to_string(),
            log: "AI Assistant Client uninstalled and data cleaned.".to_string(),
        }
    );
    let (_, a) = run_step(RunState::Uninstalling { clean: true }, RunEvent::UninstallFinished(Err("busy".to_string())));
    assert_eq!(
        a,
        RunAction::Fail { message: "Clean uninstall failed:\nbusy".to_string(), log: "Clean uninstall failed: busy".to_string() }
    );
}

#[test]
fn command_line_refusal_and_failures() {
    let (s, a) = run_step(RunState::Confirming { clean: true }, RunEvent::Answered(false));
    assert_eq!((s, a), (RunState::Done, RunAction::Exit));
    let (_, a) = run_step(RunState::Uninstalling { clean: false }, RunEvent::UninstallFinished(Err("denied".to_string())));
    assert_eq!(
        a,
        RunAction::Fail { message: "Uninstall failed:\ndenied".to_string(), log: "Uninstall failed: denied".to_string() }
    );
    let (s, a) = run_step(RunState::Start, RunEvent::Launched(InstallerCommand::SetupPanel));
    assert_eq!((s, a), (RunState::InPanel, RunAction::OpenPanel));
    let (_, a) = run_step(RunState::InPanel, RunEvent::PanelClosed(Err("no window".to_string())));
    assert_eq!(
        a,
        RunAction::Fail { message: "Setup panel failed:\nno window".to_string(), log: "Install failed: no window".to_string() }
    );
    assert_eq!(run_step(RunState::InPanel, RunEvent::PanelClosed(Ok(()))), (RunState::Done, RunAction::Exit));
    assert_eq!(run_step(RunState::Start, RunEvent::Launched(InstallerCommand::Help)), (RunState::Done, RunAction::PrintHelp));
}

#[test]
fn command_line_never_uninstalls_unasked() {
    assert_eq!(run_step(RunState::Start, RunEvent::Answered(true)), (RunState::Start, RunAction::Ignore));
    assert_eq!(
        run_step(RunState::InPanel, RunEvent::Answered(true)),
        (RunState::InPanel, RunAction::Ignore)
    );
}
