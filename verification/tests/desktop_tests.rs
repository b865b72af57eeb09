use ai_assistant_client::desktop::{
    browser_launch, clean_failed_message, cleaned_message, create_failed_message, desktop_command, edge_paths,
    local_url, startup_banner, DesktopCommand,
};

fn args(a: &[&str]) -> Vec<String> {
    a.iter().map(|s| s.to_string()).collect()
}

#[test]
fn launcher_flags() {
    assert_eq!(desktop_command(&args(&["AI-Assistant-Client.exe"])), DesktopCommand::Serve);
    assert_eq!(desktop_command(&args(&["x", "--data-dir"])), DesktopCommand::ShowDataDir);
    assert_eq!(desktop_command(&args(&["x", "--clear-data"])), DesktopCommand::ClearData);
    assert_eq!(desktop_command(&args(&["x", "--clear-data", "--data-dir"])), DesktopCommand::ShowDataDir);
    assert_eq!(desktop_command(&args(&["x", "--data-dir=1"])), DesktopCommand::Serve);
    assert_eq!(desktop_command(&args(&[])), DesktopCommand::Serve);
}

#[test]
fn url_and_banner() {
    assert_eq!(local_url(4173), "http://127.0.0.1:4173/");
    assert_eq!(local_url(0), "http://127.0.0.1:0/");
    assert_eq!(local_url(65535), "http://127.0.0.1:65535/");
    assert_eq!(
        startup_banner("http://127.0.0.1:5000/", "C:\\L\\AI-Assistant-Client"),
        args(&[
            "AI Assistant Client",
            "URL: http://127.0.0.1:5000/",
            "Data: C:\\L\\AI-Assistant-Client",
            "Clean: AI-Assistant-Client.exe --clear-data",
        ])
    );
}

#[test]
fn messages() {
    assert_eq!(cleaned_message("C:\\d"), "Cleaned data directory: C:\\d");
    assert_eq!(clean_failed_message("denied"), "Failed to clean data directory: denied");
    assert_eq!(create_failed_message("C:\\d", "denied"), "Failed to create data directory C:\\d: denied");
}

#[test]
fn opens_with_first_edge_found() {
    let paths = edge_paths();
    assert_eq!(paths.len(), 2);
    let edge_args = args(&[
        "--app",
        "http://127.0.0.1:1/",
        "--user-data-dir",
        "C:\\p",
        "--no-first-run",
        "--disable-features=Translate",
    ]);
    let a = browser_launch(&vec![true, true], "http://127.0.0.1:1/", "C:\\p");
    assert_eq!(a.program, "C:\\Program Files (x86)\\Microsoft\\Edge\\Application\\msedge.exe");
    assert_eq!(a.args, edge_args);
    let b = browser_launch(&vec![false, true], "http://127.0.0.1:1/", "C:\\p");
    assert_eq!(b.program, "C:\\Program Files\\Microsoft\\Edge\\Application\\msedge.exe");
    assert_eq!(b.args, edge_args);
}

#[test]
fn falls_back_to_shell_start() {
    let c = browser_launch(&vec![false, false], "http://127.0.0.1:1/", "C:\\p");
    assert_eq!(c.program, "cmd");
    assert_eq!(c.args, args(&["/C", "start", "", "http://127.0.0.1:1/"]));
    let d = browser_launch(&vec![], "u", "p");
    assert_eq!(d.program, "cmd");
    let e = browser_launch(&vec![false, false, true], "u", "p");
    assert_eq!(e.program, "cmd");
}
