use ai_assistant_client::desktop::{data_dir as launcher_data_dir, edge_profile_dir};
use ai_assistant_client::folders::{
    data_dir, desktop_dir, install_dir, local_app_data, start_menu_dir, Environment, PathPlan, PathRoot,
};

fn env(local: Option<&str>, profile: Option<&str>, roaming: Option<&str>, cwd: bool) -> Environment {
    Environment {
        data_override: None,
        local_app_data: local.map(|s| s.to_string()),
        user_profile: profile.map(|s| s.to_string()),
        app_data: roaming.map(|s| s.to_string()),
        has_working_dir: cwd,
    }
}

fn plan(root: PathRoot, segments: &[&str]) -> PathPlan {
    PathPlan { root, segments: segments.iter().map(|s| s.to_string()).collect() }
}

fn given(s: &str) -> PathRoot {
    PathRoot::Given(s.to_string())
}

#[test]
fn local_app_data_fallbacks() {
    let full = env(Some("C:\\L"), Some("C:\\U"), Some("C:\\R"), true);
    assert_eq!(local_app_data(&full), plan(given("C:\\L"), &[]));
    let no_local = env(None, Some("C:\\U"), None, true);
    assert_eq!(local_app_data(&no_local), plan(given("C:\\U"), &["AppData", "Local"]));
    assert_eq!(local_app_data(&env(None, None, None, true)), plan(PathRoot::WorkingDir, &[]));
    assert_eq!(local_app_data(&env(None, None, None, false)), plan(PathRoot::Here, &[]));
}

#[test]
fn installer_folders() {
    let e = env(Some("C:\\L"), Some("C:\\U"), Some("C:\\R"), true);
    assert_eq!(install_dir(&e), plan(given("C:\\L"), &["Programs", "AI-Assistant-Client"]));
    assert_eq!(data_dir(&e), plan(given("C:\\L"), &["AI-Assistant-Client"]));
    assert_eq!(start_menu_dir(&e), plan(given("C:\\R"), &["Microsoft", "Windows", "Start Menu", "Programs"]));
    assert_eq!(desktop_dir(&e), plan(given("C:\\U"), &["Desktop"]));
}

#[test]
fn installer_folders_without_roaming_or_profile() {
    let e = env(Some("C:\\L"), None, None, true);
    assert_eq!(
        start_menu_dir(&e),
        plan(given("C:\\L"), &["Microsoft", "Windows", "Start Menu", "Programs"])
    );
    assert_eq!(desktop_dir(&e), plan(given("C:\\L"), &["Desktop"]));
    let bare = env(None, None, None, false);
    assert_eq!(desktop_dir(&bare), plan(PathRoot::Here, &["Desktop"]));
}

#[test]
fn program_and_data_folders_are_apart() {
    let e = env(None, Some("C:\\U"), None, true);
    let install = install_dir(&e);
    let data = data_dir(&e);
    assert_eq!(install.root, data.root);
    assert!(!install.segments.starts_with(&data.segments));
    assert!(!data.segments.starts_with(&install.segments));
}

#[test]
fn launcher_shares_installer_data_folder() {
    let e = env(Some("C:\\L"), Some("C:\\U"), None, true);
    assert_eq!(launcher_data_dir(&e), data_dir(&e));
    assert_eq!(edge_profile_dir(&e), plan(given("C:\\L"), &["AI-Assistant-Client", "edge-profile"]));
}

#[test]
fn launcher_override_is_used_as_given() {
    let mut e = env(Some("C:\\L"), None, None, true);
    e.data_override = Some("D:\\AI-Assistant-Data".to_string());
    assert_eq!(launcher_data_dir(&e), plan(given("D:\\AI-Assistant-Data"), &[]));
    assert_eq!(edge_profile_dir(&e), plan(given("D:\\AI-Assistant-Data"), &["edge-profile"]));
}
