//! The Windows installer: its command line, what installing and uninstalling
//! do, and the uninstall entry it registers.

use vstd::prelude::*;
use crate::cli::{contains_flag, has_flag};
use crate::folders::{
    data_dir, data_dir_spec, desktop_dir, desktop_dir_spec, extend, install_dir, install_dir_spec,
    push_segment, start_menu_dir, start_menu_dir_spec, within, Environment, PathModel, PathPlan,
};
use crate::text::{owned_strings, str_texts, texts};

verus! {

/// The application's display name.
pub const APP_NAME: &'static str = "AI Assistant Client";
/// The file name of the installed program.
pub const APP_EXE_NAME: &'static str = "AI-Assistant-Client.exe";
/// The installer's version.
pub const VERSION: &'static str = "1.0.6";
/// The setup panel's "Install / Repair" button.
pub const ID_INSTALL: isize = 1001;
/// The setup panel's "Launch" button.
pub const ID_LAUNCH: isize = 1002;
/// The setup panel's "Uninstall" button.
pub const ID_UNINSTALL: isize = 1003;
/// The setup panel's "Clean Uninstall" button.
pub const ID_CLEAN: isize = 1004;
/// The setup panel's "Close" button.
pub const ID_CLOSE: isize = 1005;
/// The setup panel's status line.
pub const ID_STATUS: isize = 1010;

/// What the installer was asked to do.
#[derive(Clone, Copy, Debug, PartialEq, Eq, Structural)]
pub enum InstallerCommand {
    /// Print the usage text (`--help` or `/?`).
    Help,
    /// Remove the program (`--uninstall`), and its data too when `clean`
    /// (`--uninstall-clean`).
    Uninstall { clean: bool },
    /// Show the setup panel.
    SetupPanel,
}

/// Help wins over uninstalling, a plain uninstall over a clean one.
pub open spec fn installer_command_spec(args: Seq<Seq<char>>) -> InstallerCommand {
    if has_flag(args, "--help"@) || has_flag(args, "/?"@) {
        InstallerCommand::Help
    } else if has_flag(args, "--uninstall"@) {
        InstallerCommand::Uninstall { clean: false }
    } else if has_flag(args, "--uninstall-clean"@) {
        InstallerCommand::Uninstall { clean: true }
    } else {
        InstallerCommand::SetupPanel
    }
}

/// Reads the installer's flags (all of the process's arguments).
pub fn installer_command(args: &Vec<String>) -> (c: InstallerCommand)
    ensures
        c == installer_command_spec(texts(args@)),
{
    if contains_flag(args, "--help") || contains_flag(args, "/?") {
        InstallerCommand::Help
    } else if contains_flag(args, "--uninstall") {
        InstallerCommand::Uninstall { clean: false }
    } else if contains_flag(args, "--uninstall-clean") {
        InstallerCommand::Uninstall { clean: true }
    } else {
        InstallerCommand::SetupPanel
    }
}

/// The usage text, one line per entry.
pub open spec fn help_lines_spec() -> Seq<Seq<char>> {
    seq![
        "AI Assistant Client Setup 1.0.6"@,
        "Usage:"@,
        "  AI-Assistant-Client-Setup.exe              Install for current user"@,
        "  AI-Assistant-Client-Setup.exe --uninstall  Remove app files and shortcuts"@,
        "  AI-Assistant-Client-Setup.exe --uninstall-clean  Remove app and local data"@,
    ]
}

/// The usage text (printed by debug builds only).
pub fn help_lines() -> (lines: Vec<String>)
    ensures
        texts(lines@) == help_lines_spec(),
{
    let lines = owned_strings(vec![
        "AI Assistant Client Setup 1.0.6",
        "Usage:",
        "  AI-Assistant-Client-Setup.exe              Install for current user",
        "  AI-Assistant-Client-Setup.exe --uninstall  Remove app files and shortcuts",
        "  AI-Assistant-Client-Setup.exe --uninstall-clean  Remove app and local data",
    ]);
    assert(str_texts(seq![
        "AI Assistant Client Setup 1.0.6",
        "Usage:",
        "  AI-Assistant-Client-Setup.exe              Install for current user",
        "  AI-Assistant-Client-Setup.exe --uninstall  Remove app files and shortcuts",
        "  AI-Assistant-Client-Setup.exe --uninstall-clean  Remove app and local data",
    ]) =~= help_lines_spec());
    lines
}

/// The registry key of the uninstall entry.
pub open spec fn uninstall_key_spec() -> Seq<char> {
    "HKCU\\Software\\Microsoft\\Windows\\CurrentVersion\\Uninstall\\AI Assistant Client"@
}

/// The values of the uninstall entry Windows lists under "Apps", given the
/// install folder, the installed program and the setup program as text.
pub open spec fn uninstall_values_spec(
    install_location: Seq<char>,
    app_path: Seq<char>,
    setup_path: Seq<char>,
) -> Seq<(Seq<char>, Seq<char>)> {
    seq![
        ("DisplayName"@, "AI Assistant Client"@),
        ("DisplayVersion"@, "1.0.6"@),
        ("Publisher"@, "dongzhongcen"@),
        ("InstallLocation"@, install_location),
        ("DisplayIcon"@, app_path + ",0"@),
        ("UninstallString"@, "\""@ + setup_path + "\" --uninstall"@),
        ("QuietUninstallString"@, "\""@ + setup_path + "\" --uninstall-clean"@),
    ]
}

/// The text of each (name, value) pair.
pub open spec fn pair_texts(v: Seq<(String, String)>) -> Seq<(Seq<char>, Seq<char>)> {
    v.map_values(|p: (String, String)| (p.0@, p.1@))
}

/// The setup program named in the uninstall commands: the running setup
/// program when its path is known, else the installed program.
pub open spec fn setup_path_spec(current_exe: Option<Seq<char>>, app_path: Seq<char>) -> Seq<char> {
    match current_exe {
        Some(p) => p,
        None => app_path,
    }
}

fn pair(name: &str, value: String) -> (p: (String, String))
    ensures
        p.0@ == name@,
        p.1@ == value@,
{
    (String::from_str(name), value)
}

fn uninstall_command(setup: &str, clean: bool) -> (c: String)
    ensures
        c@ == "\""@ + setup@ + (if clean { "\" --uninstall-clean"@ } else { "\" --uninstall"@ }),
{
    let mut c = String::from_str("\"");
    c.append(setup);
    if clean {
        c.append("\" --uninstall-clean");
    } else {
        c.append("\" --uninstall");
    }
    c
}

/// The uninstall entry's values.
pub fn uninstall_values(install_location: &str, app_path: &str, current_exe: Option<&str>) -> (v: Vec<(String, String)>)
    ensures
        pair_texts(v@) == uninstall_values_spec(
            install_location@,
            app_path@,
            setup_path_spec(
                match current_exe {
                    Some(p) => Some(p@),
                    None => None,
                },
                app_path@,
            ),
        ),
{
    let setup = match current_exe {
        Some(p) => p,
        None => app_path,
    };
    let mut icon = String::from_str(app_path);
    icon.append(",0");
    let v = vec![
        pair("DisplayName", String::from_str("AI Assistant Client")),
        pair("DisplayVersion", String::from_str("1.0.6")),
        pair("Publisher", String::from_str("dongzhongcen")),
        pair("InstallLocation", String::from_str(install_location)),
        pair("DisplayIcon", icon),
        pair("UninstallString", uninstall_command(setup, false)),
        pair("QuietUninstallString", uninstall_command(setup, true)),
    ];
    let ghost setup_text = setup@;
    assert(pair_texts(v@) =~= uninstall_values_spec(install_location@, app_path@, setup_text));
    v
}

/// The arguments of `reg` that set one value of the uninstall entry.
pub open spec fn reg_add_args_spec(name: Seq<char>, value: Seq<char>) -> Seq<Seq<char>> {
    seq!["add"@, uninstall_key_spec(), "/v"@, name, "/d"@, value, "/f"@]
}

/// The arguments of `reg` that set one value of the uninstall entry.
pub fn reg_add_args(name: &str, value: &str) -> (args: Vec<String>)
    ensures
        texts(args@) == reg_add_args_spec(name@, value@),
{
    let args = owned_strings(vec![
        "add",
        "HKCU\\Software\\Microsoft\\Windows\\CurrentVersion\\Uninstall\\AI Assistant Client",
        "/v",
        name,
        "/d",
        value,
        "/f",
    ]);
    assert(texts(args@) =~= reg_add_args_spec(name@, value@));
    args
}

/// The arguments of `reg` that delete the uninstall entry.
pub open spec fn reg_delete_args_spec() -> Seq<Seq<char>> {
    seq!["delete"@, uninstall_key_spec(), "/f"@]
}

/// The arguments of `reg` that delete the uninstall entry.
pub fn reg_delete_args() -> (args: Vec<String>)
    ensures
        texts(args@) == reg_delete_args_spec(),
{
    let args = owned_strings(vec![
        "delete",
        "HKCU\\Software\\Microsoft\\Windows\\CurrentVersion\\Uninstall\\AI Assistant Client",
        "/f",
    ]);
    assert(texts(args@) =~= reg_delete_args_spec());
    args
}

/// One thing installing does.
#[derive(Debug, PartialEq, Eq)]
pub enum InstallStep {
    /// Create a folder and its parents; stops the install when it fails.
    CreateDir(PathPlan),
    /// Write the embedded program to a file; stops the install when it fails.
    WriteApp(PathPlan),
    /// Create a shell link at `link` that starts `target` in `workdir`; a
    /// failure is ignored.
    CreateShortcut { link: PathPlan, target: PathPlan, workdir: PathPlan },
    /// Register the uninstall entry; a failure is ignored.
    WriteUninstallEntry { install_dir: PathPlan, app_path: PathPlan },
}

impl InstallStep {
    /// Whether a failure of this step ends the install.
    pub fn failure_stops(&self) -> (b: bool)
        ensures
            b == (self is CreateDir || self is WriteApp),
    {
        match self {
            InstallStep::CreateDir(_) | InstallStep::WriteApp(_) => true,
            _ => false,
        }
    }
}

/// The mathematical form of an `InstallStep`.
pub enum InstallStepModel {
    CreateDir(PathModel),
    WriteApp(PathModel),
    CreateShortcut(PathModel, PathModel, PathModel),
    WriteUninstallEntry(PathModel, PathModel),
}

impl View for InstallStep {
    type V = InstallStepModel;

    open spec fn view(&self) -> InstallStepModel {
        match self {
            InstallStep::CreateDir(p) => InstallStepModel::CreateDir(p@),
            InstallStep::WriteApp(p) => InstallStepModel::WriteApp(p@),
            InstallStep::CreateShortcut { link, target, workdir } => InstallStepModel::CreateShortcut(
                link@,
                target@,
                workdir@,
            ),
            InstallStep::WriteUninstallEntry { install_dir, app_path } => InstallStepModel::WriteUninstallEntry(
                install_dir@,
                app_path@,
            ),
        }
    }
}

/// One thing uninstalling does.
#[derive(Debug, PartialEq, Eq)]
pub enum UninstallStep {
    /// Delete a file; a failure is ignored.
    RemoveFile(PathPlan),
    /// Delete the uninstall entry; a failure is ignored.
    DeleteUninstallEntry,
    /// Delete a folder and everything in it when it exists; stops the
    /// uninstall when it fails.
    RemoveDirIfExists(PathPlan),
}

impl UninstallStep {
    /// Whether a failure of this step ends the uninstall.
    pub fn failure_stops(&self) -> (b: bool)
        ensures
            b == self is RemoveDirIfExists,
    {
        match self {
            UninstallStep::RemoveDirIfExists(_) => true,
            _ => false,
        }
    }
}

/// The mathematical form of an `UninstallStep`.
pub enum UninstallStepModel {
    RemoveFile(PathModel),
    DeleteUninstallEntry,
    RemoveDirIfExists(PathModel),
}

impl View for UninstallStep {
    type V = UninstallStepModel;

    open spec fn view(&self) -> UninstallStepModel {
        match self {
            UninstallStep::RemoveFile(p) => UninstallStepModel::RemoveFile(p@),
            UninstallStep::DeleteUninstallEntry => UninstallStepModel::DeleteUninstallEntry,
            UninstallStep::RemoveDirIfExists(p) => UninstallStepModel::RemoveDirIfExists(p@),
        }
    }
}

/// The installed program.
pub open spec fn app_path_spec(env: Environment) -> PathModel {
    extend(install_dir_spec(env), seq!["AI-Assistant-Client.exe"@])
}

/// The Start menu shortcut.
pub open spec fn start_menu_link_spec(env: Environment) -> PathModel {
    extend(start_menu_dir_spec(env), seq!["AI Assistant Client.lnk"@])
}

/// The desktop shortcut.
pub open spec fn desktop_link_spec(env: Environment) -> PathModel {
    extend(desktop_dir_spec(env), seq!["AI Assistant Client.lnk"@])
}

/// Installing: create the program folder, write the program, link it from
/// the Start menu and the desktop, register the uninstall entry.
pub open spec fn install_plan_spec(env: Environment) -> Seq<InstallStepModel> {
    let dir = install_dir_spec(env);
    let app = app_path_spec(env);
    seq![
        InstallStepModel::CreateDir(dir),
        InstallStepModel::WriteApp(app),
        InstallStepModel::CreateShortcut(start_menu_link_spec(env), app, dir),
        InstallStepModel::CreateShortcut(desktop_link_spec(env), app, dir),
        InstallStepModel::WriteUninstallEntry(dir, app),
    ]
}

/// Uninstalling: remove the shortcuts (and the command-file shortcuts of
/// older versions), the uninstall entry and the program folder; a clean
/// uninstall then removes the data folder too.
pub open spec fn uninstall_plan_spec(env: Environment, clean: bool) -> Seq<UninstallStepModel> {
    let base = seq![
        UninstallStepModel::RemoveFile(start_menu_link_spec(env)),
        UninstallStepModel::RemoveFile(desktop_link_spec(env)),
        UninstallStepModel::RemoveFile(extend(start_menu_dir_spec(env), seq!["AI Assistant Client.cmd"@])),
        UninstallStepModel::RemoveFile(extend(desktop_dir_spec(env), seq!["AI Assistant Client.cmd"@])),
        UninstallStepModel::DeleteUninstallEntry,
        UninstallStepModel::RemoveDirIfExists(install_dir_spec(env)),
    ];
    if clean {
        base.push(UninstallStepModel::RemoveDirIfExists(data_dir_spec(env)))
    } else {
        base
    }
}

/// The form of each step of a list.
pub open spec fn install_models(v: Seq<InstallStep>) -> Seq<InstallStepModel> {
    v.map_values(|s: InstallStep| s@)
}

/// The form of each step of a list.
pub open spec fn uninstall_models(v: Seq<UninstallStep>) -> Seq<UninstallStepModel> {
    v.map_values(|s: UninstallStep| s@)
}

fn child(parent: PathPlan, name: &str) -> (p: PathPlan)
    ensures
        p@ == extend(parent@, seq![name@]),
{
    let mut p = parent;
    push_segment(&mut p, name);
    p
}

/// The installed program's path.
pub fn app_path(env: &Environment) -> (p: PathPlan)
    ensures
        p@ == app_path_spec(*env),
{
    child(install_dir(env), "AI-Assistant-Client.exe")
}

/// What installing does, in order.
pub fn install_steps(env: &Environment) -> (steps: Vec<InstallStep>)
    ensures
        install_models(steps@) == install_plan_spec(*env),
{
    let steps = vec![
        InstallStep::CreateDir(install_dir(env)),
        InstallStep::WriteApp(app_path(env)),
        InstallStep::CreateShortcut {
            link: child(start_menu_dir(env), "AI Assistant Client.lnk"),
            target: app_path(env),
            workdir: install_dir(env),
        },
        InstallStep::CreateShortcut {
            link: child(desktop_dir(env), "AI Assistant Client.lnk"),
            target: app_path(env),
            workdir: install_dir(env),
        },
        InstallStep::WriteUninstallEntry { install_dir: install_dir(env), app_path: app_path(env) },
    ];
    assert(install_models(steps@) =~= install_plan_spec(*env));
    steps
}

/// What uninstalling does, in order.
pub fn uninstall_steps(env: &Environment, clean: bool) -> (steps: Vec<UninstallStep>)
    ensures
        uninstall_models(steps@) == uninstall_plan_spec(*env, clean),
{
    let mut steps = vec![
        UninstallStep::RemoveFile(child(start_menu_dir(env), "AI Assistant Client.lnk")),
        UninstallStep::RemoveFile(child(desktop_dir(env), "AI Assistant Client.lnk")),
        UninstallStep::RemoveFile(child(start_menu_dir(env), "AI Assistant Client.cmd")),
        UninstallStep::RemoveFile(child(desktop_dir(env), "AI Assistant Client.cmd")),
        UninstallStep::DeleteUninstallEntry,
        UninstallStep::RemoveDirIfExists(install_dir(env)),
    ];
    if clean {
        steps.push(UninstallStep::RemoveDirIfExists(data_dir(env)));
    }
    assert(uninstall_models(steps@) =~= uninstall_plan_spec(*env, clean));
    steps
}

proof fn lemma_differs_at(p: PathModel, q: PathModel, k: int)
    requires
        0 <= k < q.segments.len(),
        k < p.segments.len(),
        p.segments[k] != q.segments[k],
    ensures
        !within(p, q),
{
    if within(p, q) {
        assert(p.segments.take(q.segments.len() as int)[k] == p.segments[k]);
    }
}

/// A plain uninstall keeps the user's data: no file it deletes lies in the
/// data folder, and the only folder it removes is the program folder, which
/// does not hold the data folder. Folders are compared as plans (the same
/// root value, then folder names); that one environment value may itself
/// name a folder inside another is beyond what this compares.
pub proof fn plain_uninstall_keeps_data(env: Environment)
    ensures
        forall|i: int|
            0 <= i < uninstall_plan_spec(env, false).len() ==> match #[trigger] uninstall_plan_spec(env, false)[i] {
                UninstallStepModel::RemoveFile(p) => !within(p, data_dir_spec(env)),
                UninstallStepModel::RemoveDirIfExists(p) => p == install_dir_spec(env) && !within(data_dir_spec(env), p),
                UninstallStepModel::DeleteUninstallEntry => true,
            },
{
    crate::folders::program_and_data_folders_apart(env);
    reveal_strlit("Microsoft");
    reveal_strlit("Desktop");
    reveal_strlit("AppData");
    reveal_strlit("AI-Assistant-Client");
    assert("Microsoft"@ != "AI-Assistant-Client"@) by {
        assert("Microsoft"@.len() != "AI-Assistant-Client"@.len());
    }
    assert("Microsoft"@ != "AppData"@) by {
        assert("Microsoft"@.len() != "AppData"@.len());
    }
    assert("Desktop"@ != "AI-Assistant-Client"@) by {
        assert("Desktop"@.len() != "AI-Assistant-Client"@.len());
    }
    assert("Desktop"@ != "AppData"@) by {
        assert("Desktop"@[0] != "AppData"@[0]);
    }
    let data = data_dir_spec(env);
    let base = crate::folders::local_app_data_spec(env);
    let sm = start_menu_dir_spec(env);
    let dk = desktop_dir_spec(env);
    let names = seq!["AI Assistant Client.lnk"@, "AI Assistant Client.cmd"@];
    assert forall|j: int| 0 <= j < 2 implies !within(#[trigger] extend(sm, seq![names[j]]), data) by {
        let p = extend(sm, seq![names[j]]);
        if p.root == data.root {
            if env.app_data is Some {
                if env.local_app_data is Some {
                    lemma_differs_at(p, data, 0);
                } else {
                    assert(data.segments[0] == "AppData"@);
                    lemma_differs_at(p, data, 0);
                }
            } else {
                lemma_differs_at(p, data, base.segments.len() as int);
            }
        }
    }
    assert forall|j: int| 0 <= j < 2 implies !within(#[trigger] extend(dk, seq![names[j]]), data) by {
        let p = extend(dk, seq![names[j]]);
        if p.root == data.root {
            if env.user_profile is Some {
                lemma_differs_at(p, data, 0);
            } else {
                lemma_differs_at(p, data, base.segments.len() as int);
            }
        }
    }
    assert(names[0] == "AI Assistant Client.lnk"@);
    assert(names[1] == "AI Assistant Client.cmd"@);
}

/// A clean uninstall does everything a plain one does, then removes the data
/// folder.
pub proof fn clean_uninstall_removes_data(env: Environment)
    ensures
        uninstall_plan_spec(env, true).len() == uninstall_plan_spec(env, false).len() + 1,
        uninstall_plan_spec(env, true).take(uninstall_plan_spec(env, false).len() as int)
            == uninstall_plan_spec(env, false),
        uninstall_plan_spec(env, true).last() == UninstallStepModel::RemoveDirIfExists(data_dir_spec(env)),
{
    assert(uninstall_plan_spec(env, true).take(uninstall_plan_spec(env, false).len() as int)
        =~= uninstall_plan_spec(env, false));
}

/// The shortcuts start the installed program in its folder, never the setup
/// program.
pub proof fn shortcuts_start_the_app(env: Environment)
    ensures
        forall|i: int|
            0 <= i < install_plan_spec(env).len() ==> match #[trigger] install_plan_spec(env)[i] {
                InstallStepModel::CreateShortcut(_, target, workdir) => target == app_path_spec(env)
                    && workdir == install_dir_spec(env),
                _ => true,
            },
{
}

/// Uninstalling (plain or clean) undoes installing: every shortcut made is
/// removed, the program folder and the program in it are removed, and the
/// uninstall entry is deleted.
pub proof fn uninstall_undoes_install(env: Environment, clean: bool)
    ensures
        forall|i: int|
            0 <= i < install_plan_spec(env).len() ==> match #[trigger] install_plan_spec(env)[i] {
                InstallStepModel::CreateShortcut(link, _, _) => uninstall_plan_spec(env, clean).contains(
                    UninstallStepModel::RemoveFile(link),
                ),
                InstallStepModel::CreateDir(d) => uninstall_plan_spec(env, clean).contains(
                    UninstallStepModel::RemoveDirIfExists(d),
                ),
                InstallStepModel::WriteApp(a) => uninstall_plan_spec(env, clean).contains(
                    UninstallStepModel::RemoveDirIfExists(install_dir_spec(env)),
                ) && within(a, install_dir_spec(env)),
                InstallStepModel::WriteUninstallEntry(_, _) => uninstall_plan_spec(env, clean).contains(
                    UninstallStepModel::DeleteUninstallEntry,
                ),
            },
{
    let u = uninstall_plan_spec(env, clean);
    assert(u[0] == UninstallStepModel::RemoveFile(start_menu_link_spec(env)));
    assert(u[1] == UninstallStepModel::RemoveFile(desktop_link_spec(env)));
    assert(u[4] == UninstallStepModel::DeleteUninstallEntry);
    assert(u[5] == UninstallStepModel::RemoveDirIfExists(install_dir_spec(env)));
    let a = app_path_spec(env);
    let d = install_dir_spec(env);
    assert(a.segments.take(d.segments.len() as int) =~= d.segments);
}

/// The uninstall commands registered with Windows reach the matching
/// uninstall: started with `--uninstall` the setup program removes the
/// program, started with `--uninstall-clean` it removes the data too.
pub proof fn uninstall_entry_runs_uninstall(setup: Seq<char>)
    requires
        setup != "--help"@,
        setup != "/?"@,
        setup != "--uninstall"@,
        setup != "--uninstall-clean"@,
    ensures
        installer_command_spec(seq![setup, "--uninstall"@]) == (InstallerCommand::Uninstall { clean: false }),
        installer_command_spec(seq![setup, "--uninstall-clean"@]) == (InstallerCommand::Uninstall { clean: true }),
{
    reveal_strlit("--help");
    reveal_strlit("/?");
    reveal_strlit("--uninstall");
    reveal_strlit("--uninstall-clean");
    let plain = seq![setup, "--uninstall"@];
    let clean = seq![setup, "--uninstall-clean"@];
    assert(plain[1] == "--uninstall"@);
    assert(clean[1] == "--uninstall-clean"@);
    assert(!has_flag(plain, "--help"@));
    assert(!has_flag(plain, "/?"@));
    assert(!has_flag(clean, "--help"@));
    assert(!has_flag(clean, "/?"@));
    assert(!has_flag(clean, "--uninstall"@));
}

/// Where the installer's command-line run stands.
#[derive(Clone, Copy, Debug, PartialEq, Eq, Structural)]
pub enum RunState {
    /// Nothing done yet.
    Start,
    /// Waiting for the user to confirm an uninstall.
    Confirming { clean: bool },
    /// Waiting for an uninstall to finish.
    Uninstalling { clean: bool },
    /// The setup panel is open.
    InPanel,
    /// The run is over.
    Done,
}

/// What happened outside the installer's logic.
#[derive(Debug, PartialEq, Eq)]
pub enum RunEvent {
    /// The installer started with this command.
    Launched(InstallerCommand),
    /// The user answered the confirmation (`true` for yes).
    Answered(bool),
    /// The uninstall finished, or failed with this error text.
    UninstallFinished(Result<(), String>),
    /// The setup panel closed, or failed with this error text.
    PanelClosed(Result<(), String>),
}

/// What the installer does next.
#[derive(Debug, PartialEq, Eq)]
pub enum RunAction {
    /// Print the usage text.
    PrintHelp,
    /// Ask a yes/no question.
    Confirm(String),
    /// Run the uninstall.
    Uninstall { clean: bool },
    /// Show an information dialog and log a line.
    Report { message: String, log: String },
    /// Show an error dialog, log a line and exit with status 1.
    Fail { message: String, log: String },
    /// Open the setup panel.
    OpenPanel,
    /// End the run normally.
    Exit,
    /// Nothing: the event does not belong to the current state.
    Ignore,
}

/// The mathematical form of a `RunAction`.
pub enum RunActionModel {
    PrintHelp,
    Confirm(Seq<char>),
    Uninstall { clean: bool },
    Report { message: Seq<char>, log: Seq<char> },
    Fail { message: Seq<char>, log: Seq<char> },
    OpenPanel,
    Exit,
    Ignore,
}

impl View for RunAction {
    type V = RunActionModel;

    open spec fn view(&self) -> RunActionModel {
        match self {
            RunAction::PrintHelp => RunActionModel::PrintHelp,
            RunAction::Confirm(q) => RunActionModel::Confirm(q@),
            RunAction::Uninstall { clean } => RunActionModel::Uninstall { clean: *clean },
            RunAction::Report { message, log } => RunActionModel::Report { message: message@, log: log@ },
            RunAction::Fail { message, log } => RunActionModel::Fail { message: message@, log: log@ },
            RunAction::OpenPanel => RunActionModel::OpenPanel,
            RunAction::Exit => RunActionModel::Exit,
            RunAction::Ignore => RunActionModel::Ignore,
        }
    }
}

/// The question asked before an uninstall started from the command line.
pub open spec fn uninstall_question(clean: bool) -> Seq<char> {
    if clean {
        "Clean uninstall AI Assistant Client?\n\nThis removes the app, shortcuts, and local data under %LOCALAPPDATA%\\AI-Assistant-Client."@
    } else {
        "Uninstall AI Assistant Client?\n\nThis removes the app and shortcuts. Local chat data is kept."@
    }
}

/// The installer's next state and action after `event`.
pub open spec fn run_step_spec(state: RunState, event: RunEvent) -> (RunState, RunActionModel) {
    match (state, event) {
        (RunState::Start, RunEvent::Launched(InstallerCommand::Help)) => (RunState::Done, RunActionModel::PrintHelp),
        (RunState::Start, RunEvent::Launched(InstallerCommand::Uninstall { clean })) => (
            RunState::Confirming { clean },
            RunActionModel::Confirm(uninstall_question(clean)),
        ),
        (RunState::Start, RunEvent::Launched(InstallerCommand::SetupPanel)) => (RunState::InPanel, RunActionModel::OpenPanel),
        (RunState::Confirming { clean }, RunEvent::Answered(yes)) => if yes {
            (RunState::Uninstalling { clean }, RunActionModel::Uninstall { clean })
        } else {
            (RunState::Done, RunActionModel::Exit)
        },
        (RunState::Uninstalling { clean }, RunEvent::UninstallFinished(Ok(()))) => (
            RunState::Done,
            if clean {
                RunActionModel::Report {
                    message: "AI Assistant Client and local data have been removed."@,
                    log: "AI Assistant Client uninstalled and data cleaned."@,
                }
            } else {
                RunActionModel::Report {
                    message: "AI Assistant Client has been uninstalled."@,
                    log: "AI Assistant Client uninstalled."@,
                }
            },
        ),
        (RunState::Uninstalling { clean }, RunEvent::UninstallFinished(Err(e))) => (
            RunState::Done,
            if clean {
                RunActionModel::Fail {
                    message: "Clean uninstall failed:\n"@ + e@,
                    log: "Clean uninstall failed: "@ + e@,
                }
            } else {
                RunActionModel::Fail { message: "Uninstall failed:\n"@ + e@, log: "Uninstall failed: "@ + e@ }
            },
        ),
        (RunState::InPanel, RunEvent::PanelClosed(Ok(()))) => (RunState::Done, RunActionModel::Exit),
        (RunState::InPanel, RunEvent::PanelClosed(Err(e))) => (
            RunState::Done,
            RunActionModel::Fail { message: "Setup panel failed:\n"@ + e@, log: "Install failed: "@ + e@ },
        ),
        _ => (state, RunActionModel::Ignore),
    }
}

fn joined(prefix: &str, detail: &String) -> (s: String)
    ensures
        s@ == prefix@ + detail@,
{
    let mut s = String::from_str(prefix);
    s.append(detail.as_str());
    s
}

/// Advances the installer's command-line run.
pub fn run_step(state: RunState, event: RunEvent) -> (r: (RunState, RunAction))
    ensures
        (r.0, r.1@) == run_step_spec(state, event),
{
    match (state, event) {
        (RunState::Start, RunEvent::Launched(InstallerCommand::Help)) => (RunState::Done, RunAction::PrintHelp),
        (RunState::Start, RunEvent::Launched(InstallerCommand::Uninstall { clean })) => {
            let question = if clean {
                String::from_str(
                    "Clean uninstall AI Assistant Client?\n\nThis removes the app, shortcuts, and local data under %LOCALAPPDATA%\\AI-Assistant-Client.",
                )
            } else {
                String::from_str(
                    "Uninstall AI Assistant Client?\n\nThis removes the app and shortcuts. Local chat data is kept.",
                )
            };
            (RunState::Confirming { clean }, RunAction::Confirm(question))
        },
        (RunState::Start, RunEvent::Launched(InstallerCommand::SetupPanel)) => (RunState::InPanel, RunAction::OpenPanel),
        (RunState::Confirming { clean }, RunEvent::Answered(yes)) => if yes {
            (RunState::Uninstalling { clean }, RunAction::Uninstall { clean })
        } else {
            (RunState::Done, RunAction::Exit)
        },
        (RunState::Uninstalling { clean }, RunEvent::UninstallFinished(Ok(()))) => {
            let action = if clean {
                RunAction::Report {
                    message: String::from_str("AI Assistant Client and local data have been removed."),
                    log: String::from_str("AI Assistant Client uninstalled and data cleaned."),
                }
            } else {
                RunAction::Report {
                    message: String::from_str("AI Assistant Client has been uninstalled."),
                    log: String::from_str("AI Assistant Client uninstalled."),
                }
            };
            (RunState::Done, action)
        },
        (RunState::Uninstalling { clean }, RunEvent::UninstallFinished(Err(e))) => {
            let action = if clean {
                RunAction::Fail {
                    message: joined("Clean uninstall failed:\n", &e),
                    log: joined("Clean uninstall failed: ", &e),
                }
            } else {
                RunAction::Fail { message: joined("Uninstall failed:\n", &e), log: joined("Uninstall failed: ", &e) }
            };
            (RunState::Done, action)
        },
        (RunState::InPanel, RunEvent::PanelClosed(Ok(()))) => (RunState::Done, RunAction::Exit),
        (RunState::InPanel, RunEvent::PanelClosed(Err(e))) => (
            RunState::Done,
            RunAction::Fail { message: joined("Setup panel failed:\n", &e), log: joined("Install failed: ", &e) },
        ),
        _ => (state, RunAction::Ignore),
    }
}

/// A command-line uninstall runs only right after the user said yes, and
/// with the kind of uninstall that was asked about.
pub proof fn run_uninstalls_only_when_confirmed(state: RunState, event: RunEvent)
    ensures
        run_step_spec(state, event).1 matches RunActionModel::Uninstall { clean } ==> state == (RunState::Confirming { clean })
            && event == RunEvent::Answered(true),
{
}

/// A command-line uninstall asks first, runs (of the kind asked about) once
/// the user says yes, stops when the user says no, and reports its outcome.
pub proof fn command_line_uninstall_runs_when_confirmed(clean: bool, e: String)
    ensures
        run_step_spec(RunState::Start, RunEvent::Launched(InstallerCommand::Uninstall { clean })) == (
            RunState::Confirming { clean },
            RunActionModel::Confirm(if clean {
                "Clean uninstall AI Assistant Client?\n\nThis removes the app, shortcuts, and local data under %LOCALAPPDATA%\\AI-Assistant-Client."@
            } else {
                "Uninstall AI Assistant Client?\n\nThis removes the app and shortcuts. Local chat data is kept."@
            }),
        ),
        run_step_spec(RunState::Confirming { clean }, RunEvent::Answered(true)) == (
            RunState::Uninstalling { clean },
            RunActionModel::Uninstall { clean },
        ),
        run_step_spec(RunState::Confirming { clean }, RunEvent::Answered(false)) == (RunState::Done, RunActionModel::Exit),
        run_step_spec(RunState::Uninstalling { clean }, RunEvent::UninstallFinished(Ok(()))) == (
            RunState::Done,
            if clean {
                RunActionModel::Report {
                    message: "AI Assistant Client and local data have been removed."@,
                    log: "AI Assistant Client uninstalled and data cleaned."@,
                }
            } else {
                RunActionModel::Report {
                    message: "AI Assistant Client has been uninstalled."@,
                    log: "AI Assistant Client uninstalled."@,
                }
            },
        ),
        run_step_spec(RunState::Uninstalling { clean }, RunEvent::UninstallFinished(Err(e))) == (
            RunState::Done,
            if clean {
                RunActionModel::Fail { message: "Clean uninstall failed:\n"@ + e@, log: "Clean uninstall failed: "@ + e@ }
            } else {
                RunActionModel::Fail { message: "Uninstall failed:\n"@ + e@, log: "Uninstall failed: "@ + e@ }
            },
        ),
{
}

/// Help prints the usage text, and the setup panel opens when no flag is
/// given; a panel failure ends the run with an error.
pub proof fn command_line_help_and_panel(e: String)
    ensures
        run_step_spec(RunState::Start, RunEvent::Launched(InstallerCommand::Help)) == (RunState::Done, RunActionModel::PrintHelp),
        run_step_spec(RunState::Start, RunEvent::Launched(InstallerCommand::SetupPanel)) == (RunState::InPanel, RunActionModel::OpenPanel),
        run_step_spec(RunState::InPanel, RunEvent::PanelClosed(Ok(()))) == (RunState::Done, RunActionModel::Exit),
        run_step_spec(RunState::InPanel, RunEvent::PanelClosed(Err(e))) == (
            RunState::Done,
            RunActionModel::Fail { message: "Setup panel failed:\n"@ + e@, log: "Install failed: "@ + e@ },
        ),
{
}

} // verus!
