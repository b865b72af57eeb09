//! The desktop launcher: what it does for its flags, where its data lives,
//! and how it opens the chat page.

use vstd::prelude::*;
use crate::cli::{contains_flag, has_flag};
use crate::folders::{data_dir_spec, extend, push_segment, Environment, PathModel, PathPlan, PathRoot, RootModel};
use crate::text::{decimal, decimal_string, owned_strings, str_texts, texts};

verus! {

/// What the launcher was asked to do.
#[derive(Clone, Copy, Debug, PartialEq, Eq, Structural)]
pub enum DesktopCommand {
    /// Print the data folder (`--data-dir`).
    ShowDataDir,
    /// Delete the data folder (`--clear-data`).
    ClearData,
    /// Serve the chat page and open it.
    Serve,
}

/// `--data-dir` wins over `--clear-data`; without either the launcher serves.
pub open spec fn desktop_command_spec(args: Seq<Seq<char>>) -> DesktopCommand {
    if has_flag(args, "--data-dir"@) {
        DesktopCommand::ShowDataDir
    } else if has_flag(args, "--clear-data"@) {
        DesktopCommand::ClearData
    } else {
        DesktopCommand::Serve
    }
}

/// Reads the launcher's flags (all of the process's arguments).
pub fn desktop_command(args: &Vec<String>) -> (c: DesktopCommand)
    ensures
        c == desktop_command_spec(texts(args@)),
{
    if contains_flag(args, "--data-dir") {
        DesktopCommand::ShowDataDir
    } else if contains_flag(args, "--clear-data") {
        DesktopCommand::ClearData
    } else {
        DesktopCommand::Serve
    }
}

/// The launcher's data folder: the override when given, else the shared data
/// folder under the local application data.
pub open spec fn launcher_data_dir_spec(env: Environment) -> PathModel {
    match env.data_override {
        Some(v) => PathModel { root: RootModel::Given(v@), segments: Seq::empty() },
        None => data_dir_spec(env),
    }
}

/// The launcher's data folder.
pub fn data_dir(env: &Environment) -> (p: PathPlan)
    ensures
        p@ == launcher_data_dir_spec(*env),
{
    match &env.data_override {
        Some(v) => {
            let p = PathPlan { root: PathRoot::Given(v.clone()), segments: Vec::new() };
            assert(p@.segments =~= Seq::<Seq<char>>::empty());
            p
        },
        None => crate::folders::data_dir(env),
    }
}

/// The browser profile folder, inside the data folder.
pub fn edge_profile_dir(env: &Environment) -> (p: PathPlan)
    ensures
        p@ == extend(launcher_data_dir_spec(*env), seq!["edge-profile"@]),
{
    let mut p = data_dir(env);
    push_segment(&mut p, "edge-profile");
    p
}

/// The address of the page served on `port`.
pub open spec fn local_url_spec(port: u16) -> Seq<char> {
    "http://127.0.0.1:"@ + decimal(port as nat) + "/"@
}

/// The address of the page served on `port`.
pub fn local_url(port: u16) -> (url: String)
    ensures
        url@ == local_url_spec(port),
{
    let mut url = String::from_str("http://127.0.0.1:");
    let digits = decimal_string(port as usize);
    url.append(digits.as_str());
    url.append("/");
    url
}

/// The lines the launcher prints when it starts serving.
pub fn startup_banner(url: &str, data_dir_text: &str) -> (lines: Vec<String>)
    ensures
        texts(lines@) == seq![
            "AI Assistant Client"@,
            "URL: "@ + url@,
            "Data: "@ + data_dir_text@,
            "Clean: AI-Assistant-Client.exe --clear-data"@,
        ],
{
    let mut url_line = String::from_str("URL: ");
    url_line.append(url);
    let mut data_line = String::from_str("Data: ");
    data_line.append(data_dir_text);
    let lines = vec![
        String::from_str("AI Assistant Client"),
        url_line,
        data_line,
        String::from_str("Clean: AI-Assistant-Client.exe --clear-data"),
    ];
    assert(texts(lines@) =~= seq![
        "AI Assistant Client"@,
        "URL: "@ + url@,
        "Data: "@ + data_dir_text@,
        "Clean: AI-Assistant-Client.exe --clear-data"@,
    ]);
    lines
}

/// The line printed after the data folder was deleted.
pub fn cleaned_message(data_dir_text: &str) -> (m: String)
    ensures
        m@ == "Cleaned data directory: "@ + data_dir_text@,
{
    let mut m = String::from_str("Cleaned data directory: ");
    m.append(data_dir_text);
    m
}

/// The error line when the data folder could not be deleted.
pub fn clean_failed_message(error_text: &str) -> (m: String)
    ensures
        m@ == "Failed to clean data directory: "@ + error_text@,
{
    let mut m = String::from_str("Failed to clean data directory: ");
    m.append(error_text);
    m
}

/// The error line when the data folder could not be created.
pub fn create_failed_message(data_dir_text: &str, error_text: &str) -> (m: String)
    ensures
        m@ == "Failed to create data directory "@ + data_dir_text@ + ": "@ + error_text@,
{
    let mut m = String::from_str("Failed to create data directory ");
    m.append(data_dir_text);
    m.append(": ");
    m.append(error_text);
    m
}

/// A program to start and its arguments.
#[derive(Debug, PartialEq, Eq)]
pub struct Launch {
    pub program: String,
    pub args: Vec<String>,
}

/// Where Microsoft Edge is looked for, in order.
pub open spec fn edge_paths_spec() -> Seq<Seq<char>> {
    seq![
        "C:\\Program Files (x86)\\Microsoft\\Edge\\Application\\msedge.exe"@,
        "C:\\Program Files\\Microsoft\\Edge\\Application\\msedge.exe"@,
    ]
}

/// Where Microsoft Edge is looked for, in order.
pub fn edge_paths() -> (paths: Vec<&'static str>)
    ensures
        str_texts(paths@) == edge_paths_spec(),
{
    let paths = vec![
        "C:\\Program Files (x86)\\Microsoft\\Edge\\Application\\msedge.exe",
        "C:\\Program Files\\Microsoft\\Edge\\Application\\msedge.exe",
    ];
    assert(str_texts(paths@) =~= edge_paths_spec());
    paths
}

/// The first index at which `found` holds, if any.
pub open spec fn first_found(found: Seq<bool>) -> Option<int>
    decreases found.len(),
{
    if found.len() == 0 {
        None
    } else if found[0] {
        Some(0)
    } else {
        match first_found(found.drop_first()) {
            Some(i) => Some(i + 1),
            None => None,
        }
    }
}

/// The arguments that open `url` as an app window of Edge.
pub open spec fn edge_args_spec(url: Seq<char>, profile_dir: Seq<char>) -> Seq<Seq<char>> {
    seq![
        "--app"@,
        url,
        "--user-data-dir"@,
        profile_dir,
        "--no-first-run"@,
        "--disable-features=Translate"@,
    ]
}

/// The arguments that open `url` with the default browser.
pub open spec fn shell_open_args_spec(url: Seq<char>) -> Seq<Seq<char>> {
    seq!["/C"@, "start"@, ""@, url]
}

/// The entries of `found` that speak of a known Edge location.
pub open spec fn edge_flags(found: Seq<bool>) -> Seq<bool> {
    if found.len() <= 2 { found } else { found.take(2) }
}

/// How the page is opened: with the first Edge found (`found[i]` says whether
/// the `i`th of `edge_paths` exists), else through the shell's `start`.
pub open spec fn browser_launch_spec(found: Seq<bool>, url: Seq<char>, profile_dir: Seq<char>) -> (Seq<char>, Seq<Seq<char>>) {
    match first_found(edge_flags(found)) {
        Some(i) => (edge_paths_spec()[i], edge_args_spec(url, profile_dir)),
        None => ("cmd"@, shell_open_args_spec(url)),
    }
}

/// Chooses how to open the chat page.
pub fn browser_launch(found: &Vec<bool>, url: &str, profile_dir: &str) -> (l: Launch)
    ensures
        (l.program@, texts(l.args@)) == browser_launch_spec(found@, url@, profile_dir@),
{
    let paths = edge_paths();
    assert(str_texts(paths@).len() == 2);
    let ghost flags = edge_flags(found@);
    let n: usize = if found.len() <= 2 { found.len() } else { 2 };
    let mut i: usize = 0;
    assert(flags.skip(0) =~= flags);
    while i < n
        invariant
            n == flags.len(),
            n <= 2,
            i <= n,
            flags == edge_flags(found@),
            paths@.len() == 2,
            str_texts(paths@) == edge_paths_spec(),
            first_found(flags) == (match first_found(flags.skip(i as int)) {
                Some(j) => Some(j + i),
                None => None,
            }),
        decreases n - i,
    {
        assert(flags.skip(i as int).drop_first() =~= flags.skip(i + 1));
        assert(flags.skip(i as int)[0] == found@[i as int]);
        if found[i] {
            assert(str_texts(paths@)[i as int] == paths@[i as int]@);
            let args = owned_strings(vec!["--app", url, "--user-data-dir", profile_dir, "--no-first-run", "--disable-features=Translate"]);
            let program = String::from_str(paths[i]);
            assert(texts(args@) =~= edge_args_spec(url@, profile_dir@));
            return Launch { program, args };
        }
        i = i + 1;
    }
    assert(flags.skip(i as int) =~= Seq::<bool>::empty());
    let args = owned_strings(vec!["/C", "start", "", url]);
    assert(texts(args@) =~= shell_open_args_spec(url@));
    Launch { program: String::from_str("cmd"), args }
}

/// Without an override the launcher keeps its data in the installer's data
/// folder, so a clean uninstall removes exactly the launcher's data.
pub proof fn launcher_data_is_installer_data(env: Environment)
    requires
        env.data_override is None,
    ensures
        launcher_data_dir_spec(env) == data_dir_spec(env),
        crate::installer::uninstall_plan_spec(env, true).last()
            == crate::installer::UninstallStepModel::RemoveDirIfExists(launcher_data_dir_spec(env)),
{
}

/// A data-folder override is used exactly as given.
pub proof fn override_is_used_as_given(env: Environment, value: String)
    requires
        env.data_override == Some(value),
    ensures
        launcher_data_dir_spec(env) == (PathModel { root: RootModel::Given(value@), segments: Seq::empty() }),
{
}

/// Edge is used whenever one of its two standard locations holds it, the
/// first found in order, as an app window on the page with its own profile;
/// only when neither holds it is the page opened through the shell.
pub proof fn edge_is_used_when_found(found: Seq<bool>, url: Seq<char>, profile_dir: Seq<char>)
    ensures
        ({
            let (program, args) = browser_launch_spec(found, url, profile_dir);
            let edge_args = seq![
                "--app"@,
                url,
                "--user-data-dir"@,
                profile_dir,
                "--no-first-run"@,
                "--disable-features=Translate"@,
            ];
            &&& (found.len() > 0 && found[0]) ==> program
                == "C:\\Program Files (x86)\\Microsoft\\Edge\\Application\\msedge.exe"@ && args == edge_args
            &&& (found.len() > 1 && !found[0] && found[1]) ==> program
                == "C:\\Program Files\\Microsoft\\Edge\\Application\\msedge.exe"@ && args == edge_args
            &&& ((found.len() == 0 || !found[0]) && (found.len() <= 1 || !found[1])) ==> program == "cmd"@ && args
                == seq!["/C"@, "start"@, ""@, url]
        }),
{
    reveal_with_fuel(first_found, 3);
    let flags = edge_flags(found);
    assert(edge_paths_spec()[0] == "C:\\Program Files (x86)\\Microsoft\\Edge\\Application\\msedge.exe"@);
    assert(edge_paths_spec()[1] == "C:\\Program Files\\Microsoft\\Edge\\Application\\msedge.exe"@);
    if found.len() > 0 {
        assert(flags[0] == found[0]);
        assert(flags.drop_first().len() == flags.len() - 1);
        if flags.len() > 1 {
            assert(flags.drop_first()[0] == found[1]);
            assert(flags.drop_first().drop_first().len() == 0);
        } else {
            assert(flags.drop_first().len() == 0);
        }
    }
}

} // verus!
