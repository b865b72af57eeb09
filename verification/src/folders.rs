//! Where the installer and the launcher put things: every folder is a root
//! taken from the user's environment followed by fixed folder names.

use vstd::prelude::*;

verus! {

/// The environment values the folder layout is computed from. A variable is
/// `None` when it is unset or not valid Unicode.
#[derive(Debug, PartialEq, Eq)]
pub struct Environment {
    /// `AI_ASSISTANT_CLIENT_DATA`: a user's override of the data folder.
    pub data_override: Option<String>,
    /// `LOCALAPPDATA`.
    pub local_app_data: Option<String>,
    /// `USERPROFILE`.
    pub user_profile: Option<String>,
    /// `APPDATA`.
    pub app_data: Option<String>,
    /// Whether the process's working directory could be read.
    pub has_working_dir: bool,
}

/// Where a folder path starts.
#[derive(Debug, PartialEq, Eq)]
pub enum PathRoot {
    /// A path taken verbatim from an environment variable.
    Given(String),
    /// The process's working directory.
    WorkingDir,
    /// The relative path `.`.
    Here,
}

/// A folder: its root followed by folder names, joined in order.
#[derive(Debug, PartialEq, Eq)]
pub struct PathPlan {
    pub root: PathRoot,
    pub segments: Vec<String>,
}

/// The mathematical form of a `PathRoot`.
pub enum RootModel {
    Given(Seq<char>),
    WorkingDir,
    Here,
}

/// The mathematical form of a `PathPlan`.
pub struct PathModel {
    pub root: RootModel,
    pub segments: Seq<Seq<char>>,
}

impl View for PathPlan {
    type V = PathModel;

    open spec fn view(&self) -> PathModel {
        PathModel {
            root: match self.root {
                PathRoot::Given(s) => RootModel::Given(s@),
                PathRoot::WorkingDir => RootModel::WorkingDir,
                PathRoot::Here => RootModel::Here,
            },
            segments: self.segments@.map_values(|s: String| s@),
        }
    }
}

/// `p` with more folder names after it.
pub open spec fn extend(p: PathModel, more: Seq<Seq<char>>) -> PathModel {
    PathModel { root: p.root, segments: p.segments + more }
}

/// `inner` lies in `outer` (or is it).
pub open spec fn within(inner: PathModel, outer: PathModel) -> bool {
    &&& inner.root == outer.root
    &&& outer.segments.len() <= inner.segments.len()
    &&& inner.segments.take(outer.segments.len() as int) == outer.segments
}

/// The name of the application's folders.
pub open spec fn app_folder() -> Seq<char> {
    "AI-Assistant-Client"@
}

/// `%LOCALAPPDATA%`, else `%USERPROFILE%\AppData\Local`, else the working
/// directory, else `.`.
pub open spec fn local_app_data_spec(env: Environment) -> PathModel {
    match env.local_app_data {
        Some(v) => PathModel { root: RootModel::Given(v@), segments: Seq::empty() },
        None => match env.user_profile {
            Some(v) => PathModel { root: RootModel::Given(v@), segments: seq!["AppData"@, "Local"@] },
            None => PathModel {
                root: if env.has_working_dir { RootModel::WorkingDir } else { RootModel::Here },
                segments: Seq::empty(),
            },
        },
    }
}

/// The application's program folder: `<local app data>\Programs\AI-Assistant-Client`.
pub open spec fn install_dir_spec(env: Environment) -> PathModel {
    extend(local_app_data_spec(env), seq!["Programs"@, app_folder()])
}

/// The application's data folder: `<local app data>\AI-Assistant-Client`.
pub open spec fn data_dir_spec(env: Environment) -> PathModel {
    extend(local_app_data_spec(env), seq![app_folder()])
}

/// The user's Start menu programs folder.
pub open spec fn start_menu_dir_spec(env: Environment) -> PathModel {
    let base = match env.app_data {
        Some(v) => PathModel { root: RootModel::Given(v@), segments: Seq::empty() },
        None => local_app_data_spec(env),
    };
    extend(base, seq!["Microsoft"@, "Windows"@, "Start Menu"@, "Programs"@])
}

/// The user's desktop folder.
pub open spec fn desktop_dir_spec(env: Environment) -> PathModel {
    let base = match env.user_profile {
        Some(v) => PathModel { root: RootModel::Given(v@), segments: Seq::empty() },
        None => local_app_data_spec(env),
    };
    extend(base, seq!["Desktop"@])
}

fn given(value: &String) -> (p: PathPlan)
    ensures
        p@ == (PathModel { root: RootModel::Given(value@), segments: Seq::empty() }),
{
    let p = PathPlan { root: PathRoot::Given(value.clone()), segments: Vec::new() };
    assert(p@.segments =~= Seq::<Seq<char>>::empty());
    p
}

/// Appends one folder name.
pub fn push_segment(plan: &mut PathPlan, name: &str)
    ensures
        final(plan)@ == extend(old(plan)@, seq![name@]),
{
    plan.segments.push(String::from_str(name));
    assert(final(plan)@.segments =~= old(plan)@.segments + seq![name@]);
}

/// The local application data folder.
pub fn local_app_data(env: &Environment) -> (p: PathPlan)
    ensures
        p@ == local_app_data_spec(*env),
{
    match &env.local_app_data {
        Some(v) => given(v),
        None => match &env.user_profile {
            Some(v) => {
                let mut p = given(v);
                push_segment(&mut p, "AppData");
                push_segment(&mut p, "Local");
                assert(p@.segments =~= seq!["AppData"@, "Local"@]);
                p
            },
            None => {
                let p = PathPlan {
                    root: if env.has_working_dir { PathRoot::WorkingDir } else { PathRoot::Here },
                    segments: Vec::new(),
                };
                assert(p@.segments =~= Seq::<Seq<char>>::empty());
                p
            },
        },
    }
}

/// The folder the installer copies the application into.
pub fn install_dir(env: &Environment) -> (p: PathPlan)
    ensures
        p@ == install_dir_spec(*env),
{
    let mut p = local_app_data(env);
    push_segment(&mut p, "Programs");
    push_segment(&mut p, "AI-Assistant-Client");
    assert(p@.segments =~= local_app_data_spec(*env).segments + seq!["Programs"@, app_folder()]);
    p
}

/// The folder that holds the user's local data.
pub fn data_dir(env: &Environment) -> (p: PathPlan)
    ensures
        p@ == data_dir_spec(*env),
{
    let mut p = local_app_data(env);
    push_segment(&mut p, "AI-Assistant-Client");
    p
}

/// The folder the Start menu shortcut goes into.
pub fn start_menu_dir(env: &Environment) -> (p: PathPlan)
    ensures
        p@ == start_menu_dir_spec(*env),
{
    let mut p = match &env.app_data {
        Some(v) => given(v),
        None => local_app_data(env),
    };
    let ghost base = p@;
    push_segment(&mut p, "Microsoft");
    push_segment(&mut p, "Windows");
    push_segment(&mut p, "Start Menu");
    push_segment(&mut p, "Programs");
    assert(p@.segments =~= base.segments + seq!["Microsoft"@, "Windows"@, "Start Menu"@, "Programs"@]);
    p
}

/// The folder the desktop shortcut goes into.
pub fn desktop_dir(env: &Environment) -> (p: PathPlan)
    ensures
        p@ == desktop_dir_spec(*env),
{
    let mut p = match &env.user_profile {
        Some(v) => given(v),
        None => local_app_data(env),
    };
    push_segment(&mut p, "Desktop");
    p
}

/// The program folder and the data folder are apart: neither lies in the
/// other, so removing one never touches the other.
pub proof fn program_and_data_folders_apart(env: Environment)
    ensures
        !within(data_dir_spec(env), install_dir_spec(env)),
        !within(install_dir_spec(env), data_dir_spec(env)),
{
    reveal_strlit("Programs");
    reveal_strlit("AI-Assistant-Client");
    let base = local_app_data_spec(env).segments;
    let install = install_dir_spec(env).segments;
    let data = data_dir_spec(env).segments;
    assert(install[base.len() as int] == "Programs"@);
    assert(data[base.len() as int] == "AI-Assistant-Client"@);
    assert(install.take(data.len() as int)[base.len() as int] == "Programs"@);
    assert("Programs"@ != "AI-Assistant-Client"@) by {
        assert("Programs"@.len() != "AI-Assistant-Client"@.len());
    }
}

/// The layout in plain terms: data in `%LOCALAPPDATA%\AI-Assistant-Client`,
/// the program in `%LOCALAPPDATA%\Programs\AI-Assistant-Client` (with
/// `%USERPROFILE%\AppData\Local` standing in for an unset `LOCALAPPDATA`),
/// the Start menu folder under `%APPDATA%` and the desktop under
/// `%USERPROFILE%` when those are set.
pub proof fn folder_layout(env: Environment)
    ensures
        env.local_app_data matches Some(l) ==> data_dir_spec(env) == (PathModel {
            root: RootModel::Given(l@),
            segments: seq!["AI-Assistant-Client"@],
        }) && install_dir_spec(env) == (PathModel {
            root: RootModel::Given(l@),
            segments: seq!["Programs"@, "AI-Assistant-Client"@],
        }),
        env.local_app_data is None ==> (env.user_profile matches Some(u) ==> data_dir_spec(env) == (PathModel {
            root: RootModel::Given(u@),
            segments: seq!["AppData"@, "Local"@, "AI-Assistant-Client"@],
        }) && install_dir_spec(env) == (PathModel {
            root: RootModel::Given(u@),
            segments: seq!["AppData"@, "Local"@, "Programs"@, "AI-Assistant-Client"@],
        })),
        env.app_data matches Some(r) ==> start_menu_dir_spec(env) == (PathModel {
            root: RootModel::Given(r@),
            segments: seq!["Microsoft"@, "Windows"@, "Start Menu"@, "Programs"@],
        }),
        env.user_profile matches Some(u) ==> desktop_dir_spec(env) == (PathModel {
            root: RootModel::Given(u@),
            segments: seq!["Desktop"@],
        }),
{
    let e = Seq::<Seq<char>>::empty();
    assert(e + seq!["AI-Assistant-Client"@] =~= seq!["AI-Assistant-Client"@]);
    assert(e + seq!["Programs"@, "AI-Assistant-Client"@] =~= seq!["Programs"@, "AI-Assistant-Client"@]);
    assert(seq!["AppData"@, "Local"@] + seq!["AI-Assistant-Client"@] =~= seq![
        "AppData"@,
        "Local"@,
        "AI-Assistant-Client"@,
    ]);
    assert(seq!["AppData"@, "Local"@] + seq!["Programs"@, "AI-Assistant-Client"@] =~= seq![
        "AppData"@,
        "Local"@,
        "Programs"@,
        "AI-Assistant-Client"@,
    ]);
    assert(e + seq!["Microsoft"@, "Windows"@, "Start Menu"@, "Programs"@] =~= seq![
        "Microsoft"@,
        "Windows"@,
        "Start Menu"@,
        "Programs"@,
    ]);
    assert(e + seq!["Desktop"@] =~= seq!["Desktop"@]);
}

} // verus!
