//! The installer's setup panel: its controls, and what each button and each
//! finished task leads to.

use vstd::prelude::*;
use crate::installer::{ID_CLEAN, ID_CLOSE, ID_INSTALL, ID_LAUNCH, ID_STATUS, ID_UNINSTALL};

verus! {

/// The window class of the panel.
pub const WINDOW_CLASS: &'static str = "AiAssistantClientSetupPanel";
/// The title of the panel and of its dialogs.
pub const WINDOW_TITLE: &'static str = "AI Assistant Client Setup";
/// The panel's width.
pub const WINDOW_WIDTH: i32 = 560;
/// The panel's height.
pub const WINDOW_HEIGHT: i32 = 380;

/// A kind of child control.
#[derive(Clone, Copy, Debug, PartialEq, Eq, Structural)]
pub enum ControlKind {
    Label,
    Button,
}

/// A child control of the panel: kind, id, place, size and text.
#[derive(Debug, PartialEq, Eq)]
pub struct Control {
    pub kind: ControlKind,
    pub id: isize,
    pub x: i32,
    pub y: i32,
    pub width: i32,
    pub height: i32,
    pub text: String,
}

/// The mathematical form of a `Control`.
pub struct ControlModel {
    pub kind: ControlKind,
    pub id: int,
    pub x: int,
    pub y: int,
    pub width: int,
    pub height: int,
    pub text: Seq<char>,
}

impl View for Control {
    type V = ControlModel;

    open spec fn view(&self) -> ControlModel {
        ControlModel {
            kind: self.kind,
            id: self.id as int,
            x: self.x as int,
            y: self.y as int,
            width: self.width as int,
            height: self.height as int,
            text: self.text@,
        }
    }
}

/// The form of each control of a list.
pub open spec fn control_models(v: Seq<Control>) -> Seq<ControlModel> {
    v.map_values(|c: Control| c@)
}

/// A label's id: the one label without text is the status line.
pub open spec fn label_id_spec(text: Seq<char>) -> int {
    if text.len() == 0 { ID_STATUS as int } else { 0 }
}

/// A label's id: the one label without text is the status line.
pub fn label_id(text: &str) -> (id: isize)
    ensures
        id == label_id_spec(text@),
{
    if text.is_empty() { ID_STATUS } else { 0 }
}

/// A label.
pub open spec fn label(x: int, y: int, width: int, height: int, text: Seq<char>) -> ControlModel {
    ControlModel { kind: ControlKind::Label, id: label_id_spec(text), x, y, width, height, text }
}

/// A button.
pub open spec fn button(id: int, x: int, y: int, width: int, height: int, text: Seq<char>) -> ControlModel {
    ControlModel { kind: ControlKind::Button, id, x, y, width, height, text }
}

/// The panel's controls, given the program and data folders as text.
pub open spec fn setup_controls_spec(install_path: Seq<char>, data_path: Seq<char>) -> Seq<ControlModel> {
    seq![
        label(24, 20, 500, 28, "AI Assistant Client"@),
        label(24, 54, 500, 22, "Version 1.0.6 · Windows GUI setup panel"@),
        label(24, 92, 500, 42, "Install path:\r\n"@ + install_path),
        label(24, 138, 500, 42, "Data path:\r\n"@ + data_path),
        button(ID_INSTALL as int, 24, 204, 116, 38, "Install / Repair"@),
        button(ID_LAUNCH as int, 152, 204, 92, 38, "Launch"@),
        button(ID_UNINSTALL as int, 256, 204, 96, 38, "Uninstall"@),
        button(ID_CLEAN as int, 364, 204, 132, 38, "Clean Uninstall"@),
        button(ID_CLOSE as int, 404, 292, 92, 34, "Close"@),
        label(24, 260, 472, 24, ""@),
    ]
}

fn make_label(x: i32, y: i32, width: i32, height: i32, text: String) -> (c: Control)
    ensures
        c@ == label(x as int, y as int, width as int, height as int, text@),
{
    let id = label_id(text.as_str());
    Control { kind: ControlKind::Label, id, x, y, width, height, text }
}

fn make_button(id: isize, x: i32, y: i32, width: i32, height: i32, text: &str) -> (c: Control)
    ensures
        c@ == button(id as int, x as int, y as int, width as int, height as int, text@),
{
    Control { kind: ControlKind::Button, id, x, y, width, height, text: String::from_str(text) }
}

fn prefixed(prefix: &str, rest: &str) -> (s: String)
    ensures
        s@ == prefix@ + rest@,
{
    let mut s = String::from_str(prefix);
    s.append(rest);
    s
}

/// The panel's controls, in creation order.
pub fn setup_controls(install_path: &str, data_path: &str) -> (controls: Vec<Control>)
    ensures
        control_models(controls@) == setup_controls_spec(install_path@, data_path@),
{
    let controls = vec![
        make_label(24, 20, 500, 28, String::from_str("AI Assistant Client")),
        make_label(24, 54, 500, 22, String::from_str("Version 1.0.6 · Windows GUI setup panel")),
        make_label(24, 92, 500, 42, prefixed("Install path:\r\n", install_path)),
        make_label(24, 138, 500, 42, prefixed("Data path:\r\n", data_path)),
        make_button(ID_INSTALL, 24, 204, 116, 38, "Install / Repair"),
        make_button(ID_LAUNCH, 152, 204, 92, 38, "Launch"),
        make_button(ID_UNINSTALL, 256, 204, 96, 38, "Uninstall"),
        make_button(ID_CLEAN, 364, 204, 132, 38, "Clean Uninstall"),
        make_button(ID_CLOSE, 404, 292, 92, 34, "Close"),
        make_label(24, 260, 472, 24, String::from_str("")),
    ];
    assert(control_models(controls@) =~= setup_controls_spec(install_path@, data_path@));
    controls
}

/// The id of the control a `WM_COMMAND` message comes from: the low word of
/// its `wparam`.
pub fn command_id(wparam: usize) -> (id: isize)
    ensures
        id == wparam % 0x10000,
{
    let low = wparam & 0xffff;
    assert(low == wparam % 0x10000 && low <= 0xffff) by (bit_vector)
        requires
            low == wparam & 0xffff,
    ;
    low as isize
}

/// Where the setup panel stands.
#[derive(Clone, Copy, Debug, PartialEq, Eq, Structural)]
pub enum PanelState {
    /// Waiting for the user.
    Idle,
    /// Waiting for an install to finish.
    Installing,
    /// Waiting to learn whether the program is installed.
    CheckingApp,
    /// Waiting for the program to start.
    Launching,
    /// Waiting for the user to confirm an uninstall.
    Confirming { clean: bool },
    /// Waiting for an uninstall to finish.
    Uninstalling { clean: bool },
}

/// What happened to the panel.
#[derive(Debug, PartialEq, Eq)]
pub enum PanelEvent {
    /// The window was created.
    Created,
    /// The window was destroyed.
    Destroyed,
    /// A control sent a command with this id.
    Command(isize),
    /// The install finished, or failed with this error text.
    Installed(Result<(), String>),
    /// Whether the installed program exists.
    AppFound(bool),
    /// The program was started, or could not be, with this error text.
    Launched(Result<(), String>),
    /// The user answered the confirmation (`true` for yes).
    Answered(bool),
    /// The uninstall finished, or failed with this error text.
    Uninstalled(Result<(), String>),
}

/// What the panel does next.
#[derive(Debug, PartialEq, Eq)]
pub enum PanelAction {
    /// Create the child controls.
    BuildControls,
    /// Show this text in the status line.
    SetStatus(String),
    /// Install or repair.
    Install,
    /// Find out whether the installed program exists.
    CheckApp,
    /// Start the installed program.
    LaunchApp,
    /// Ask a yes/no question.
    Confirm(String),
    /// Uninstall, removing the data too when `clean`.
    Uninstall { clean: bool },
    /// Close the window.
    CloseWindow,
    /// End the message loop.
    Quit,
}

/// The mathematical form of a `PanelAction`.
pub enum PanelActionModel {
    BuildControls,
    SetStatus(Seq<char>),
    Install,
    CheckApp,
    LaunchApp,
    Confirm(Seq<char>),
    Uninstall { clean: bool },
    CloseWindow,
    Quit,
}

impl View for PanelAction {
    type V = PanelActionModel;

    open spec fn view(&self) -> PanelActionModel {
        match self {
            PanelAction::BuildControls => PanelActionModel::BuildControls,
            PanelAction::SetStatus(t) => PanelActionModel::SetStatus(t@),
            PanelAction::Install => PanelActionModel::Install,
            PanelAction::CheckApp => PanelActionModel::CheckApp,
            PanelAction::LaunchApp => PanelActionModel::LaunchApp,
            PanelAction::Confirm(q) => PanelActionModel::Confirm(q@),
            PanelAction::Uninstall { clean } => PanelActionModel::Uninstall { clean: *clean },
            PanelAction::CloseWindow => PanelActionModel::CloseWindow,
            PanelAction::Quit => PanelActionModel::Quit,
        }
    }
}

/// The form of each action of a list.
pub open spec fn action_models(v: Seq<PanelAction>) -> Seq<PanelActionModel> {
    v.map_values(|a: PanelAction| a@)
}

/// The status text after an operation: `success` when it worked, else
/// `failure` followed by the error text.
pub open spec fn outcome_text(r: Result<(), String>, success: Seq<char>, failure: Seq<char>) -> Seq<char> {
    match r {
        Ok(()) => success,
        Err(e) => failure + e@,
    }
}

/// Whether `event` is a window message, as opposed to the outcome of a task.
pub open spec fn is_window_message(event: PanelEvent) -> bool {
    event is Created || event is Destroyed || event is Command
}

/// The panel's next state and actions after `event`.
///
/// A window message starts a dispatch of its own and is handled the same in
/// every state: while a question box is open the window procedure runs again,
/// nested, for the messages the window still receives, so the window is still
/// destroyed (and the message loop ended) and a button still runs its task.
/// The caller keeps one state per dispatch: a dispatch starts at `Idle` and
/// ends when no task is left waiting.
pub open spec fn panel_step_spec(state: PanelState, event: PanelEvent) -> (PanelState, Seq<PanelActionModel>) {
    match (state, event) {
        (_, PanelEvent::Created) => (
            PanelState::Idle,
            seq![PanelActionModel::BuildControls, PanelActionModel::SetStatus("Ready."@)],
        ),
        (_, PanelEvent::Destroyed) => (PanelState::Idle, seq![PanelActionModel::Quit]),
        (_, PanelEvent::Command(id)) => if id == ID_INSTALL {
            (PanelState::Installing, seq![PanelActionModel::Install])
        } else if id == ID_LAUNCH {
            (PanelState::CheckingApp, seq![PanelActionModel::CheckApp])
        } else if id == ID_UNINSTALL {
            (
                PanelState::Confirming { clean: false },
                seq![PanelActionModel::Confirm("Uninstall AI Assistant Client?\n\nLocal chat data will be kept."@)],
            )
        } else if id == ID_CLEAN {
            (
                PanelState::Confirming { clean: true },
                seq![PanelActionModel::Confirm("Clean uninstall AI Assistant Client?\n\nThis removes the app and local data."@)],
            )
        } else if id == ID_CLOSE {
            (PanelState::Idle, seq![PanelActionModel::CloseWindow])
        } else {
            (PanelState::Idle, Seq::empty())
        },
        (PanelState::Installing, PanelEvent::Installed(r)) => (
            PanelState::Idle,
            seq![PanelActionModel::SetStatus(outcome_text(r, "Installed. Shortcuts point to the app, not setup."@, "Install failed: "@))],
        ),
        (PanelState::CheckingApp, PanelEvent::AppFound(found)) => if found {
            (PanelState::Launching, seq![PanelActionModel::LaunchApp])
        } else {
            (PanelState::Idle, seq![PanelActionModel::SetStatus("App is not installed yet."@)])
        },
        (PanelState::Launching, PanelEvent::Launched(r)) => (
            PanelState::Idle,
            seq![PanelActionModel::SetStatus(outcome_text(r, "Launched AI Assistant Client."@, "Launch failed: "@))],
        ),
        (PanelState::Confirming { clean }, PanelEvent::Answered(yes)) => if yes {
            (PanelState::Uninstalling { clean }, seq![PanelActionModel::Uninstall { clean }])
        } else {
            (PanelState::Idle, Seq::empty())
        },
        (PanelState::Uninstalling { clean }, PanelEvent::Uninstalled(r)) => (
            PanelState::Idle,
            seq![PanelActionModel::SetStatus(if clean {
                outcome_text(r, "Clean uninstall complete. App data removed."@, "Clean uninstall failed: "@)
            } else {
                outcome_text(r, "Uninstalled. Local data was kept."@, "Uninstall failed: "@)
            })],
        ),
        _ => (state, Seq::empty()),
    }
}

fn outcome(r: &Result<(), String>, success: &str, failure: &str) -> (t: String)
    ensures
        t@ == outcome_text(*r, success@, failure@),
{
    match r {
        Ok(()) => String::from_str(success),
        Err(e) => {
            let mut t = String::from_str(failure);
            t.append(e.as_str());
            t
        },
    }
}

/// Advances the panel: what a message or a finished task leads to.
pub fn panel_step(state: PanelState, event: PanelEvent) -> (r: (PanelState, Vec<PanelAction>))
    ensures
        (r.0, action_models(r.1@)) == panel_step_spec(state, event),
{
    let ghost ev = event;
    let r = match (state, event) {
        (_, PanelEvent::Created) => (
            PanelState::Idle,
            vec![PanelAction::BuildControls, PanelAction::SetStatus(String::from_str("Ready."))],
        ),
        (_, PanelEvent::Destroyed) => (PanelState::Idle, vec![PanelAction::Quit]),
        (_, PanelEvent::Command(id)) => if id == ID_INSTALL {
            (PanelState::Installing, vec![PanelAction::Install])
        } else if id == ID_LAUNCH {
            (PanelState::CheckingApp, vec![PanelAction::CheckApp])
        } else if id == ID_UNINSTALL {
            (
                PanelState::Confirming { clean: false },
                vec![PanelAction::Confirm(String::from_str("Uninstall AI Assistant Client?\n\nLocal chat data will be kept."))],
            )
        } else if id == ID_CLEAN {
            (
                PanelState::Confirming { clean: true },
                vec![PanelAction::Confirm(String::from_str("Clean uninstall AI Assistant Client?\n\nThis removes the app and local data."))],
            )
        } else if id == ID_CLOSE {
            (PanelState::Idle, vec![PanelAction::CloseWindow])
        } else {
            (PanelState::Idle, Vec::new())
        },
        (PanelState::Installing, PanelEvent::Installed(r)) => (
            PanelState::Idle,
            vec![PanelAction::SetStatus(outcome(&r, "Installed. Shortcuts point to the app, not setup.", "Install failed: "))],
        ),
        (PanelState::CheckingApp, PanelEvent::AppFound(found)) => if found {
            (PanelState::Launching, vec![PanelAction::LaunchApp])
        } else {
            (PanelState::Idle, vec![PanelAction::SetStatus(String::from_str("App is not installed yet."))])
        },
        (PanelState::Launching, PanelEvent::Launched(r)) => (
            PanelState::Idle,
            vec![PanelAction::SetStatus(outcome(&r, "Launched AI Assistant Client.", "Launch failed: "))],
        ),
        (PanelState::Confirming { clean }, PanelEvent::Answered(yes)) => if yes {
            (PanelState::Uninstalling { clean }, vec![PanelAction::Uninstall { clean }])
        } else {
            (PanelState::Idle, Vec::new())
        },
        (PanelState::Uninstalling { clean }, PanelEvent::Uninstalled(r)) => {
            let text = if clean {
                outcome(&r, "Clean uninstall complete. App data removed.", "Clean uninstall failed: ")
            } else {
                outcome(&r, "Uninstalled. Local data was kept.", "Uninstall failed: ")
            };
            (PanelState::Idle, vec![PanelAction::SetStatus(text)])
        },
        _ => (state, Vec::new()),
    };
    assert(action_models(r.1@) =~= panel_step_spec(state, ev).1);
    r
}

/// The panel uninstalls only right after the user said yes to the question,
/// and with the kind of uninstall the question was about.
pub proof fn panel_uninstalls_only_when_confirmed(state: PanelState, event: PanelEvent)
    ensures
        forall|i: int|
            0 <= i < panel_step_spec(state, event).1.len() ==> match #[trigger] panel_step_spec(state, event).1[i] {
                PanelActionModel::Uninstall { clean } => state == (PanelState::Confirming { clean })
                    && event == PanelEvent::Answered(true),
                _ => true,
            },
{
}

/// Window messages are handled the same whatever the panel waits for, and a
/// destroyed window always ends the message loop.
pub proof fn window_messages_start_afresh(state: PanelState, event: PanelEvent)
    requires
        is_window_message(event),
    ensures
        panel_step_spec(state, event) == panel_step_spec(PanelState::Idle, event),
        event is Destroyed ==> panel_step_spec(state, event) == (PanelState::Idle, seq![PanelActionModel::Quit]),
{
}

/// Every task the panel waits for ends back at `Idle` with one status line,
/// and a failure's status line ends with the error text.
pub proof fn finished_tasks_report(state: PanelState, r: Result<(), String>)
    ensures
        ({
            let event = match state {
                PanelState::Installing => PanelEvent::Installed(r),
                PanelState::Launching => PanelEvent::Launched(r),
                _ => PanelEvent::Uninstalled(r),
            };
            let (next, actions) = panel_step_spec(state, event);
            (state == PanelState::Installing || state == PanelState::Launching || state is Uninstalling) ==> {
                &&& next == PanelState::Idle
                &&& actions.len() == 1
                &&& actions[0] is SetStatus
                &&& (r matches Err(e) ==> (actions[0]->SetStatus_0).len() >= e@.len()
                    && (actions[0]->SetStatus_0).skip((actions[0]->SetStatus_0).len() - e@.len()) == e@)
            }
        }),
{
    if let Err(e) = r {
        let prefixes = seq![
            "Install failed: "@,
            "Launch failed: "@,
            "Clean uninstall failed: "@,
            "Uninstall failed: "@,
        ];
        assert forall|k: int| 0 <= k < 4 implies (#[trigger] prefixes[k] + e@).skip(prefixes[k].len() as int) =~= e@ by {}
        assert(prefixes[0] == "Install failed: "@);
        assert(prefixes[1] == "Launch failed: "@);
        assert(prefixes[2] == "Clean uninstall failed: "@);
        assert(prefixes[3] == "Uninstall failed: "@);
    }
}

/// Exactly one control is the status line, and it is the label without text
/// that the status is written into.
pub proof fn status_line_is_unique(install_path: Seq<char>, data_path: Seq<char>)
    ensures
        ({
            let c = setup_controls_spec(install_path, data_path);
            &&& c[9].id == ID_STATUS as int
            &&& c[9].kind == ControlKind::Label
            &&& c[9].text.len() == 0
            &&& forall|i: int| 0 <= i < c.len() && i != 9 ==> #[trigger] c[i].id != ID_STATUS as int
        }),
{
    reveal_strlit("AI Assistant Client");
    reveal_strlit("Version 1.0.6 · Windows GUI setup panel");
    reveal_strlit("Install path:\r\n");
    reveal_strlit("Data path:\r\n");
    reveal_strlit("");
}

/// Each button starts its task, whatever the panel waits for: Install
/// installs, Launch first looks for the program, Uninstall and Clean
/// Uninstall ask their question, Close closes the window; other ids do
/// nothing.
pub proof fn buttons_start_their_tasks(state: PanelState, id: isize)
    ensures
        panel_step_spec(state, PanelEvent::Command(ID_INSTALL)) == (PanelState::Installing, seq![PanelActionModel::Install]),
        panel_step_spec(state, PanelEvent::Command(ID_LAUNCH)) == (PanelState::CheckingApp, seq![PanelActionModel::CheckApp]),
        panel_step_spec(state, PanelEvent::Command(ID_UNINSTALL)) == (
            PanelState::Confirming { clean: false },
            seq![PanelActionModel::Confirm("Uninstall AI Assistant Client?\n\nLocal chat data will be kept."@)],
        ),
        panel_step_spec(state, PanelEvent::Command(ID_CLEAN)) == (
            PanelState::Confirming { clean: true },
            seq![PanelActionModel::Confirm("Clean uninstall AI Assistant Client?\n\nThis removes the app and local data."@)],
        ),
        panel_step_spec(state, PanelEvent::Command(ID_CLOSE)) == (PanelState::Idle, seq![PanelActionModel::CloseWindow]),
        id != ID_INSTALL && id != ID_LAUNCH && id != ID_UNINSTALL && id != ID_CLEAN && id != ID_CLOSE
            ==> panel_step_spec(state, PanelEvent::Command(id)) == (PanelState::Idle, Seq::<PanelActionModel>::empty()),
{
}

/// A confirmed uninstall always runs, of the kind asked about, and reports
/// its outcome in the status line; a refused one does nothing.
pub proof fn confirmed_uninstall_runs(clean: bool, e: String)
    ensures
        panel_step_spec(PanelState::Confirming { clean }, PanelEvent::Answered(true)) == (
            PanelState::Uninstalling { clean },
            seq![PanelActionModel::Uninstall { clean }],
        ),
        panel_step_spec(PanelState::Confirming { clean }, PanelEvent::Answered(false)) == (
            PanelState::Idle,
            Seq::<PanelActionModel>::empty(),
        ),
        panel_step_spec(PanelState::Uninstalling { clean }, PanelEvent::Uninstalled(Ok(()))) == (
            PanelState::Idle,
            seq![PanelActionModel::SetStatus(if clean { "Clean uninstall complete. App data removed."@ } else { "Uninstalled. Local data was kept."@ })],
        ),
        panel_step_spec(PanelState::Uninstalling { clean }, PanelEvent::Uninstalled(Err(e))) == (
            PanelState::Idle,
            seq![PanelActionModel::SetStatus(if clean { "Clean uninstall failed: "@ + e@ } else { "Uninstall failed: "@ + e@ })],
        ),
{
}

/// An install, a launch check and a launch each run when started and report
/// in the status line.
pub proof fn tasks_report_their_outcome(found: bool, e: String)
    ensures
        panel_step_spec(PanelState::Installing, PanelEvent::Installed(Ok(()))) == (
            PanelState::Idle,
            seq![PanelActionModel::SetStatus("Installed. Shortcuts point to the app, not setup."@)],
        ),
        panel_step_spec(PanelState::Installing, PanelEvent::Installed(Err(e))) == (
            PanelState::Idle,
            seq![PanelActionModel::SetStatus("Install failed: "@ + e@)],
        ),
        panel_step_spec(PanelState::CheckingApp, PanelEvent::AppFound(found)) == if found {
            (PanelState::Launching, seq![PanelActionModel::LaunchApp])
        } else {
            (PanelState::Idle, seq![PanelActionModel::SetStatus("App is not installed yet."@)])
        },
        panel_step_spec(PanelState::Launching, PanelEvent::Launched(Ok(()))) == (
            PanelState::Idle,
            seq![PanelActionModel::SetStatus("Launched AI Assistant Client."@)],
        ),
        panel_step_spec(PanelState::Launching, PanelEvent::Launched(Err(e))) == (
            PanelState::Idle,
            seq![PanelActionModel::SetStatus("Launch failed: "@ + e@)],
        ),
{
}

} // verus!
