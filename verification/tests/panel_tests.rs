use ai_assistant_client::installer::{ID_CLEAN, ID_CLOSE, ID_INSTALL, ID_LAUNCH, ID_STATUS, ID_UNINSTALL};
use ai_assistant_client::panel::{
    command_id, label_id, panel_step, setup_controls, ControlKind, PanelAction, PanelEvent, PanelState, WINDOW_CLASS,
    WINDOW_HEIGHT, WINDOW_TITLE, WINDOW_WIDTH,
};

#[test]
fn window_constants() {
    assert_eq!(WINDOW_CLASS, "AiAssistantClientSetupPanel");
    assert_eq!(WINDOW_TITLE, "AI Assistant Client Setup");
    assert_eq!((WINDOW_WIDTH, WINDOW_HEIGHT), (560, 380));
}

#[test]
fn controls_layout() {
    let c = setup_controls("C:\\I", "C:\\D");
    assert_eq!(c.len(), 10);
    let summary: Vec<(ControlKind, isize, i32, i32, i32, i32, &str)> =
        c.iter().map(|x| (x.kind, x.id, x.x, x.y, x.width, x.height, x.text.as_str())).collect();
    assert_eq!(
        summary,
        vec![
            (ControlKind::Label, 0, 24, 20, 500, 28, "AI Assistant Client"),
            (ControlKind::Label, 0, 24, 54, 500, 22, "Version 1.0.6 · Windows GUI setup panel"),
            (ControlKind::Label, 0, 24, 92, 500, 42, "Install path:\r\nC:\\I"),
            (ControlKind::Label, 0, 24, 138, 500, 42, "Data path:\r\nC:\\D"),
            (ControlKind::Button, ID_INSTALL, 24, 204, 116, 38, "Install / Repair"),
            (ControlKind::Button, ID_LAUNCH, 152, 204, 92, 38, "Launch"),
            (ControlKind::Button, ID_UNINSTALL, 256, 204, 96, 38, "Uninstall"),
            (ControlKind::Button, ID_CLEAN, 364, 204, 132, 38, "Clean Uninstall"),
            (ControlKind::Button, ID_CLOSE, 404, 292, 92, 34, "Close"),
            (ControlKind::Label, ID_STATUS, 24, 260, 472, 24, ""),
        ]
    );
}

#[test]
fn one_status_line() {
    let c = setup_controls("", "");
    assert_eq!(c.iter().filter(|x| x.id == ID_STATUS).count(), 1);
    assert_eq!(label_id(""), ID_STATUS);
    assert_eq!(label_id("x"), 0);
}

#[test]
fn command_ids_are_low_words() {
    assert_eq!(command_id(1001), 1001);
    assert_eq!(command_id(0x0001_03E9), 1001);
    assert_eq!(command_id(0x1234_5678), 0x5678);
    assert_eq!(command_id(usize::MAX), 0xffff);
}

fn status(text: &str) -> Vec<PanelAction> {
    vec![PanelAction::SetStatus(text.to_string())]
}

#[test]
fn window_lifecycle() {
    assert_eq!(
        panel_step(PanelState::Idle, PanelEvent::Created),
        (PanelState::Idle, vec![PanelAction::BuildControls, PanelAction::SetStatus("Ready.".to_string())])
    );
    assert_eq!(panel_step(PanelState::Idle, PanelEvent::Destroyed), (PanelState::Idle, vec![PanelAction::Quit]));
    assert_eq!(
        panel_step(PanelState::Idle, PanelEvent::Command(ID_CLOSE)),
        (PanelState::Idle, vec![PanelAction::CloseWindow])
    );
    assert_eq!(panel_step(PanelState::Idle, PanelEvent::Command(ID_STATUS)), (PanelState::Idle, vec![]));
}

#[test]
fn install_button() {
    assert_eq!(
        panel_step(PanelState::Idle, PanelEvent::Command(ID_INSTALL)),
        (PanelState::Installing, vec![PanelAction::Install])
    );
    assert_eq!(
        panel_step(PanelState::Installing, PanelEvent::Installed(Ok(()))),
        (PanelState::Idle, status("Installed. Shortcuts point to the app, not setup."))
    );
    assert_eq!(
        panel_step(PanelState::Installing, PanelEvent::Installed(Err("disk full".to_string()))),
        (PanelState::Idle, status("Install failed: disk full"))
    );
}

#[test]
fn launch_button() {
    assert_eq!(
        panel_step(PanelState::Idle, PanelEvent::Command(ID_LAUNCH)),
        (PanelState::CheckingApp, vec![PanelAction::CheckApp])
    );
    assert_eq!(
        panel_step(PanelState::CheckingApp, PanelEvent::AppFound(false)),
        (PanelState::Idle, status("App is not installed yet."))
    );
    assert_eq!(
        panel_step(PanelState::CheckingApp, PanelEvent::AppFound(true)),
        (PanelState::Launching, vec![PanelAction::LaunchApp])
    );
    assert_eq!(
        panel_step(PanelState::Launching, PanelEvent::Launched(Ok(()))),
        (PanelState::Idle, status("Launched AI Assistant Client."))
    );
    assert_eq!(
        panel_step(PanelState::Launching, PanelEvent::Launched(Err("denied".to_string()))),
        (PanelState::Idle, status("Launch failed: denied"))
    );
}

#[test]
fn uninstall_buttons() {
    assert_eq!(
        panel_step(PanelState::Idle, PanelEvent::Command(ID_UNINSTALL)),
        (
            PanelState::Confirming { clean: false },
            vec![PanelAction::Confirm("Uninstall AI Assistant Client?\n\nLocal chat data will be kept.".to_string())]
        )
    );
    assert_eq!(
        panel_step(PanelState::Idle, PanelEvent::Command(ID_CLEAN)),
        (
            PanelState::Confirming { clean: true },
            vec![PanelAction::Confirm("Clean uninstall AI Assistant Client?\n\nThis removes the app and local data.".to_string())]
        )
    );
    assert_eq!(panel_step(PanelState::Confirming { clean: true }, PanelEvent::Answered(false)), (PanelState::Idle, vec![]));
    assert_eq!(
        panel_step(PanelState::Confirming { clean: true }, PanelEvent::Answered(true)),
        (PanelState::Uninstalling { clean: true }, vec![PanelAction::Uninstall { clean: true }])
    );
    assert_eq!(
        panel_step(PanelState::Uninstalling { clean: false }, PanelEvent::Uninstalled(Ok(()))),
        (PanelState::Idle, status("Uninstalled. Local data was kept."))
    );
    assert_eq!(
        panel_step(PanelState::Uninstalling { clean: false }, PanelEvent::Uninstalled(Err("e".to_string()))),
        (PanelState::Idle, status("Uninstall failed: e"))
    );
    assert_eq!(
        panel_step(PanelState::Uninstalling { clean: true }, PanelEvent::Uninstalled(Ok(()))),
        (PanelState::Idle, status("Clean uninstall complete. App data removed."))
    );
    assert_eq!(
        panel_step(PanelState::Uninstalling { clean: true }, PanelEvent::Uninstalled(Err("e".to_string()))),
        (PanelState::Idle, status("Clean uninstall failed: e"))
    );
}

#[test]
fn panel_never_uninstalls_unasked() {
    assert_eq!(panel_step(PanelState::Idle, PanelEvent::Answered(true)), (PanelState::Idle, vec![]));
    assert_eq!(panel_step(PanelState::Installing, PanelEvent::Answered(true)), (PanelState::Installing, vec![]));
}

#[test]
fn window_messages_while_a_question_is_open() {
    let waiting = PanelState::Confirming { clean: false };
    assert_eq!(panel_step(waiting, PanelEvent::Destroyed), (PanelState::Idle, vec![PanelAction::Quit]));
    assert_eq!(
        panel_step(waiting, PanelEvent::Command(ID_INSTALL)),
        (PanelState::Installing, vec![PanelAction::Install])
    );
    assert_eq!(
        panel_step(PanelState::Uninstalling { clean: true }, PanelEvent::Command(ID_CLOSE)),
        (PanelState::Idle, vec![PanelAction::CloseWindow])
    );
    assert_eq!(
        panel_step(PanelState::Launching, PanelEvent::Destroyed),
        (PanelState::Idle, vec![PanelAction::Quit])
    );
}
