use secludia::shell::{
    decide, main_window_label, quit_entry_id, MouseButton, MouseButtonState, ShellAction, ShellEvent,
};
use secludia::webview_reset::{
    get_webview_folder_name, reset_marker_contents, reset_marker_file, Platform, ResetStep,
};

#[test]
fn only_the_quit_entry_quits() {
    assert_eq!(quit_entry_id(), "quit");
    assert_eq!(decide(&ShellEvent::TrayMenu { id: "quit" }), ShellAction::Quit);
    assert_eq!(decide(&ShellEvent::TrayMenu { id: "Quit" }), ShellAction::Nothing);
    assert_eq!(decide(&ShellEvent::TrayMenu { id: "quit " }), ShellAction::Nothing);
    assert_eq!(decide(&ShellEvent::TrayMenu { id: "" }), ShellAction::Nothing);
    assert_eq!(decide(&ShellEvent::TrayMenu { id: "settings" }), ShellAction::Nothing);
}

#[test]
fn left_button_up_shows_the_main_window() {
    let click = |button, state| decide(&ShellEvent::TrayClick { button, state });
    assert_eq!(click(MouseButton::Left, MouseButtonState::Up), ShellAction::ShowMainWindow);
    assert_eq!(click(MouseButton::Left, MouseButtonState::Down), ShellAction::Nothing);
    assert_eq!(click(MouseButton::Right, MouseButtonState::Up), ShellAction::Nothing);
    assert_eq!(click(MouseButton::Right, MouseButtonState::Down), ShellAction::Nothing);
    assert_eq!(click(MouseButton::Middle, MouseButtonState::Up), ShellAction::Nothing);
    assert_eq!(click(MouseButton::Middle, MouseButtonState::Down), ShellAction::Nothing);
}

#[test]
fn closing_the_main_window_hides_it() {
    assert_eq!(main_window_label(), "main");
    assert_eq!(decide(&ShellEvent::CloseRequested { label: "main" }), ShellAction::HideToTray);
    assert_eq!(decide(&ShellEvent::CloseRequested { label: "oauth" }), ShellAction::Nothing);
    assert_eq!(decide(&ShellEvent::CloseRequested { label: "Main" }), ShellAction::Nothing);
    assert_eq!(decide(&ShellEvent::CloseRequested { label: "main2" }), ShellAction::Nothing);
    assert_eq!(decide(&ShellEvent::CloseRequested { label: "" }), ShellAction::Nothing);
}

#[test]
fn the_application_outlives_its_windows() {
    assert_eq!(decide(&ShellEvent::ExitRequested), ShellAction::KeepRunning);
}

#[test]
fn webview_folder_by_platform() {
    assert_eq!(get_webview_folder_name(Platform::Windows), "EBWebView");
    assert_eq!(get_webview_folder_name(Platform::Linux), "WebKit");
    assert_eq!(get_webview_folder_name(Platform::MacOs), "WebKit");
    assert_eq!(get_webview_folder_name(Platform::Other), "WebKit");
}

#[test]
fn marker_file_name_and_contents() {
    assert_eq!(reset_marker_file(), ".reset_permissions");
    assert_eq!(reset_marker_contents(), "reset");
}

fn trace(answers: &[bool]) -> Vec<ResetStep> {
    let mut steps = vec![ResetStep::first()];
    for &yes in answers {
        let next = steps[steps.len() - 1].advance(yes);
        steps.push(next);
    }
    steps
}

#[test]
fn reset_with_marker_and_data() {
    assert_eq!(
        trace(&[true, true, true, true, true]),
        vec![
            ResetStep::LocateDataDir,
            ResetStep::ProbeMarker,
            ResetStep::ProbeWebviewData,
            ResetStep::DeleteWebviewData,
            ResetStep::RemoveMarker,
            ResetStep::Done,
        ]
    );
}

#[test]
fn reset_removes_the_marker_even_if_deleting_fails() {
    assert_eq!(
        trace(&[true, true, true, false, false]),
        vec![
            ResetStep::LocateDataDir,
            ResetStep::ProbeMarker,
            ResetStep::ProbeWebviewData,
            ResetStep::DeleteWebviewData,
            ResetStep::RemoveMarker,
            ResetStep::Done,
        ]
    );
}

#[test]
fn reset_with_marker_but_no_data() {
    assert_eq!(
        trace(&[true, true, false, true]),
        vec![
            ResetStep::LocateDataDir,
            ResetStep::ProbeMarker,
            ResetStep::ProbeWebviewData,
            ResetStep::RemoveMarker,
            ResetStep::Done,
        ]
    );
}

#[test]
fn no_marker_no_reset() {
    assert_eq!(
        trace(&[true, false]),
        vec![ResetStep::LocateDataDir, ResetStep::ProbeMarker, ResetStep::Done]
    );
}

#[test]
fn no_data_directory_no_reset() {
    assert_eq!(trace(&[false]), vec![ResetStep::LocateDataDir, ResetStep::Done]);
}

#[test]
fn done_stays_done() {
    assert_eq!(ResetStep::Done.advance(true), ResetStep::Done);
    assert_eq!(ResetStep::Done.advance(false), ResetStep::Done);
}
