use workspace_launcher::request::{Action, ActionRequest, Args};

#[test]
fn open_asks_for_the_editor() {
    let action = Action { open: true, execute: None };
    assert_eq!(action.request(), ActionRequest::OpenEditor);
}

#[test]
fn execute_asks_for_the_command() {
    let action = Action { open: false, execute: Some("echo hi".to_string()) };
    assert_eq!(action.request(), ActionRequest::RunCommand("echo hi".to_string()));
}

#[test]
fn no_flag_asks_for_an_interactive_shell() {
    assert_eq!(Action::default().request(), ActionRequest::InteractiveShell);
    assert_eq!(Args::default().action.request(), ActionRequest::InteractiveShell);
}

#[test]
fn open_takes_precedence_over_execute() {
    let action = Action { open: true, execute: Some("echo hi".to_string()) };
    assert_eq!(action.request(), ActionRequest::OpenEditor);
}

#[test]
fn an_empty_command_is_still_a_command() {
    let action = Action { open: false, execute: Some(String::new()) };
    assert_eq!(action.request(), ActionRequest::RunCommand(String::new()));
}
