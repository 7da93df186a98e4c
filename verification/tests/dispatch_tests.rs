use workspace_launcher::dispatch::{
    dispatch, project_path, report, SpawnPlan, COMMAND_FLAG, INTERACTIVE_FLAG,
};
use workspace_launcher::error::{ChildOutcome, LaunchError, Setting};
use workspace_launcher::request::ActionRequest;

fn some(s: &str) -> Option<String> {
    Some(s.to_string())
}

fn echo_plan() -> SpawnPlan {
    SpawnPlan {
        program: "/bin/bash".to_string(),
        args: vec!["-c".to_string(), "echo hi".to_string()],
        working_dir: some("/tmp/ws/Beta"),
    }
}

#[test]
fn project_path_joins_root_and_name() {
    assert_eq!(project_path("/tmp/ws", "Beta"), "/tmp/ws/Beta");
    assert_eq!(project_path("/home/u/Workspace", "alpha"), "/home/u/Workspace/alpha");
}

#[test]
fn project_path_adds_exactly_one_slash() {
    assert_eq!(project_path("/tmp/ws/", "x"), "/tmp/ws//x");
    assert_eq!(project_path("", ""), "/");
}

#[test]
fn execute_runs_the_shell_with_the_command_in_the_project() {
    let action = ActionRequest::RunCommand("echo hi".to_string());
    let plan = dispatch(&action, &None, &some("/bin/bash"), "/tmp/ws/Beta".to_string());
    assert_eq!(plan, Ok(echo_plan()));
}

#[test]
fn execute_keeps_the_command_as_one_argument() {
    let action = ActionRequest::RunCommand("ls -la | wc -l".to_string());
    let plan = dispatch(&action, &some("vim"), &some("/bin/sh"), "/w/p".to_string()).unwrap();
    assert_eq!(plan.args, vec!["-c".to_string(), "ls -la | wc -l".to_string()]);
    assert_eq!(plan.program, "/bin/sh");
}

#[test]
fn open_runs_the_editor_on_the_path_in_the_callers_directory() {
    let plan = dispatch(&ActionRequest::OpenEditor, &some("vim"), &None, "/tmp/ws/Beta".to_string());
    assert_eq!(
        plan,
        Ok(SpawnPlan {
            program: "vim".to_string(),
            args: vec!["/tmp/ws/Beta".to_string()],
            working_dir: None,
        })
    );
}

#[test]
fn default_action_starts_an_interactive_shell_in_the_project() {
    let plan =
        dispatch(&ActionRequest::InteractiveShell, &None, &some("/bin/zsh"), "/w/p".to_string());
    assert_eq!(
        plan,
        Ok(SpawnPlan {
            program: "/bin/zsh".to_string(),
            args: vec!["-i".to_string()],
            working_dir: some("/w/p"),
        })
    );
}

#[test]
fn execute_without_a_shell_is_a_configuration_error() {
    let action = ActionRequest::RunCommand("echo hi".to_string());
    assert_eq!(
        dispatch(&action, &some("vim"), &None, "/w/p".to_string()),
        Err(LaunchError::Configuration(Setting::Shell))
    );
}

#[test]
fn interactive_shell_without_a_shell_is_a_configuration_error() {
    assert_eq!(
        dispatch(&ActionRequest::InteractiveShell, &some("vim"), &None, "/w/p".to_string()),
        Err(LaunchError::Configuration(Setting::Shell))
    );
}

#[test]
fn open_without_an_editor_is_a_configuration_error() {
    assert_eq!(
        dispatch(&ActionRequest::OpenEditor, &None, &some("/bin/sh"), "/w/p".to_string()),
        Err(LaunchError::Configuration(Setting::Editor))
    );
}

#[test]
fn shell_flags_are_the_documented_ones() {
    assert_eq!(COMMAND_FLAG, "-c");
    assert_eq!(INTERACTIVE_FLAG, "-i");
}

#[test]
fn command_line_joins_program_and_arguments() {
    assert_eq!(echo_plan().command_line(), "/bin/bash -c echo hi");
    let bare = SpawnPlan { program: "vim".to_string(), args: Vec::new(), working_dir: None };
    assert_eq!(bare.command_line(), "vim");
}

#[test]
fn a_clean_exit_is_a_success() {
    assert_eq!(report(&echo_plan(), ChildOutcome::Exited(0)), Ok(()));
}

#[test]
fn a_non_zero_exit_is_a_command_failure() {
    assert_eq!(
        report(&echo_plan(), ChildOutcome::Exited(2)),
        Err(LaunchError::CommandFailed {
            command: "/bin/bash -c echo hi".to_string(),
            outcome: ChildOutcome::Exited(2),
        })
    );
    assert!(report(&echo_plan(), ChildOutcome::Exited(-1)).is_err());
}

#[test]
fn a_child_that_did_not_start_is_a_command_failure() {
    assert_eq!(
        report(&echo_plan(), ChildOutcome::NotStarted),
        Err(LaunchError::CommandFailed {
            command: "/bin/bash -c echo hi".to_string(),
            outcome: ChildOutcome::NotStarted,
        })
    );
}

#[test]
fn a_killed_child_is_a_command_failure() {
    assert_eq!(
        report(&echo_plan(), ChildOutcome::Killed),
        Err(LaunchError::CommandFailed {
            command: "/bin/bash -c echo hi".to_string(),
            outcome: ChildOutcome::Killed,
        })
    );
}
