//! The ways a launch can fail, and how each failure is reported.

use vstd::prelude::*;

verus! {

/// A value that the launcher takes from its environment.
#[derive(Clone, Copy, Debug, PartialEq, Eq, Structural)]
pub enum Setting {
    /// The workspace root: `WORKSPACE_ROOT`, or else `HOME`.
    WorkspaceRoot,
    /// The editor command: `VISUAL`, or else `EDITOR`.
    Editor,
    /// The shell: `SHELL`.
    Shell,
}

/// Why the workspace root could not be read.
#[derive(Clone, Copy, Debug, PartialEq, Eq, Structural)]
pub enum IoKind {
    NotFound,
    NotADirectory,
    PermissionDenied,
    /// Any other failure of the read.
    Other,
}

/// How the spawned child ended.
#[derive(Clone, Copy, Debug, PartialEq, Eq, Structural)]
pub enum ChildOutcome {
    /// The child could not be started.
    NotStarted,
    /// The child ran and exited with this status.
    Exited(i32),
    /// The child ran and ended without an exit status.
    Killed,
}

/// A failure that ends the run.
#[derive(Debug, PartialEq, Eq)]
pub enum LaunchError {
    /// A required environment value is missing.
    Configuration(Setting),
    /// The workspace root at `path` could not be read.
    Io { path: String, kind: IoKind },
    /// No project directory matches this name.
    NotFound(String),
    /// The interactive choice was cancelled, or could not be made.
    SelectionAborted,
    /// The child for `command` did not start, or did not exit with status 0.
    CommandFailed { command: String, outcome: ChildOutcome },
}

/// The mathematical value of a [`LaunchError`].
pub enum LaunchErrorView {
    Configuration(Setting),
    Io { path: Seq<char>, kind: IoKind },
    NotFound(Seq<char>),
    SelectionAborted,
    CommandFailed { command: Seq<char>, outcome: ChildOutcome },
}

impl View for LaunchError {
    type V = LaunchErrorView;

    open spec fn view(&self) -> LaunchErrorView {
        match *self {
            LaunchError::Configuration(setting) => LaunchErrorView::Configuration(setting),
            LaunchError::Io { path, kind } => LaunchErrorView::Io { path: path@, kind },
            LaunchError::NotFound(name) => LaunchErrorView::NotFound(name@),
            LaunchError::SelectionAborted => LaunchErrorView::SelectionAborted,
            LaunchError::CommandFailed { command, outcome } => LaunchErrorView::CommandFailed {
                command: command@,
                outcome,
            },
        }
    }
}

/// The mathematical value of what a fallible step of the launcher gave:
/// that of the value, or that of the failure.
pub open spec fn outcome_of<T: DeepView>(result: Result<T, LaunchError>) -> Result<
    T::V,
    LaunchErrorView,
> {
    match result {
        Ok(value) => Ok(value.deep_view()),
        Err(error) => Err(error@),
    }
}

impl ChildOutcome {
    /// The child ran and exited with status 0.
    pub open spec fn succeeded(self) -> bool {
        self == ChildOutcome::Exited(0)
    }

    /// Whether the child ran and exited with status 0.
    pub fn is_success(&self) -> (ok: bool)
        ensures
            ok == self.succeeded(),
    {
        match *self {
            ChildOutcome::Exited(status) => status == 0,
            _ => false,
        }
    }

    /// How the diagnostic of a failed command begins.
    pub open spec fn complaint(self) -> Seq<char> {
        match self {
            ChildOutcome::NotStarted => "Failed to run command "@,
            ChildOutcome::Exited(_) => "Command returned a non-zero status: "@,
            ChildOutcome::Killed => "Command ended without an exit status: "@,
        }
    }

    /// The words with which the diagnostic of a failed command begins.
    pub fn describe(&self) -> (text: &'static str)
        ensures
            text@ == self.complaint(),
    {
        match *self {
            ChildOutcome::NotStarted => "Failed to run command ",
            ChildOutcome::Exited(_) => "Command returned a non-zero status: ",
            ChildOutcome::Killed => "Command ended without an exit status: ",
        }
    }
}

impl Setting {
    /// What the diagnostic says of a missing setting.
    pub open spec fn complaint(self) -> Seq<char> {
        match self {
            Setting::WorkspaceRoot =>
                "Unable to determine workspace root: neither WORKSPACE_ROOT nor HOME is set"@,
            Setting::Editor => "No editor configured: neither VISUAL nor EDITOR is set"@,
            Setting::Shell => "Couldn't determine shell: SHELL is not set"@,
        }
    }

    /// The diagnostic for this setting when it is missing.
    pub fn describe(&self) -> (text: &'static str)
        ensures
            text@ == self.complaint(),
    {
        match *self {
            Setting::WorkspaceRoot =>
                "Unable to determine workspace root: neither WORKSPACE_ROOT nor HOME is set",
            Setting::Editor => "No editor configured: neither VISUAL nor EDITOR is set",
            Setting::Shell => "Couldn't determine shell: SHELL is not set",
        }
    }
}

impl IoKind {
    /// What the diagnostic says of a failed read.
    pub open spec fn reason(self) -> Seq<char> {
        match self {
            IoKind::NotFound => "not found"@,
            IoKind::NotADirectory => "not a directory"@,
            IoKind::PermissionDenied => "permission denied"@,
            IoKind::Other => "read failed"@,
        }
    }

    /// The words for this kind of failure.
    pub fn describe(&self) -> (text: &'static str)
        ensures
            text@ == self.reason(),
    {
        match *self {
            IoKind::NotFound => "not found",
            IoKind::NotADirectory => "not a directory",
            IoKind::PermissionDenied => "permission denied",
            IoKind::Other => "read failed",
        }
    }
}

impl LaunchErrorView {
    /// The diagnostic shown to the user. It names the missing setting, the
    /// path that was tried, the project that was asked for, or the command
    /// that failed.
    pub open spec fn message(self) -> Seq<char> {
        match self {
            LaunchErrorView::Configuration(setting) => setting.complaint(),
            LaunchErrorView::Io { path, kind } => "Could not read projects from "@ + path + ": "@
                + kind.reason(),
            LaunchErrorView::NotFound(name) => "Couldn't find project "@ + name,
            LaunchErrorView::SelectionAborted => "Failed to select a project"@,
            LaunchErrorView::CommandFailed { command, outcome } => outcome.complaint() + command,
        }
    }

    /// The status with which the process ends after this failure: the child's
    /// own status where it exited with one from 1 to 255, and 1 otherwise.
    pub open spec fn exit_code(self) -> int {
        match self {
            LaunchErrorView::CommandFailed { command, outcome: ChildOutcome::Exited(status) } =>
                if 1 <= status <= 255 {
                    status as int
                } else {
                    1
                },
            _ => 1,
        }
    }
}

impl LaunchError {
    /// The diagnostic shown to the user.
    pub fn message(&self) -> (text: String)
        ensures
            text@ == self@.message(),
    {
        match self {
            LaunchError::Configuration(setting) => setting.describe().to_owned(),
            LaunchError::Io { path, kind } => {
                let mut text = "Could not read projects from ".to_owned();
                text.append(path.as_str());
                text.append(": ");
                text.append(kind.describe());
                text
            },
            LaunchError::NotFound(name) => {
                let mut text = "Couldn't find project ".to_owned();
                text.append(name.as_str());
                text
            },
            LaunchError::SelectionAborted => "Failed to select a project".to_owned(),
            LaunchError::CommandFailed { command, outcome } => {
                let mut text = outcome.describe().to_owned();
                text.append(command.as_str());
                text
            },
        }
    }

    /// The status with which the process ends after this failure. It lies
    /// between 1 and 255, so that no failure ends the process like a
    /// success.
    pub fn exit_code(&self) -> (code: i32)
        ensures
            code == self@.exit_code(),
            1 <= code <= 255,
    {
        match self {
            LaunchError::CommandFailed { command: _, outcome: ChildOutcome::Exited(status) } => {
                if 1 <= *status && *status <= 255 {
                    *status
                } else {
                    1
                }
            },
            _ => 1,
        }
    }
}

/// The status with which the process ends: 0 after a launch that ran to a
/// successful end, the failure's own status otherwise.
pub open spec fn exit_status_of(outcome: Result<(), LaunchErrorView>) -> int {
    match outcome {
        Ok(_) => 0,
        Err(error) => error.exit_code(),
    }
}

/// The status with which the process ends. It is 0 exactly after a
/// success.
pub fn exit_status(outcome: &Result<(), LaunchError>) -> (code: i32)
    ensures
        code == exit_status_of(outcome_of(*outcome)),
        code == 0 <==> outcome is Ok,
        0 <= code <= 255,
{
    match outcome {
        Ok(_) => 0,
        Err(error) => error.exit_code(),
    }
}

} // verus!
