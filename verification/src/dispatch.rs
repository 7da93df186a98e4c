//! Action Dispatcher: the one child process to spawn for an action on the
//! selected project, and what its end means for the run.

use crate::error::{outcome_of, ChildOutcome, LaunchError, LaunchErrorView, Setting};
use crate::request::{ActionRequest, ActionRequestView};
use vstd::prelude::*;

verus! {

/// The flag with which the shell takes a command text.
pub const COMMAND_FLAG: &'static str = "-c";

/// The flag that asks the shell for an interactive session.
pub const INTERACTIVE_FLAG: &'static str = "-i";

/// The path of a project below the workspace root.
pub open spec fn path_of(root: Seq<char>, project: Seq<char>) -> Seq<char> {
    root + "/"@ + project
}

/// The path of `project` below `root`: the two joined by a slash.
pub fn project_path(root: &str, project: &str) -> (path: String)
    ensures
        path@ == path_of(root@, project@),
{
    let mut path = root.to_owned();
    path.append("/");
    path.append(project);
    path
}

/// The child process to spawn: the program, its arguments in order, and the
/// directory to run it in. Without a working directory the child runs in
/// the caller's.
#[derive(Debug, PartialEq, Eq)]
pub struct SpawnPlan {
    pub program: String,
    pub args: Vec<String>,
    pub working_dir: Option<String>,
}

/// The mathematical value of a [`SpawnPlan`].
pub struct SpawnPlanView {
    pub program: Seq<char>,
    pub args: Seq<Seq<char>>,
    pub working_dir: Option<Seq<char>>,
}

impl View for SpawnPlan {
    type V = SpawnPlanView;

    open spec fn view(&self) -> SpawnPlanView {
        SpawnPlanView {
            program: self.program@,
            args: self.args.deep_view(),
            working_dir: self.working_dir.deep_view(),
        }
    }
}

impl DeepView for SpawnPlan {
    type V = SpawnPlanView;

    open spec fn deep_view(&self) -> SpawnPlanView {
        self@
    }
}

/// The words of a command line after the program: each argument with a
/// space before it.
pub open spec fn spaced(words: Seq<Seq<char>>) -> Seq<char>
    decreases words.len(),
{
    if words.len() == 0 {
        Seq::empty()
    } else {
        spaced(words.drop_last()) + " "@ + words.last()
    }
}

impl SpawnPlanView {
    /// The plan as one line: the program and its arguments, a space between
    /// each two.
    pub open spec fn command_line(self) -> Seq<char> {
        self.program + spaced(self.args)
    }

    /// What the end of the child means for the run: success if it exited
    /// with status 0, and otherwise a failure that names the command.
    pub open spec fn verdict(self, outcome: ChildOutcome) -> Result<(), LaunchErrorView> {
        if outcome.succeeded() {
            Ok(())
        } else {
            Err(LaunchErrorView::CommandFailed { command: self.command_line(), outcome })
        }
    }
}

/// The child to spawn for `action` on the project at `path`.
///
/// The editor is given the path as its only argument and runs in the
/// caller's directory. A command is handed to the shell as one argument
/// after `-c`, and an interactive shell is asked for with `-i`; both run in
/// the project's directory. An action whose program is not configured fails
/// with a configuration error that names the missing setting.
pub open spec fn plan_for(
    action: ActionRequestView,
    editor: Option<Seq<char>>,
    shell: Option<Seq<char>>,
    path: Seq<char>,
) -> Result<SpawnPlanView, LaunchErrorView> {
    match action {
        ActionRequestView::OpenEditor => match editor {
            Some(editor) => Ok(
                SpawnPlanView { program: editor, args: seq![path], working_dir: None },
            ),
            None => Err(LaunchErrorView::Configuration(Setting::Editor)),
        },
        ActionRequestView::RunCommand(text) => match shell {
            Some(shell) => Ok(
                SpawnPlanView {
                    program: shell,
                    args: seq![COMMAND_FLAG@, text],
                    working_dir: Some(path),
                },
            ),
            None => Err(LaunchErrorView::Configuration(Setting::Shell)),
        },
        ActionRequestView::InteractiveShell => match shell {
            Some(shell) => Ok(
                SpawnPlanView {
                    program: shell,
                    args: seq![INTERACTIVE_FLAG@],
                    working_dir: Some(path),
                },
            ),
            None => Err(LaunchErrorView::Configuration(Setting::Shell)),
        },
    }
}

/// Plans the child process for `action` on the project at `path`, with the
/// editor command and the shell as far as they are configured.
pub fn dispatch(
    action: &ActionRequest,
    editor: &Option<String>,
    shell: &Option<String>,
    path: String,
) -> (plan: Result<SpawnPlan, LaunchError>)
    ensures
        outcome_of(plan) == plan_for(action@, editor.deep_view(), shell.deep_view(), path@),
{
    let mut args: Vec<String> = Vec::new();
    match action {
        ActionRequest::OpenEditor => match editor {
            Some(editor) => {
                args.push(path);
                assert(args.deep_view() =~= seq![path@]);
                Ok(SpawnPlan { program: editor.clone(), args, working_dir: None })
            },
            None => Err(LaunchError::Configuration(Setting::Editor)),
        },
        ActionRequest::RunCommand(text) => match shell {
            Some(shell) => {
                args.push(COMMAND_FLAG.to_owned());
                args.push(text.clone());
                assert(args.deep_view() =~= seq![COMMAND_FLAG@, text@]);
                Ok(SpawnPlan { program: shell.clone(), args, working_dir: Some(path) })
            },
            None => Err(LaunchError::Configuration(Setting::Shell)),
        },
        ActionRequest::InteractiveShell => match shell {
            Some(shell) => {
                args.push(INTERACTIVE_FLAG.to_owned());
                assert(args.deep_view() =~= seq![INTERACTIVE_FLAG@]);
                Ok(SpawnPlan { program: shell.clone(), args, working_dir: Some(path) })
            },
            None => Err(LaunchError::Configuration(Setting::Shell)),
        },
    }
}

impl SpawnPlan {
    /// The plan as one line: the program and its arguments, a space between
    /// each two.
    pub fn command_line(&self) -> (line: String)
        ensures
            line@ == self@.command_line(),
    {
        let ghost words = self.args.deep_view();
        let mut line = self.program.clone();
        let mut i: usize = 0;
        while i < self.args.len()
            invariant
                i <= self.args.len(),
                words == self.args.deep_view(),
                line@ == self.program@ + spaced(words.take(i as int)),
            decreases self.args.len() - i,
        {
            proof {
                let next = words.take(i + 1);
                assert(next.drop_last() =~= words.take(i as int));
            }
            line.append(" ");
            line.append(self.args[i].as_str());
            i += 1;
        }
        assert(words.take(i as int) =~= words);
        line
    }
}

/// Judges the end of the child that was spawned for `plan`. The run
/// succeeds exactly when the child exited with status 0; a child that could
/// not be started, or that ended in any other way, fails the run with the
/// command line and the outcome.
pub fn report(plan: &SpawnPlan, outcome: ChildOutcome) -> (verdict: Result<(), LaunchError>)
    ensures
        outcome_of(verdict) == plan@.verdict(outcome),
        verdict is Ok <==> outcome == ChildOutcome::Exited(0),
{
    if outcome.is_success() {
        Ok(())
    } else {
        Err(LaunchError::CommandFailed { command: plan.command_line(), outcome })
    }
}

} // verus!
