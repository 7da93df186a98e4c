//! What an invocation asks for: the project, if it is named, and the action
//! to take on it.

use vstd::prelude::*;

verus! {

/// The action flags of an invocation. The argument parser accepts at most
/// one of them; should both arrive, `open` takes precedence.
#[derive(Debug, PartialEq, Eq)]
pub struct Action {
    /// Open the project in the editor.
    pub open: bool,
    /// Run this command in the project directory.
    pub execute: Option<String>,
}

/// The arguments of an invocation.
#[derive(Debug, PartialEq, Eq)]
pub struct Args {
    /// The project, by name; chosen interactively where it is absent.
    pub project: Option<String>,
    pub action: Action,
}

/// What to do with the selected project.
#[derive(Debug, PartialEq, Eq)]
pub enum ActionRequest {
    /// Open the editor on the project.
    OpenEditor,
    /// Run this command text through the shell, inside the project.
    RunCommand(String),
    /// Start an interactive shell inside the project.
    InteractiveShell,
}

/// The mathematical value of an [`Action`].
pub struct ActionView {
    pub open: bool,
    pub execute: Option<Seq<char>>,
}

/// The mathematical value of [`Args`].
pub struct ArgsView {
    pub project: Option<Seq<char>>,
    pub action: ActionView,
}

/// The mathematical value of an [`ActionRequest`].
pub enum ActionRequestView {
    OpenEditor,
    RunCommand(Seq<char>),
    InteractiveShell,
}

impl View for Action {
    type V = ActionView;

    open spec fn view(&self) -> ActionView {
        ActionView { open: self.open, execute: self.execute.deep_view() }
    }
}

impl View for Args {
    type V = ArgsView;

    open spec fn view(&self) -> ArgsView {
        ArgsView { project: self.project.deep_view(), action: self.action@ }
    }
}

impl View for ActionRequest {
    type V = ActionRequestView;

    open spec fn view(&self) -> ActionRequestView {
        match *self {
            ActionRequest::OpenEditor => ActionRequestView::OpenEditor,
            ActionRequest::RunCommand(text) => ActionRequestView::RunCommand(text@),
            ActionRequest::InteractiveShell => ActionRequestView::InteractiveShell,
        }
    }
}

impl ActionView {
    /// At most one of the two flags is set.
    pub open spec fn exclusive(self) -> bool {
        !(self.open && self.execute is Some)
    }

    /// The action that the flags ask for: the editor for `open`, the command
    /// for `execute`, and an interactive shell where neither is set.
    pub open spec fn request(self) -> ActionRequestView {
        if self.open {
            ActionRequestView::OpenEditor
        } else {
            match self.execute {
                Some(text) => ActionRequestView::RunCommand(text),
                None => ActionRequestView::InteractiveShell,
            }
        }
    }
}

impl Default for Action {
    /// No flag set.
    fn default() -> (action: Action)
        ensures
            action@ == (ActionView { open: false, execute: None }),
    {
        Action { open: false, execute: None }
    }
}

impl Default for Args {
    /// No project named and no flag set.
    fn default() -> (args: Args)
        ensures
            args@ == (ArgsView { project: None, action: ActionView { open: false, execute: None } }),
    {
        Args { project: None, action: Action::default() }
    }
}

impl Action {
    /// The action that the flags ask for.
    pub fn request(self) -> (request: ActionRequest)
        ensures
            request@ == self@.request(),
    {
        if self.open {
            ActionRequest::OpenEditor
        } else {
            match self.execute {
                Some(text) => ActionRequest::RunCommand(text),
                None => ActionRequest::InteractiveShell,
            }
        }
    }
}

/// With at most one flag set, the flags and the action determine each
/// other: the editor is opened exactly when `open` is set, a command is run
/// exactly when `execute` gives it, and the shell is started exactly when
/// neither is set.
pub proof fn request_follows_the_flags(action: ActionView)
    requires
        action.exclusive(),
    ensures
        action.request() is OpenEditor <==> action.open,
        forall|text: Seq<char>|
            action.request() == ActionRequestView::RunCommand(text) <==> action.execute == Some(
                text,
            ),
        action.request() is InteractiveShell <==> !action.open && action.execute is None,
{
}

} // verus!
