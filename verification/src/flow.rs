//! The run as a whole: resolve the environment, enumerate the projects,
//! select one, dispatch the action. The run is a sequence of steps. Each
//! step but the last asks its driver for one piece of outside work, and the
//! driver hands the result to the function that gives the next step.

use crate::dispatch::{dispatch, path_of, plan_for, project_path, report, SpawnPlan, SpawnPlanView};
use crate::enumerate::{
    directory_names, enumeration_is_the_directories, get_projects, project_names, projects_of,
    reading_of, Entry, EntryView,
};
use crate::environment::{get_editor_command, get_workspace_root, Environment, EnvironmentView};
use crate::error::{outcome_of, ChildOutcome, IoKind, LaunchError, LaunchErrorView};
use crate::request::{ActionRequest, ActionRequestView, Args, ArgsView};
use crate::select::{
    accept_choice, chosen_project, find_project, named_project, named_project_is_first_match,
    same_name, sort_names, sorted_names,
};
use vstd::prelude::*;

verus! {

/// What a run knows once its environment is resolved.
#[derive(Debug, PartialEq, Eq)]
pub struct Session {
    /// The workspace root.
    pub root: String,
    /// The project asked for by name, if one was.
    pub wanted: Option<String>,
    /// The action to take on the selected project.
    pub action: ActionRequest,
    /// The editor command, resolved when the action is to open the editor.
    pub editor: Option<String>,
    /// The shell, if one is configured.
    pub shell: Option<String>,
}

/// One step of a run. Every variant but `Finished` names the outside work
/// that the driver does next.
#[derive(Debug, PartialEq, Eq)]
pub enum Step {
    /// Read the directory at the session's root, then go on with [`listed`].
    ReadDirectory(Session),
    /// Let the user choose one of these names, then go on with [`chosen`].
    Prompt(Session, Vec<String>),
    /// Spawn this child and wait for it, then go on with [`exited`].
    Spawn(SpawnPlan),
    /// The run is over, with this result.
    Finished(Result<(), LaunchError>),
}

/// The mathematical value of a [`Session`].
pub struct SessionView {
    pub root: Seq<char>,
    pub wanted: Option<Seq<char>>,
    pub action: ActionRequestView,
    pub editor: Option<Seq<char>>,
    pub shell: Option<Seq<char>>,
}

/// The mathematical value of a [`Step`].
pub enum StepView {
    ReadDirectory(SessionView),
    Prompt(SessionView, Seq<Seq<char>>),
    Spawn(SpawnPlanView),
    Finished(Result<(), LaunchErrorView>),
}

impl View for Session {
    type V = SessionView;

    open spec fn view(&self) -> SessionView {
        SessionView {
            root: self.root@,
            wanted: self.wanted.deep_view(),
            action: self.action@,
            editor: self.editor.deep_view(),
            shell: self.shell.deep_view(),
        }
    }
}

impl View for Step {
    type V = StepView;

    open spec fn view(&self) -> StepView {
        match *self {
            Step::ReadDirectory(session) => StepView::ReadDirectory(session@),
            Step::Prompt(session, choices) => StepView::Prompt(session@, choices.deep_view()),
            Step::Spawn(plan) => StepView::Spawn(plan@),
            Step::Finished(outcome) => StepView::Finished(outcome_of(outcome)),
        }
    }
}

impl StepView {
    /// How many pieces of outside work a run may still ask for, counting
    /// the one this step asks for.
    pub open spec fn steps_left(self) -> nat {
        match self {
            StepView::ReadDirectory(_) => 3,
            StepView::Prompt(_, _) => 2,
            StepView::Spawn(_) => 1,
            StepView::Finished(_) => 0,
        }
    }
}

/// The editor command that an action needs: the resolved one for opening
/// the editor, which fails the run if there is none, and nothing for the
/// other actions.
pub open spec fn editor_for(action: ActionRequestView, environment: EnvironmentView) -> Result<
    Option<Seq<char>>,
    LaunchErrorView,
> {
    if action is OpenEditor {
        match environment.editor_command() {
            Ok(editor) => Ok(Some(editor)),
            Err(error) => Err(error),
        }
    } else {
        Ok(None)
    }
}

/// The first step of a run. The action is settled from the flags, then the
/// editor command where the action needs one, then the workspace root; the
/// first of these that is missing ends the run.
pub open spec fn first_step(args: ArgsView, environment: EnvironmentView) -> StepView {
    let action = args.action.request();
    match editor_for(action, environment) {
        Err(error) => StepView::Finished(Err(error)),
        Ok(editor) => match environment.workspace_root() {
            Err(error) => StepView::Finished(Err(error)),
            Ok(root) => StepView::ReadDirectory(
                SessionView { root, wanted: args.project, action, editor, shell: environment.shell },
            ),
        },
    }
}

/// The step after a project is selected: spawn the child that the action
/// calls for, at the project's path below the root.
pub open spec fn step_on_project(session: SessionView, project: Seq<char>) -> StepView {
    match plan_for(session.action, session.editor, session.shell, path_of(session.root, project)) {
        Ok(plan) => StepView::Spawn(plan),
        Err(error) => StepView::Finished(Err(error)),
    }
}

/// The step after the workspace root was read. A project given by name is
/// resolved against the enumerated names; without a name the user is shown
/// the names in sorted order.
pub open spec fn step_after_listing(
    session: SessionView,
    reading: Result<Seq<EntryView>, IoKind>,
) -> StepView {
    match projects_of(session.root, reading) {
        Err(error) => StepView::Finished(Err(error)),
        Ok(projects) => match session.wanted {
            Some(wanted) => match named_project(projects, wanted) {
                Ok(project) => step_on_project(session, project),
                Err(error) => StepView::Finished(Err(error)),
            },
            None => StepView::Prompt(session, sorted_names(projects)),
        },
    }
}

/// The step after the prompt: go on with the chosen project, or end the run
/// where none was chosen.
pub open spec fn step_after_choice(session: SessionView, choice: Option<Seq<char>>) -> StepView {
    match chosen_project(choice) {
        Ok(project) => step_on_project(session, project),
        Err(error) => StepView::Finished(Err(error)),
    }
}

/// The step after the child ended: the run is over, with the verdict on the
/// child.
pub open spec fn step_after_exit(plan: SpawnPlanView, outcome: ChildOutcome) -> StepView {
    StepView::Finished(plan.verdict(outcome))
}

/// Starts a run from the arguments of the invocation and a snapshot of the
/// environment.
pub fn begin(args: Args, environment: Environment) -> (step: Step)
    ensures
        step@ == first_step(args@, environment@),
{
    let action = args.action.request();
    let editor = match action {
        ActionRequest::OpenEditor => match get_editor_command(&environment) {
            Ok(editor) => Some(editor),
            Err(error) => {
                return Step::Finished(Err(error));
            },
        },
        _ => None,
    };
    match get_workspace_root(&environment) {
        Ok(root) => Step::ReadDirectory(
            Session { root, wanted: args.project, action, editor, shell: environment.shell },
        ),
        Err(error) => Step::Finished(Err(error)),
    }
}

/// Goes on with the selected project: plans the child for the session's
/// action at the project's path.
fn proceed(session: Session, project: String) -> (step: Step)
    ensures
        step@ == step_on_project(session@, project@),
{
    let path = project_path(session.root.as_str(), project.as_str());
    match dispatch(&session.action, &session.editor, &session.shell, path) {
        Ok(plan) => Step::Spawn(plan),
        Err(error) => Step::Finished(Err(error)),
    }
}

/// Goes on after the directory at the session's root was read: `reading`
/// is the listing, or the reason why there is none.
pub fn listed(session: Session, reading: Result<Vec<Entry>, IoKind>) -> (step: Step)
    ensures
        step@ == step_after_listing(session@, reading_of(reading)),
{
    let projects = match get_projects(&session.root, reading) {
        Ok(projects) => projects,
        Err(error) => {
            return Step::Finished(Err(error));
        },
    };
    match &session.wanted {
        Some(wanted) => match find_project(&projects, wanted.as_str()) {
            Ok(project) => proceed(session, project),
            Err(error) => Step::Finished(Err(error)),
        },
        None => {
            let choices = sort_names(projects);
            Step::Prompt(session, choices)
        },
    }
}

/// Goes on after the prompt: `choice` is the name that the user chose, or
/// `None` where the prompt was cancelled or could not be shown.
pub fn chosen(session: Session, choice: Option<String>) -> (step: Step)
    ensures
        step@ == step_after_choice(session@, choice.deep_view()),
{
    match accept_choice(choice) {
        Ok(project) => proceed(session, project),
        Err(error) => Step::Finished(Err(error)),
    }
}

/// Ends the run after the child that was spawned for `plan` ended.
pub fn exited(plan: &SpawnPlan, outcome: ChildOutcome) -> (step: Step)
    ensures
        step@ == step_after_exit(plan@, outcome),
{
    Step::Finished(report(plan, outcome))
}

/// Every step leaves less outside work to do than the step before it, so a
/// run is over after at most three pieces of outside work: one read of the
/// workspace root, one prompt, one child.
pub proof fn steps_run_down(
    args: ArgsView,
    environment: EnvironmentView,
    session: SessionView,
    reading: Result<Seq<EntryView>, IoKind>,
    choices: Seq<Seq<char>>,
    choice: Option<Seq<char>>,
    plan: SpawnPlanView,
    outcome: ChildOutcome,
)
    ensures
        first_step(args, environment).steps_left() <= 3,
        step_after_listing(session, reading).steps_left() < StepView::ReadDirectory(
            session,
        ).steps_left(),
        step_after_choice(session, choice).steps_left() < StepView::Prompt(
            session,
            choices,
        ).steps_left(),
        step_after_exit(plan, outcome).steps_left() < StepView::Spawn(plan).steps_left(),
{
}

/// A run succeeds only through a child that exited with status 0: no step
/// before the spawn ends the run with success, and the step after the spawn
/// does so exactly for that outcome.
pub proof fn success_needs_a_clean_exit(
    args: ArgsView,
    environment: EnvironmentView,
    session: SessionView,
    reading: Result<Seq<EntryView>, IoKind>,
    choice: Option<Seq<char>>,
    plan: SpawnPlanView,
    outcome: ChildOutcome,
)
    ensures
        first_step(args, environment) != StepView::Finished(Ok(())),
        step_after_listing(session, reading) != StepView::Finished(Ok(())),
        step_after_choice(session, choice) != StepView::Finished(Ok(())),
        step_after_exit(plan, outcome) == StepView::Finished(Ok(())) <==> outcome
            == ChildOutcome::Exited(0),
{
}

/// A project given by name is acted on only where the listing holds a
/// directory of that name, but for case: the child is then planned for that
/// directory's path below the root.
pub proof fn named_project_is_a_listed_directory(
    session: SessionView,
    listing: Seq<EntryView>,
    plan: SpawnPlanView,
)
    requires
        session.wanted is Some,
        step_after_listing(session, Ok(listing)) == StepView::Spawn(plan),
    ensures
        exists|name: Seq<char>|
            {
                &&& #[trigger] directory_names(listing).contains(name)
                &&& same_name(name, session.wanted->0)
                &&& Ok::<SpawnPlanView, LaunchErrorView>(plan) == plan_for(
                    session.action,
                    session.editor,
                    session.shell,
                    path_of(session.root, name),
                )
            },
{
    let projects = project_names(listing);
    let wanted = session.wanted->0;
    named_project_is_first_match(projects, wanted);
    enumeration_is_the_directories(listing);
    let name = named_project(projects, wanted)->Ok_0;
    assert(directory_names(listing).contains(name));
}

} // verus!
