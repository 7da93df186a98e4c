//! Environment Resolver: the workspace root and the editor command, each
//! resolved from a snapshot of the process environment.

use crate::error::{outcome_of, LaunchError, LaunchErrorView, Setting};
use vstd::prelude::*;

verus! {

/// The variable that names the workspace root.
pub const WORKSPACE_ROOT_VAR: &'static str = "WORKSPACE_ROOT";

/// The variable that names the home directory.
pub const HOME_VAR: &'static str = "HOME";

/// The variable that names the visual editor.
pub const VISUAL_VAR: &'static str = "VISUAL";

/// The variable that names the plain editor.
pub const EDITOR_VAR: &'static str = "EDITOR";

/// The variable that names the shell.
pub const SHELL_VAR: &'static str = "SHELL";

/// The directory below the home directory that holds the projects when no
/// workspace root is configured.
pub const DEFAULT_WORKSPACE: &'static str = "/Workspace";

/// The values of the variables that the launcher consults, read once. A
/// variable that is not set is `None`.
#[derive(Debug, PartialEq, Eq)]
pub struct Environment {
    pub workspace_root: Option<String>,
    pub home: Option<String>,
    pub visual: Option<String>,
    pub editor: Option<String>,
    pub shell: Option<String>,
}

/// The mathematical value of an [`Environment`].
pub struct EnvironmentView {
    pub workspace_root: Option<Seq<char>>,
    pub home: Option<Seq<char>>,
    pub visual: Option<Seq<char>>,
    pub editor: Option<Seq<char>>,
    pub shell: Option<Seq<char>>,
}

impl View for Environment {
    type V = EnvironmentView;

    open spec fn view(&self) -> EnvironmentView {
        EnvironmentView {
            workspace_root: self.workspace_root.deep_view(),
            home: self.home.deep_view(),
            visual: self.visual.deep_view(),
            editor: self.editor.deep_view(),
            shell: self.shell.deep_view(),
        }
    }
}

impl EnvironmentView {
    /// The environment in which none of the variables is set.
    pub open spec fn empty() -> EnvironmentView {
        EnvironmentView { workspace_root: None, home: None, visual: None, editor: None, shell: None }
    }

    /// The workspace root: the configured one, or else `Workspace` below the
    /// home directory.
    pub open spec fn workspace_root(self) -> Result<Seq<char>, LaunchErrorView> {
        match (self.workspace_root, self.home) {
            (Some(root), _) => Ok(root),
            (None, Some(home)) => Ok(home + DEFAULT_WORKSPACE@),
            (None, None) => Err(LaunchErrorView::Configuration(Setting::WorkspaceRoot)),
        }
    }

    /// The editor command: the visual editor, or else the plain editor.
    pub open spec fn editor_command(self) -> Result<Seq<char>, LaunchErrorView> {
        match (self.visual, self.editor) {
            (Some(visual), _) => Ok(visual),
            (None, Some(editor)) => Ok(editor),
            (None, None) => Err(LaunchErrorView::Configuration(Setting::Editor)),
        }
    }
}

impl Default for Environment {
    /// The environment in which none of the variables is set.
    fn default() -> (environment: Environment)
        ensures
            environment@ == EnvironmentView::empty(),
    {
        Environment { workspace_root: None, home: None, visual: None, editor: None, shell: None }
    }
}

/// Resolves the workspace root. It fails only when neither the workspace
/// root nor the home directory is set.
pub fn get_workspace_root(environment: &Environment) -> (root: Result<String, LaunchError>)
    ensures
        outcome_of(root) == environment@.workspace_root(),
{
    match &environment.workspace_root {
        Some(root) => Ok(root.clone()),
        None => match &environment.home {
            Some(home) => {
                let mut root = home.clone();
                root.append(DEFAULT_WORKSPACE);
                Ok(root)
            },
            None => Err(LaunchError::Configuration(Setting::WorkspaceRoot)),
        },
    }
}

/// Resolves the editor command. It fails only when neither editor variable
/// is set.
pub fn get_editor_command(environment: &Environment) -> (command: Result<String, LaunchError>)
    ensures
        outcome_of(command) == environment@.editor_command(),
{
    match &environment.visual {
        Some(visual) => Ok(visual.clone()),
        None => match &environment.editor {
            Some(editor) => Ok(editor.clone()),
            None => Err(LaunchError::Configuration(Setting::Editor)),
        },
    }
}

} // verus!
