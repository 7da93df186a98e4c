//! A workspace project launcher: pick a project directory below a workspace
//! root, then open an editor on it, run a command inside it, or start a
//! shell there.
//!
//! The library decides; its driver does the outside work. [`flow`] holds the
//! run as a sequence of steps, each of which asks the driver to read the
//! workspace root, to prompt the user, or to spawn a child, and takes the
//! result back. The stages that a run goes through have a module each:
//! [`environment`] resolves the workspace root and the editor command,
//! [`enumerate`] lists the projects, [`select`] settles on one of them, and
//! [`dispatch`] plans the child process and judges how it ended. [`request`]
//! holds what an invocation asks for, [`error`] the failures and their
//! diagnostics, and [`text`] the order in which names are sorted.

pub mod dispatch;
pub mod enumerate;
pub mod environment;
pub mod error;
pub mod flow;
pub mod request;
pub mod select;
pub mod text;
