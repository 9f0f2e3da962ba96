//! Drives the BuildTools jar: a typed model of its command-line options, the
//! command line that the options stand for, and the protocol for launching
//! the jar and relaying its output.
//!
//! - [`argument`]: one option and how it is written;
//! - [`argument_set`]: the options chosen for a run, and how they change;
//! - [`task`]: the jar with its options, and the `java` command for them;
//! - [`launch`]: what to do on each event while the jar runs;
//! - [`versions`]: the version numbers in a listing;
//! - [`target`], [`text`]: compile targets and text helpers.

pub mod argument;
pub mod argument_set;
pub mod launch;
pub mod target;
pub mod task;
pub mod text;
pub mod versions;

pub use argument::{ArgumentKind, ArgumentModel, BuildToolsArgument};
pub use argument_set::ArgumentSet;
pub use launch::{LaunchAction, LaunchEvent, LaunchState};
pub use target::CompilationTarget;
pub use task::BuildToolsTask;
pub use versions::{find_matches, get_versions, VersionsError};
