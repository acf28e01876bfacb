//! The command-line surface as plain data: which subcommand was chosen,
//! with which options. Parsing the actual command line is the caller's
//! business; the library only defines the shape.

use vstd::prelude::*;

verus! {

/// One parsed invocation: the configuration directory and the chosen
/// subcommand.
#[derive(Debug, Clone)]
pub struct Cli {
    /// Directory containing `lazynix.yaml` and `lazynix-settings.yaml`.
    pub config_dir: String,
    /// The chosen subcommand.
    pub command: Commands,
}

/// The subcommands and their options.
#[derive(Debug, Clone)]
pub enum Commands {
    /// Initialize a new project with template files.
    Init {
        /// Overwrite existing files without prompting.
        force: bool,
    },
    /// Update the lockfile without entering the development shell.
    Update,
    /// Generate the flake document and enter the development shell.
    Develop {
        /// Update the lockfile before entering the shell.
        update: bool,
    },
    /// Run a command in the development environment.
    Run {
        /// Update the lockfile before running the command.
        update: bool,
        /// Skip regenerating the flake document.
        no_regen: bool,
        /// The command to run.
        command: Vec<String>,
    },
    /// Run the tests declared in the configuration.
    Test {
        /// Update the lockfile before running tests.
        update: bool,
    },
    /// Run a task declared in the configuration.
    Task {
        /// Name of the task to run.
        task_name: String,
        /// Arguments passed to the task.
        args: Vec<String>,
    },
    /// Validate the declared packages against the registry.
    Lint {
        /// Show the diagnostic dump of every failure.
        verbose: bool,
        /// Override the target architecture.
        arch: Option<String>,
    },
}

} // verus!
