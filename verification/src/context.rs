//! Per-invocation execution context: the selected command bound to a
//! snapshot of the process environment and the application configuration.

use crate::command::CommandEntry;
use crate::config::AppConfig;
use vstd::prelude::*;

verus! {

/// Core information about the execution environment, supplied as plain
/// values by whatever reads the process state. The two path resolutions are
/// fallible, and either outcome is preserved rather than unwrapped.
pub struct Environment {
    /// The operating system on which the app is run.
    pub os: String,
    /// Local environment variables, as name and value pairs.
    pub vars: Vec<(String, String)>,
    /// The arguments passed for the execution.
    pub argv: Vec<String>,
    /// The current working directory, or the error met resolving it.
    pub current_dir: Result<String, String>,
    /// The full path of the running executable, or the error met resolving it.
    pub current_exe: Result<String, String>,
}

/// Holds contextual information about one command execution. Created at
/// dispatch time, handed to the command, and discarded when the invocation
/// returns; never persisted.
pub struct Context {
    /// An independent copy of the command that was invoked.
    pub command: CommandEntry,
    /// Information about the environment of program execution.
    pub env: Environment,
    /// The owning application's configuration.
    pub config: AppConfig,
}

impl Context {
    /// Binds a command to an environment snapshot and a configuration.
    pub fn new(command: CommandEntry, env: Environment, config: AppConfig) -> (r: Context)
        ensures
            r.command == command,
            r.env == env,
            r.config == config,
    {
        Context { command, env, config }
    }
}

} // verus!
