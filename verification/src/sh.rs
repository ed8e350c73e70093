//! How a shell command is to be run.

use vstd::prelude::*;

verus! {

/// Where a stream of a command goes.
#[derive(Clone, Copy, Debug, PartialEq, Eq, Structural)]
pub enum StreamMode {
    /// To the stream of the same name of the calling process.
    Inherit,
    /// Into a pipe, to be collected.
    Pipe,
    /// Nowhere.
    Null,
}

/// The settings a command runs with.
#[derive(Clone, Debug)]
pub struct ShOptions {
    pub stdout: StreamMode,
    pub stderr: StreamMode,
    /// The directory to run in; the caller's if absent.
    pub cwd: Option<String>,
    pub quiet: bool,
}

impl Default for ShOptions {
    /// Both streams inherited, the caller's directory, not quiet.
    fn default() -> (opts: Self)
        ensures
            opts.stdout == StreamMode::Inherit,
            opts.stderr == StreamMode::Inherit,
            opts.cwd is None,
            !opts.quiet,
    {
        ShOptions {
            stdout: StreamMode::Inherit,
            stderr: StreamMode::Inherit,
            cwd: None,
            quiet: false,
        }
    }
}

} // verus!
