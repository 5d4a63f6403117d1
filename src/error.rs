//! The errors of the process table and the manager.

use vstd::prelude::*;

verus! {

/// Why a request on a server was refused or failed.
#[derive(Clone, Copy, Debug, PartialEq, Eq, Structural)]
pub enum ProcessError {
    /// A start was asked for a server that is running.
    AlreadyRunning,
    /// A start was asked for a server whose start is under way.
    AlreadyStarting,
    /// A stop was asked for a server whose process has already ended.
    AlreadyStopped,
    /// A stop was asked for a server that was never started.
    NotStarted,
    /// Logs were asked for a server that was never started.
    NotFound,
    /// The server executable's path has no parent directory, so there is
    /// nowhere to put the configuration file or to run the server.
    InvalidExecutablePath,
    /// The configuration file could not be written.
    ConfigWriteFailed,
    /// The server process could not be spawned.
    SpawnFailed,
    /// The server process could not be killed.
    KillFailed,
}

/// Why launching a server failed, as reported by whoever launched it.
#[derive(Clone, Copy, Debug, PartialEq, Eq, Structural)]
pub enum LaunchError {
    /// Writing the configuration file failed.
    ConfigWrite,
    /// Spawning the process failed.
    Spawn,
}

/// The error a failed launch is reported as.
pub open spec fn launch_error_of(e: LaunchError) -> ProcessError {
    match e {
        LaunchError::ConfigWrite => ProcessError::ConfigWriteFailed,
        LaunchError::Spawn => ProcessError::SpawnFailed,
    }
}

impl LaunchError {
    /// The error a failed launch is reported as.
    pub fn to_process_error(self) -> (r: ProcessError)
        ensures
            r == launch_error_of(self),
    {
        match self {
            LaunchError::ConfigWrite => ProcessError::ConfigWriteFailed,
            LaunchError::Spawn => ProcessError::SpawnFailed,
        }
    }
}

} // verus!
