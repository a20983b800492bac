//! Process Launcher: the verdict on one launch attempt, from what the caller
//! observed when it spawned the process and polled it after the grace window.
use vstd::prelude::*;

verus! {

/// What the caller saw of a spawned process.
#[derive(Clone, Copy, Debug, PartialEq, Eq, Structural)]
pub enum SpawnReport {
    /// The operating system refused to start the process.
    NotSpawned,
    /// The process had already exited when polled after the grace window.
    ExitedDuringGrace,
    /// The process was still running when polled.
    Running,
    /// The process started, but its exit status could not be polled.
    StatusUnknown,
}

/// Why a launch attempt failed.
#[derive(Clone, Copy, Debug, PartialEq, Eq, Structural)]
pub enum LaunchError {
    SpawnFailed,
    ExitedEarly,
}

/// Where the process's standard output and error go.
#[derive(Clone, Copy, Debug, PartialEq, Eq, Structural)]
pub enum OutputTarget {
    /// The attempt's log file in the working directory.
    LogFile,
    /// The streams are left as they are.
    Inherited,
}

pub open spec fn launch_verdict(report: SpawnReport) -> Result<(), LaunchError> {
    match report {
        SpawnReport::NotSpawned => Err(LaunchError::SpawnFailed),
        SpawnReport::ExitedDuringGrace => Err(LaunchError::ExitedEarly),
        SpawnReport::Running => Ok(()),
        SpawnReport::StatusUnknown => Ok(()),
    }
}

/// The verdict on a launch: a process that could not be spawned, or that
/// exited within the grace window, is a failure; one still running, or whose
/// status could not be polled, is live and handed to the caller.
pub fn assess_launch(report: SpawnReport) -> (r: Result<(), LaunchError>)
    ensures
        r == launch_verdict(report),
{
    match report {
        SpawnReport::NotSpawned => Err(LaunchError::SpawnFailed),
        SpawnReport::ExitedDuringGrace => Err(LaunchError::ExitedEarly),
        SpawnReport::Running => Ok(()),
        SpawnReport::StatusUnknown => Ok(()),
    }
}

/// Output goes to the log file when it could be created; otherwise the launch
/// goes on without redirection rather than failing.
pub fn output_target(log_created: bool) -> (r: OutputTarget)
    ensures
        r == (if log_created { OutputTarget::LogFile } else { OutputTarget::Inherited }),
{
    if log_created {
        OutputTarget::LogFile
    } else {
        OutputTarget::Inherited
    }
}

} // verus!
