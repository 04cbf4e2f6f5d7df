//! Classification of child-process outcomes: what a spawn attempt reported,
//! and how each invocation profile turns that report into success or a typed
//! failure.

use vstd::prelude::*;
use crate::errors::StepError;

verus! {

/// What a finished child process reported: whether its exit status counts as
/// success, and the exit code where the platform supplied one.
#[derive(Clone, Copy, PartialEq, Eq, Debug)]
pub struct ExitReport {
    pub success: bool,
    pub code: Option<i32>,
}

/// The observable result of one spawn attempt.
#[derive(Clone, Copy, PartialEq, Eq, Debug)]
pub enum SpawnOutcome {
    /// The executable was missing or could not be started at all.
    LaunchFailed,
    /// The child ran to completion and reported an exit status.
    Finished(ExitReport),
}

/// The outcome counts as a successful run: the child was spawned and its
/// exit status indicates success.
pub open spec fn spec_spawn_ok(o: SpawnOutcome) -> bool {
    match o {
        SpawnOutcome::LaunchFailed => false,
        SpawnOutcome::Finished(rep) => rep.success,
    }
}

/// True exactly when the spawn attempt succeeded with a successful exit
/// status.
pub fn spawn_succeeded(o: &SpawnOutcome) -> (r: bool)
    ensures
        r == spec_spawn_ok(*o),
{
    match o {
        SpawnOutcome::LaunchFailed => false,
        SpawnOutcome::Finished(rep) => rep.success,
    }
}

/// Silent-install classification: a launch failure is a `ProcessLaunch`
/// error, a failing exit status is a `ProcessExit` error carrying the exit
/// code, and only a successful exit is `Ok`.
pub fn classify_silent_install(o: &SpawnOutcome) -> (r: Result<(), StepError>)
    ensures
        match *o {
            SpawnOutcome::LaunchFailed => r == Err::<(), StepError>(StepError::ProcessLaunch),
            SpawnOutcome::Finished(rep) => if rep.success {
                r == Ok::<(), StepError>(())
            } else {
                r == Err::<(), StepError>(StepError::ProcessExit { code: rep.code })
            },
        },
{
    match o {
        SpawnOutcome::LaunchFailed => Err(StepError::ProcessLaunch),
        SpawnOutcome::Finished(rep) => {
            if rep.success {
                Ok(())
            } else {
                Err(StepError::ProcessExit { code: rep.code })
            }
        },
    }
}

/// The error a failed spawn outcome maps to; successful outcomes map to no
/// error. Used by the pipeline to name what aborted a step.
pub open spec fn spec_spawn_error(o: SpawnOutcome) -> StepError {
    match o {
        SpawnOutcome::LaunchFailed => StepError::ProcessLaunch,
        SpawnOutcome::Finished(rep) => StepError::ProcessExit { code: rep.code },
    }
}

/// The typed error for a spawn outcome that did not succeed.
pub fn spawn_error(o: &SpawnOutcome) -> (r: StepError)
    ensures
        r == spec_spawn_error(*o),
{
    match o {
        SpawnOutcome::LaunchFailed => StepError::ProcessLaunch,
        SpawnOutcome::Finished(rep) => StepError::ProcessExit { code: rep.code },
    }
}

} // verus!
