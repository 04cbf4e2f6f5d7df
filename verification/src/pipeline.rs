//! The provisioning pipeline as a state machine: from each stage and the
//! observed outcome of that stage's outside action, the next stage. The
//! machine owns every decision — what to skip when a dependency is already
//! present, when to retry a readiness probe, and when to abort — while the
//! actions themselves (network, subprocesses, filesystem probes) run
//! outside and report back as events.

use vstd::prelude::*;
use crate::config::Recipe;
use crate::errors::StepError;
use crate::pathenv::PathOutcome;
use crate::process::{spawn_error, spawn_succeeded, spec_spawn_error, spec_spawn_ok, SpawnOutcome};
use crate::waiter::{spec_waiter_step, waiter_step, WaiterStep};

verus! {

/// The step a diagnostic names when the pipeline aborts there.
#[derive(Clone, Copy, PartialEq, Eq, Debug)]
pub enum StepName {
    FetchRuntime,
    InstallRuntime,
    ResolveInstaller,
    FetchInstaller,
    LaunchInstaller,
    ShellCommand { index: usize },
}

/// How a finished pipeline ended: completed (with the PATH outcome reported
/// distinctly), aborted early at a named step, or stopped fatally.
#[derive(Clone, Copy, PartialEq, Eq, Debug)]
pub enum PipelineResult {
    Completed { path: PathOutcome },
    Aborted { step: StepName, error: StepError },
    Fatal { error: StepError },
}

/// The stages of the pipeline, in the order a full run visits them. Each
/// non-terminal stage stands for one pending outside action.
#[derive(Clone, Copy, PartialEq, Eq, Debug)]
pub enum Stage {
    /// Probe the system directory for the runtime libraries.
    ProbeRuntime,
    /// Runtime absent: probe whether its installer is already cached.
    ProbeRuntimeInstaller,
    /// Download the runtime installer to the cache path.
    FetchRuntime,
    /// Run the runtime installer silently.
    InstallRuntime,
    /// Probe the toolchain root and its command interpreter.
    ProbeToolchain,
    /// Fetch release metadata and resolve the installer asset.
    ResolveInstaller,
    /// Download the resolved installer asset.
    FetchInstaller,
    /// Launch the toolchain installer; it finishes asynchronously.
    LaunchInstaller,
    /// Poll for the readiness artifact; `attempt` probes are already spent.
    AwaitReadiness { attempt: u32 },
    /// Delete the downloaded installer file.
    CleanupInstaller,
    /// Probe for the command interpreter before shell command `cmd`.
    ProbeInterpreter { cmd: usize },
    /// Run shell command `cmd` of the recipe through the interpreter.
    RunShellCommand { cmd: usize },
    /// Read the persistent PATH value and test for the target directory.
    ReadPathValue,
    /// Persist the appended PATH value.
    PersistPath,
    /// Terminal: nothing left to do.
    Done { result: PipelineResult },
}

/// What each stage observed: a presence or containment probe, a fetch or
/// resolution result, a spawn outcome, or a file removal result.
#[derive(Clone, Copy, PartialEq, Eq, Debug)]
pub enum Event {
    Observed { present: bool },
    Fetched { error: Option<StepError> },
    Resolved { error: Option<StepError> },
    Spawned { outcome: SpawnOutcome },
    Removed { ok: bool },
}

/// The outside action a stage asks for.
#[derive(Clone, Copy, PartialEq, Eq, Debug)]
pub enum Action {
    ProbeRuntimeLibraries,
    ProbeRuntimeInstallerFile,
    DownloadRuntime,
    RunRuntimeInstaller,
    ProbeToolchainInstall,
    FetchReleaseMetadata,
    DownloadInstallerAsset,
    LaunchToolchainInstaller,
    ProbeReadinessArtifact,
    RemoveInstallerFile,
    ProbeInterpreterFile { index: usize },
    RunShellCommand { index: usize },
    ReadCurrentPath,
    PersistNewPath,
    Stop,
}

/// The stage after the interpreter probe for command `cmd` of `n_cmds`
/// succeeded and the command's spawn reported `o`: the next command's probe,
/// the PATH update once the recipe is exhausted, or an abort naming the
/// command.
pub open spec fn spec_after_shell_command(n_cmds: usize, cmd: usize, o: SpawnOutcome) -> Stage {
    if spec_spawn_ok(o) {
        if cmd + 1 < n_cmds {
            Stage::ProbeInterpreter { cmd: (cmd + 1) as usize }
        } else {
            Stage::ReadPathValue
        }
    } else {
        Stage::Done {
            result: PipelineResult::Aborted {
                step: StepName::ShellCommand { index: cmd },
                error: spec_spawn_error(o),
            },
        }
    }
}

/// The full transition relation: from a stage and the event its action
/// reported, the next stage. An event of the wrong shape for the stage
/// leaves the stage unchanged, and terminal stages absorb every event.
pub open spec fn spec_pipeline_step(cleanup: bool, n_cmds: usize, s: Stage, e: Event) -> Stage {
    match (s, e) {
        (Stage::ProbeRuntime, Event::Observed { present }) => if present {
            Stage::ProbeToolchain
        } else {
            Stage::ProbeRuntimeInstaller
        },
        (Stage::ProbeRuntimeInstaller, Event::Observed { present }) => if present {
            Stage::InstallRuntime
        } else {
            Stage::FetchRuntime
        },
        (Stage::FetchRuntime, Event::Fetched { error }) => match error {
            None => Stage::InstallRuntime,
            Some(err) => Stage::Done {
                result: PipelineResult::Aborted { step: StepName::FetchRuntime, error: err },
            },
        },
        (Stage::InstallRuntime, Event::Spawned { outcome }) => if spec_spawn_ok(outcome) {
            Stage::ProbeToolchain
        } else {
            Stage::Done {
                result: PipelineResult::Aborted {
                    step: StepName::InstallRuntime,
                    error: spec_spawn_error(outcome),
                },
            }
        },
        (Stage::ProbeToolchain, Event::Observed { present }) => if present {
            Stage::ProbeInterpreter { cmd: 0 }
        } else {
            Stage::ResolveInstaller
        },
        (Stage::ResolveInstaller, Event::Resolved { error }) => match error {
            None => Stage::FetchInstaller,
            Some(err) => Stage::Done {
                result: PipelineResult::Aborted { step: StepName::ResolveInstaller, error: err },
            },
        },
        (Stage::FetchInstaller, Event::Fetched { error }) => match error {
            None => Stage::LaunchInstaller,
            Some(err) => Stage::Done {
                result: PipelineResult::Aborted { step: StepName::FetchInstaller, error: err },
            },
        },
        (Stage::LaunchInstaller, Event::Spawned { outcome }) => if spec_spawn_ok(outcome) {
            Stage::AwaitReadiness { attempt: 0 }
        } else {
            Stage::Done {
                result: PipelineResult::Aborted {
                    step: StepName::LaunchInstaller,
                    error: spec_spawn_error(outcome),
                },
            }
        },
        (Stage::AwaitReadiness { attempt }, Event::Observed { present }) => match spec_waiter_step(
            attempt,
            present,
        ) {
            WaiterStep::Ready => if cleanup {
                Stage::CleanupInstaller
            } else {
                Stage::ProbeInterpreter { cmd: 0 }
            },
            WaiterStep::Continue { next_attempt } => Stage::AwaitReadiness { attempt: next_attempt },
            WaiterStep::TimedOut => Stage::Done {
                result: PipelineResult::Fatal { error: StepError::ReadinessTimeout },
            },
        },
        (Stage::CleanupInstaller, Event::Removed { .. }) => Stage::ProbeInterpreter { cmd: 0 },
        (Stage::ProbeInterpreter { cmd }, Event::Observed { present }) => if present {
            Stage::RunShellCommand { cmd }
        } else {
            Stage::Done {
                result: PipelineResult::Aborted {
                    step: StepName::ShellCommand { index: cmd },
                    error: StepError::ProcessLaunch,
                },
            }
        },
        (Stage::RunShellCommand { cmd }, Event::Spawned { outcome }) => spec_after_shell_command(
            n_cmds,
            cmd,
            outcome,
        ),
        (Stage::ReadPathValue, Event::Observed { present }) => if present {
            Stage::Done {
                result: PipelineResult::Completed { path: PathOutcome::AlreadyPresent },
            }
        } else {
            Stage::PersistPath
        },
        (Stage::PersistPath, Event::Spawned { outcome }) => if spec_spawn_ok(outcome) {
            Stage::Done { result: PipelineResult::Completed { path: PathOutcome::Persisted } }
        } else {
            Stage::Done {
                result: PipelineResult::Completed { path: PathOutcome::PersistFailed },
            }
        },
        (Stage::Done { result }, _) => Stage::Done { result },
        (other, _) => other,
    }
}

/// The stage a fresh run starts in.
pub fn initial_stage() -> (r: Stage)
    ensures
        r == Stage::ProbeRuntime,
{
    Stage::ProbeRuntime
}

/// One pipeline transition; exactly the transition relation.
pub fn pipeline_step(recipe: &Recipe, s: &Stage, e: &Event) -> (r: Stage)
    ensures
        r == spec_pipeline_step(recipe.cleanup_installer, recipe.commands@.len() as usize, *s, *e),
{
    let n_cmds = recipe.commands.len();
    match (s, e) {
        (Stage::ProbeRuntime, Event::Observed { present }) => if *present {
            Stage::ProbeToolchain
        } else {
            Stage::ProbeRuntimeInstaller
        },
        (Stage::ProbeRuntimeInstaller, Event::Observed { present }) => if *present {
            Stage::InstallRuntime
        } else {
            Stage::FetchRuntime
        },
        (Stage::FetchRuntime, Event::Fetched { error }) => match error {
            None => Stage::InstallRuntime,
            Some(err) => Stage::Done {
                result: PipelineResult::Aborted { step: StepName::FetchRuntime, error: *err },
            },
        },
        (Stage::InstallRuntime, Event::Spawned { outcome }) => if spawn_succeeded(outcome) {
            Stage::ProbeToolchain
        } else {
            Stage::Done {
                result: PipelineResult::Aborted {
                    step: StepName::InstallRuntime,
                    error: spawn_error(outcome),
                },
            }
        },
        (Stage::ProbeToolchain, Event::Observed { present }) => if *present {
            Stage::ProbeInterpreter { cmd: 0 }
        } else {
            Stage::ResolveInstaller
        },
        (Stage::ResolveInstaller, Event::Resolved { error }) => match error {
            None => Stage::FetchInstaller,
            Some(err) => Stage::Done {
                result: PipelineResult::Aborted { step: StepName::ResolveInstaller, error: *err },
            },
        },
        (Stage::FetchInstaller, Event::Fetched { error }) => match error {
            None => Stage::LaunchInstaller,
            Some(err) => Stage::Done {
                result: PipelineResult::Aborted { step: StepName::FetchInstaller, error: *err },
            },
        },
        (Stage::LaunchInstaller, Event::Spawned { outcome }) => if spawn_succeeded(outcome) {
            Stage::AwaitReadiness { attempt: 0 }
        } else {
            Stage::Done {
                result: PipelineResult::Aborted {
                    step: StepName::LaunchInstaller,
                    error: spawn_error(outcome),
                },
            }
        },
        (Stage::AwaitReadiness { attempt }, Event::Observed { present }) => match waiter_step(
            *attempt,
            *present,
        ) {
            WaiterStep::Ready => if recipe.cleanup_installer {
                Stage::CleanupInstaller
            } else {
                Stage::ProbeInterpreter { cmd: 0 }
            },
            WaiterStep::Continue { next_attempt } => Stage::AwaitReadiness { attempt: next_attempt },
            WaiterStep::TimedOut => Stage::Done {
                result: PipelineResult::Fatal { error: StepError::ReadinessTimeout },
            },
        },
        (Stage::CleanupInstaller, Event::Removed { ok: _ }) => Stage::ProbeInterpreter { cmd: 0 },
        (Stage::ProbeInterpreter { cmd }, Event::Observed { present }) => if *present {
            Stage::RunShellCommand { cmd: *cmd }
        } else {
            Stage::Done {
                result: PipelineResult::Aborted {
                    step: StepName::ShellCommand { index: *cmd },
                    error: StepError::ProcessLaunch,
                },
            }
        },
        (Stage::RunShellCommand { cmd }, Event::Spawned { outcome }) => {
            if spawn_succeeded(outcome) {
                if *cmd < n_cmds && n_cmds - *cmd > 1 {
                    Stage::ProbeInterpreter { cmd: *cmd + 1 }
                } else {
                    Stage::ReadPathValue
                }
            } else {
                Stage::Done {
                    result: PipelineResult::Aborted {
                        step: StepName::ShellCommand { index: *cmd },
                        error: spawn_error(outcome),
                    },
                }
            }
        },
        (Stage::ReadPathValue, Event::Observed { present }) => if *present {
            Stage::Done {
                result: PipelineResult::Completed { path: PathOutcome::AlreadyPresent },
            }
        } else {
            Stage::PersistPath
        },
        (Stage::PersistPath, Event::Spawned { outcome }) => if spawn_succeeded(outcome) {
            Stage::Done { result: PipelineResult::Completed { path: PathOutcome::Persisted } }
        } else {
            Stage::Done {
                result: PipelineResult::Completed { path: PathOutcome::PersistFailed },
            }
        },
        (Stage::Done { result }, _) => Stage::Done { result: *result },
        (other, _) => *other,
    }
}

/// The outside action each stage asks the driver for.
pub fn pipeline_action(s: &Stage) -> (r: Action)
    ensures
        r == match *s {
            Stage::ProbeRuntime => Action::ProbeRuntimeLibraries,
            Stage::ProbeRuntimeInstaller => Action::ProbeRuntimeInstallerFile,
            Stage::FetchRuntime => Action::DownloadRuntime,
            Stage::InstallRuntime => Action::RunRuntimeInstaller,
            Stage::ProbeToolchain => Action::ProbeToolchainInstall,
            Stage::ResolveInstaller => Action::FetchReleaseMetadata,
            Stage::FetchInstaller => Action::DownloadInstallerAsset,
            Stage::LaunchInstaller => Action::LaunchToolchainInstaller,
            Stage::AwaitReadiness { .. } => Action::ProbeReadinessArtifact,
            Stage::CleanupInstaller => Action::RemoveInstallerFile,
            Stage::ProbeInterpreter { cmd } => Action::ProbeInterpreterFile { index: cmd },
            Stage::RunShellCommand { cmd } => Action::RunShellCommand { index: cmd },
            Stage::ReadPathValue => Action::ReadCurrentPath,
            Stage::PersistPath => Action::PersistNewPath,
            Stage::Done { .. } => Action::Stop,
        },
{
    match s {
        Stage::ProbeRuntime => Action::ProbeRuntimeLibraries,
        Stage::ProbeRuntimeInstaller => Action::ProbeRuntimeInstallerFile,
        Stage::FetchRuntime => Action::DownloadRuntime,
        Stage::InstallRuntime => Action::RunRuntimeInstaller,
        Stage::ProbeToolchain => Action::ProbeToolchainInstall,
        Stage::ResolveInstaller => Action::FetchReleaseMetadata,
        Stage::FetchInstaller => Action::DownloadInstallerAsset,
        Stage::LaunchInstaller => Action::LaunchToolchainInstaller,
        Stage::AwaitReadiness { .. } => Action::ProbeReadinessArtifact,
        Stage::CleanupInstaller => Action::RemoveInstallerFile,
        Stage::ProbeInterpreter { cmd } => Action::ProbeInterpreterFile { index: *cmd },
        Stage::RunShellCommand { cmd } => Action::RunShellCommand { index: *cmd },
        Stage::ReadPathValue => Action::ReadCurrentPath,
        Stage::PersistPath => Action::PersistNewPath,
        Stage::Done { .. } => Action::Stop,
    }
}

/// The stage after a whole trace of events, applied in order.
pub open spec fn spec_pipeline_run(cleanup: bool, n_cmds: usize, s: Stage, events: Seq<Event>) -> Stage
    decreases events.len(),
{
    if events.len() == 0 {
        s
    } else {
        spec_pipeline_run(
            cleanup,
            n_cmds,
            spec_pipeline_step(cleanup, n_cmds, s, events[0]),
            events.drop_first(),
        )
    }
}

/// An artifact that never appears consumes exactly the remaining polling
/// budget: from `attempt` probes already spent, a trace of all-negative
/// readiness observations of exactly the remaining budget's length ends in
/// the fatal timeout result, and no shorter such trace leaves the waiting
/// stage.
pub proof fn lemma_never_ready_exhausts_exact_budget(
    cleanup: bool,
    n_cmds: usize,
    attempt: u32,
    events: Seq<Event>,
)
    requires
        attempt < crate::waiter::MAX_POLL_ATTEMPTS,
        events.len() == crate::waiter::MAX_POLL_ATTEMPTS - attempt,
        forall|i: int| 0 <= i < events.len() ==> events[i] == (Event::Observed { present: false }),
    ensures
        spec_pipeline_run(cleanup, n_cmds, (Stage::AwaitReadiness { attempt }), events) == (
        Stage::Done { result: PipelineResult::Fatal { error: StepError::ReadinessTimeout } }),
    decreases events.len(),
{
    assert(events[0] == (Event::Observed { present: false }));
    let next = spec_pipeline_step(cleanup, n_cmds, (Stage::AwaitReadiness { attempt }), events[0]);
    assert(spec_pipeline_run(cleanup, n_cmds, (Stage::AwaitReadiness { attempt }), events)
        == spec_pipeline_run(cleanup, n_cmds, next, events.drop_first()));
    if attempt + 1 < crate::waiter::MAX_POLL_ATTEMPTS {
        assert(next == (Stage::AwaitReadiness { attempt: (attempt + 1) as u32 }));
        lemma_never_ready_exhausts_exact_budget(
            cleanup,
            n_cmds,
            (attempt + 1) as u32,
            events.drop_first(),
        );
    } else {
        assert(next == (Stage::Done {
            result: PipelineResult::Fatal { error: StepError::ReadinessTimeout },
        }));
        assert(events.drop_first().len() == 0);
        assert(spec_pipeline_run(cleanup, n_cmds, next, events.drop_first()) == next);
    }
}

/// A trace of all-negative readiness observations shorter than the
/// remaining budget leaves the pipeline still waiting: the waiter stops
/// polling no earlier than its budget allows.
pub proof fn lemma_never_ready_still_waiting(
    cleanup: bool,
    n_cmds: usize,
    attempt: u32,
    events: Seq<Event>,
)
    requires
        attempt < crate::waiter::MAX_POLL_ATTEMPTS,
        events.len() < crate::waiter::MAX_POLL_ATTEMPTS - attempt,
        forall|i: int| 0 <= i < events.len() ==> events[i] == (Event::Observed { present: false }),
    ensures
        spec_pipeline_run(cleanup, n_cmds, (Stage::AwaitReadiness { attempt }), events) == (
        Stage::AwaitReadiness { attempt: (attempt + events.len()) as u32 }),
    decreases events.len(),
{
    if events.len() > 0 {
        assert(events[0] == (Event::Observed { present: false }));
        lemma_never_ready_still_waiting(
            cleanup,
            n_cmds,
            (attempt + 1) as u32,
            events.drop_first(),
        );
    }
}

/// A terminal stage absorbs every event: once the pipeline has aborted or
/// completed, no later event revives it, so any failure ends the remaining
/// pipeline.
pub proof fn lemma_done_is_terminal(cleanup: bool, n_cmds: usize, result: PipelineResult, e: Event)
    ensures
        spec_pipeline_step(cleanup, n_cmds, (Stage::Done { result }), e) == (Stage::Done {
            result,
        }),
{
}

/// Pipeline idempotency over presence: in a run whose two presence probes
/// both come back positive — as they do immediately after a successful run —
/// the machine goes straight from the runtime probe to the toolchain probe
/// to the shell commands. No fetch, install, resolution or readiness stage
/// is visited, so both downloads and both installs are no-ops.
pub proof fn lemma_present_run_skips_fetch_and_install(cleanup: bool, n_cmds: usize)
    ensures
        spec_pipeline_step(cleanup, n_cmds, Stage::ProbeRuntime, Event::Observed { present: true })
            == Stage::ProbeToolchain,
        spec_pipeline_step(
            cleanup,
            n_cmds,
            Stage::ProbeToolchain,
            Event::Observed { present: true },
        ) == (Stage::ProbeInterpreter { cmd: 0 }),
{
}

/// A run with both dependencies present performs only the recipe's shell
/// commands and the PATH update: with a two-command recipe, the stages after
/// the two positive presence probes are exactly the two interpreter-probe /
/// run-command pairs, then the PATH read, and the run completes.
pub proof fn lemma_present_run_reaches_completion(
    cleanup: bool,
    n_cmds: usize,
    first: SpawnOutcome,
    second: SpawnOutcome,
)
    requires
        n_cmds == 2,
        spec_spawn_ok(first),
        spec_spawn_ok(second),
    ensures
        ({
            let yes = Event::Observed { present: true };
            let s1 = spec_pipeline_step(cleanup, n_cmds, Stage::ProbeRuntime, yes);
            let s2 = spec_pipeline_step(cleanup, n_cmds, s1, yes);
            let s3 = spec_pipeline_step(cleanup, n_cmds, s2, yes);
            let s4 = spec_pipeline_step(cleanup, n_cmds, s3, Event::Spawned { outcome: first });
            let s5 = spec_pipeline_step(cleanup, n_cmds, s4, yes);
            let s6 = spec_pipeline_step(cleanup, n_cmds, s5, Event::Spawned { outcome: second });
            let s7 = spec_pipeline_step(cleanup, n_cmds, s6, yes);
            s1 == Stage::ProbeToolchain && s2 == (Stage::ProbeInterpreter { cmd: 0 }) && s3 == (
            Stage::RunShellCommand { cmd: 0 }) && s4 == (Stage::ProbeInterpreter { cmd: 1 }) && s5
                == (Stage::RunShellCommand { cmd: 1 }) && s6 == Stage::ReadPathValue && s7 == (
            Stage::Done {
                result: PipelineResult::Completed { path: PathOutcome::AlreadyPresent },
            })
        }),
{
}

/// A cached runtime installer skips the download: a positive probe for the
/// cached file moves straight to the install stage, never the fetch stage.
pub proof fn lemma_cached_installer_skips_download(cleanup: bool, n_cmds: usize)
    ensures
        spec_pipeline_step(
            cleanup,
            n_cmds,
            Stage::ProbeRuntimeInstaller,
            Event::Observed { present: true },
        ) == Stage::InstallRuntime,
{
}

/// A failed asset resolution downloads nothing: the machine aborts at the
/// resolution step with that step's error, and the installer-download stage
/// is never entered.
pub proof fn lemma_failed_resolution_downloads_nothing(
    cleanup: bool,
    n_cmds: usize,
    err: StepError,
)
    ensures
        spec_pipeline_step(
            cleanup,
            n_cmds,
            Stage::ResolveInstaller,
            Event::Resolved { error: Some(err) },
        ) == (Stage::Done {
            result: PipelineResult::Aborted { step: StepName::ResolveInstaller, error: err },
        }),
{
}

/// A missing command interpreter fails the shell-command step immediately:
/// the machine aborts with a diagnostic naming that command, and the
/// run-command stage — the only stage that spawns the interpreter — is
/// never entered.
pub proof fn lemma_missing_interpreter_aborts(cleanup: bool, n_cmds: usize, i: usize)
    ensures
        spec_pipeline_step(
            cleanup,
            n_cmds,
            Stage::ProbeInterpreter { cmd: i },
            Event::Observed { present: false },
        ) == (Stage::Done {
            result: PipelineResult::Aborted {
                step: StepName::ShellCommand { index: i },
                error: StepError::ProcessLaunch,
            },
        }),
{
}

/// An exhausted readiness budget is fatal: a negative probe on the last
/// attempt the budget allows moves to the fatal terminal result, not to an
/// ordinary abort.
pub proof fn lemma_exhausted_waiter_is_fatal(cleanup: bool, n_cmds: usize, attempt: u32)
    requires
        attempt + 1 >= crate::waiter::MAX_POLL_ATTEMPTS,
    ensures
        spec_pipeline_step(
            cleanup,
            n_cmds,
            Stage::AwaitReadiness { attempt },
            Event::Observed { present: false },
        ) == (Stage::Done {
            result: PipelineResult::Fatal { error: StepError::ReadinessTimeout },
        }),
{
}

/// A run ended in overall success: it completed, whatever the PATH
/// persistence reported.
pub fn run_completed(r: &PipelineResult) -> (b: bool)
    ensures
        b == (*r is Completed),
{
    match r {
        PipelineResult::Completed { .. } => true,
        _ => false,
    }
}

} // verus!
