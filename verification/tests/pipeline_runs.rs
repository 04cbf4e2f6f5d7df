use msys_bootstrap::config::{silent_install_args, standard_recipe, toolchain_install_args};
use msys_bootstrap::errors::StepError;
use msys_bootstrap::pipeline::{
    initial_stage, pipeline_action, pipeline_step, run_completed, Action, Event, PipelineResult,
    Stage, StepName,
};
use msys_bootstrap::pathenv::PathOutcome;
use msys_bootstrap::process::{classify_silent_install, ExitReport, SpawnOutcome};

fn ok_spawn() -> Event {
    Event::Spawned { outcome: SpawnOutcome::Finished(ExitReport { success: true, code: Some(0) }) }
}

fn seen(present: bool) -> Event {
    Event::Observed { present }
}

#[test]
fn present_dependencies_skip_all_fetch_and_install_steps() {
    let recipe = standard_recipe();
    let mut stage = initial_stage();
    let mut visited = vec![stage];
    let events = [
        seen(true),  // runtime libraries found
        seen(true),  // toolchain found
        seen(true),  // interpreter found
        ok_spawn(),  // package database update
        seen(true),  // interpreter found again
        ok_spawn(),  // package set install
        seen(true),  // PATH already contains the target
    ];
    for e in events.iter() {
        stage = pipeline_step(&recipe, &stage, e);
        visited.push(stage);
    }
    assert_eq!(
        visited,
        vec![
            Stage::ProbeRuntime,
            Stage::ProbeToolchain,
            Stage::ProbeInterpreter { cmd: 0 },
            Stage::RunShellCommand { cmd: 0 },
            Stage::ProbeInterpreter { cmd: 1 },
            Stage::RunShellCommand { cmd: 1 },
            Stage::ReadPathValue,
            Stage::Done {
                result: PipelineResult::Completed { path: PathOutcome::AlreadyPresent }
            },
        ]
    );
    match visited.last() {
        Some(Stage::Done { result }) => assert!(run_completed(result)),
        _ => panic!("run should have finished"),
    }
}

#[test]
fn full_install_run_reaches_completion() {
    let recipe = standard_recipe();
    let mut stage = initial_stage();
    let events = [
        seen(false), // runtime absent
        seen(false), // no cached installer
        Event::Fetched { error: None },
        ok_spawn(),  // silent runtime install
        seen(false), // toolchain absent
        Event::Resolved { error: None },
        Event::Fetched { error: None },
        ok_spawn(),  // installer launched
        seen(false), // first readiness probe negative
        seen(true),  // artifact appeared
        Event::Removed { ok: true },
        seen(true),
        ok_spawn(),
        seen(true),
        ok_spawn(),
        seen(false), // PATH does not contain the target yet
        ok_spawn(),  // persistence succeeded
    ];
    for e in events.iter() {
        stage = pipeline_step(&recipe, &stage, e);
    }
    assert_eq!(
        stage,
        Stage::Done { result: PipelineResult::Completed { path: PathOutcome::Persisted } }
    );
}

#[test]
fn cached_runtime_installer_skips_download() {
    let recipe = standard_recipe();
    let s = pipeline_step(&recipe, &Stage::ProbeRuntimeInstaller, &seen(true));
    assert_eq!(s, Stage::InstallRuntime);
}

#[test]
fn failed_resolution_aborts_without_download() {
    let recipe = standard_recipe();
    let s = pipeline_step(
        &recipe,
        &Stage::ResolveInstaller,
        &Event::Resolved { error: Some(StepError::NoMatchingAsset) },
    );
    assert_eq!(
        s,
        Stage::Done {
            result: PipelineResult::Aborted {
                step: StepName::ResolveInstaller,
                error: StepError::NoMatchingAsset,
            }
        }
    );
    assert_eq!(pipeline_action(&s), Action::Stop);
}

#[test]
fn missing_interpreter_aborts_naming_the_command_step() {
    let recipe = standard_recipe();
    let s = pipeline_step(&recipe, &Stage::ProbeInterpreter { cmd: 0 }, &seen(false));
    assert_eq!(
        s,
        Stage::Done {
            result: PipelineResult::Aborted {
                step: StepName::ShellCommand { index: 0 },
                error: StepError::ProcessLaunch,
            }
        }
    );
}

#[test]
fn readiness_budget_exhaustion_is_fatal() {
    let recipe = standard_recipe();
    let mut stage = Stage::AwaitReadiness { attempt: 0 };
    let mut probes = 0u32;
    loop {
        match stage {
            Stage::AwaitReadiness { .. } => {
                probes += 1;
                stage = pipeline_step(&recipe, &stage, &seen(false));
            },
            _ => break,
        }
    }
    assert_eq!(probes, 30);
    assert_eq!(
        stage,
        Stage::Done { result: PipelineResult::Fatal { error: StepError::ReadinessTimeout } }
    );
}

#[test]
fn terminal_stage_absorbs_later_events() {
    let recipe = standard_recipe();
    let done = Stage::Done {
        result: PipelineResult::Aborted {
            step: StepName::FetchInstaller,
            error: StepError::Network,
        },
    };
    assert_eq!(pipeline_step(&recipe, &done, &seen(true)), done);
    assert_eq!(pipeline_step(&recipe, &done, &ok_spawn()), done);
}

#[test]
fn failing_installer_carries_its_exit_code() {
    let outcome = SpawnOutcome::Finished(ExitReport { success: false, code: Some(1602) });
    match classify_silent_install(&outcome) {
        Err(e) => assert_eq!(e, StepError::ProcessExit { code: Some(1602) }),
        Ok(()) => panic!("a failing exit status must classify as an error"),
    }
    assert!(classify_silent_install(&SpawnOutcome::LaunchFailed).is_err());
    let ok = SpawnOutcome::Finished(ExitReport { success: true, code: Some(0) });
    assert!(classify_silent_install(&ok).is_ok());
}

#[test]
fn error_labels_name_the_failure() {
    assert_eq!(StepError::NoMatchingAsset.label(), "no suitable installer found");
    assert_eq!(StepError::ReadinessTimeout.label(), "toolchain never became ready");
    assert!(StepError::ReadinessTimeout.is_fatal());
    assert!(!StepError::Network.is_fatal());
}

#[test]
fn recipe_and_argument_constants() {
    let recipe = standard_recipe();
    assert_eq!(recipe.commands.len(), 2);
    assert_eq!(recipe.commands[0], "pacman -Syu --noconfirm");
    assert!(recipe.commands[1].starts_with("pacman -S --noconfirm mingw-w64-ucrt-x86_64-gtk4"));
    assert!(recipe.cleanup_installer);
    assert_eq!(silent_install_args(), vec!["/quiet", "/norestart"]);
    assert_eq!(
        toolchain_install_args(),
        vec!["in", "--confirm-command", "--accept-messages", "--root", "C:/msys64"]
    );
}
