use msys_bootstrap::config::toolchain_bin_dir;
use msys_bootstrap::pathenv::{classify_persist, plan_path_update, PathOutcome, PathPlan};
use msys_bootstrap::presence::{
    join_path, runtime_dll_names, runtime_present, system_library_dir, toolchain_present,
};
use msys_bootstrap::process::{ExitReport, SpawnOutcome};

#[test]
fn absent_paths_give_false_not_an_error() {
    assert!(!runtime_present(&vec![false, false, false]));
    assert!(!runtime_present(&Vec::new()));
    assert!(!toolchain_present(false, false));
    assert!(!toolchain_present(true, false));
    assert!(!toolchain_present(false, true));
}

#[test]
fn present_paths_are_detected() {
    assert!(runtime_present(&vec![false, true, false]));
    assert!(toolchain_present(true, true));
}

#[test]
fn system_directory_resolution_and_fallback() {
    assert_eq!(system_library_dir(Some("D:\\Win")), "D:\\Win\\System32");
    assert_eq!(system_library_dir(None), "C:\\Windows\\System32");
}

#[test]
fn runtime_library_candidates() {
    let names = runtime_dll_names();
    assert_eq!(names, vec!["vcruntime140.dll", "msvcp140.dll", "vcruntime140_1.dll"]);
    let dir = system_library_dir(None);
    assert_eq!(join_path(&dir, names[0]), "C:\\Windows\\System32\\vcruntime140.dll");
}

#[test]
fn path_update_appends_once() {
    let target = toolchain_bin_dir();
    let current = "C:\\Windows;C:\\Windows\\System32";
    let first = plan_path_update(current, target);
    let appended = match first {
        PathPlan::Updated(n) => n,
        PathPlan::AlreadyPresent => panic!("target not present yet"),
    };
    assert_eq!(appended, "C:\\Windows;C:\\Windows\\System32;C:\\msys64\\ucrt64\\bin");
    let second = plan_path_update(&appended, target);
    assert_eq!(second, PathPlan::AlreadyPresent);
}

#[test]
fn path_update_on_empty_current_value() {
    match plan_path_update("", "C:\\msys64\\ucrt64\\bin") {
        PathPlan::Updated(n) => assert_eq!(n, ";C:\\msys64\\ucrt64\\bin"),
        PathPlan::AlreadyPresent => panic!("target not present yet"),
    }
}

#[test]
fn path_containment_is_deliberately_loose() {
    // Known limitation: a target that is a substring of an unrelated entry
    // counts as present and the update is skipped.
    let plan = plan_path_update("C:\\toolchain\\bin", "C:\\tool");
    assert_eq!(plan, PathPlan::AlreadyPresent);
}

#[test]
fn persistence_outcome_is_reported_distinctly() {
    let ok = SpawnOutcome::Finished(ExitReport { success: true, code: Some(0) });
    let bad = SpawnOutcome::Finished(ExitReport { success: false, code: Some(1) });
    assert_eq!(classify_persist(&ok), PathOutcome::Persisted);
    assert_eq!(classify_persist(&bad), PathOutcome::PersistFailed);
    assert_eq!(classify_persist(&SpawnOutcome::LaunchFailed), PathOutcome::PersistFailed);
}
