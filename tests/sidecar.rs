use nautilus::launcher::{plan_launch, spawn_request};
use nautilus::locator::{candidate_paths, locate, SidecarError, SidecarPath};
use nautilus::platform::{Platform, CREATE_NO_WINDOW};
use nautilus::store::{LifecycleStore, Termination};
use nautilus::supervisor::{Action, Event, Phase, Supervisor, GRACE_DELAY_MS};

fn parts(p: &SidecarPath) -> Vec<&str> {
    p.parts.iter().map(|s| s.as_str()).collect()
}

fn three_candidates(name: &str) -> Vec<SidecarPath> {
    candidate_paths(
        &name.to_string(),
        Some("/opt/app/resources".to_string()),
        Some("/home/dev/project".to_string()),
    )
}

#[test]
fn candidates_are_tried_in_documented_order() {
    let c = three_candidates("app-backend");
    assert_eq!(c.len(), 3);
    assert_eq!(c[0].base, "/opt/app/resources");
    assert_eq!(parts(&c[0]), vec!["binaries", "app-backend"]);
    assert_eq!(c[1].base, "/home/dev/project");
    assert_eq!(parts(&c[1]), vec!["binaries", "app-backend"]);
    assert_eq!(c[2].base, "/home/dev/project");
    assert_eq!(parts(&c[2]), vec!["src-tauri", "binaries", "app-backend"]);
}

#[test]
fn unknown_base_directories_give_no_candidates() {
    let name = "app-backend".to_string();
    let c = candidate_paths(&name, None, Some("/w".to_string()));
    assert_eq!(c.len(), 2);
    assert_eq!(c[0].base, "/w");
    let c = candidate_paths(&name, Some("/r".to_string()), None);
    assert_eq!(c.len(), 1);
    assert_eq!(c[0].base, "/r");
    assert!(candidate_paths(&name, None, None).is_empty());
}

#[test]
fn locator_finds_only_existing_candidate_in_subdir() {
    let c = three_candidates("app-backend");
    let r = locate("app-backend".to_string(), c, &vec![false, false, true]);
    let p = r.unwrap();
    assert_eq!(p.base, "/home/dev/project");
    assert_eq!(parts(&p), vec!["src-tauri", "binaries", "app-backend"]);
}

#[test]
fn locator_finds_single_existing_candidate_at_any_position() {
    for k in 0..3 {
        let expected = three_candidates("app-backend");
        let mut present = vec![false, false, false];
        present[k] = true;
        let p = locate("app-backend".to_string(), three_candidates("app-backend"), &present).unwrap();
        assert_eq!(p.base, expected[k].base);
        assert_eq!(p.parts, expected[k].parts);
    }
}

#[test]
fn locator_first_existing_candidate_wins() {
    let p = locate("app-backend".to_string(), three_candidates("app-backend"), &vec![false, true, true]).unwrap();
    assert_eq!(parts(&p), vec!["binaries", "app-backend"]);
    assert_eq!(p.base, "/home/dev/project");
    let p = locate("app-backend".to_string(), three_candidates("app-backend"), &vec![true, true, true]).unwrap();
    assert_eq!(p.base, "/opt/app/resources");
}

#[test]
fn locator_fails_with_not_found_when_nothing_exists() {
    let r = locate("app-backend".to_string(), three_candidates("app-backend"), &vec![false, false, false]);
    match r {
        Err(SidecarError::NotFound(name)) => assert_eq!(name, "app-backend"),
        other => panic!("unexpected {:?}", other.map(|p| p.base)),
    }
    let r = locate("app-backend".to_string(), Vec::new(), &Vec::new());
    assert!(matches!(r, Err(SidecarError::NotFound(_))));
}

#[test]
fn platform_names_and_flags() {
    assert_eq!(Platform::Windows.sidecar_name(), "nautilus-backend-x86_64-pc-windows-msvc.exe");
    assert_eq!(Platform::Linux.sidecar_name(), "nautilus-backend-x86_64-unknown-linux-gnu");
    assert_eq!(Platform::MacOs.sidecar_name(), "nautilus-backend-x86_64-apple-darwin");
    assert_eq!(Platform::Windows.creation_flags(), 0x0800_0000);
    assert_eq!(CREATE_NO_WINDOW, 0x0800_0000);
    assert_eq!(Platform::Linux.creation_flags(), 0);
    assert_eq!(Platform::MacOs.creation_flags(), 0);
}

#[test]
fn spawn_request_pipes_output_and_hides_console_on_windows() {
    let p = three_candidates("x").remove(0);
    let r = spawn_request(p, Platform::Windows);
    assert_eq!(r.creation_flags, CREATE_NO_WINDOW);
    assert!(r.capture_stdout && r.capture_stderr);
    assert_eq!(r.program.base, "/opt/app/resources");
    let p = three_candidates("x").remove(0);
    assert_eq!(spawn_request(p, Platform::Linux).creation_flags, 0);
}

#[test]
fn plan_launch_locates_platform_executable() {
    let name = Platform::Linux.sidecar_name();
    let c = candidate_paths(&name, Some("/r".to_string()), Some("/w".to_string()));
    let req = plan_launch(Platform::Linux, c, &vec![false, true, false]).unwrap();
    assert_eq!(req.program.base, "/w");
    assert_eq!(parts(&req.program), vec!["binaries", "nautilus-backend-x86_64-unknown-linux-gnu"]);
    assert_eq!(req.creation_flags, 0);
    assert!(req.capture_stdout && req.capture_stderr);
}

#[test]
fn plan_launch_reports_missing_executable_by_name() {
    let c = three_candidates("whatever");
    match plan_launch(Platform::MacOs, c, &vec![false, false, false]) {
        Err(SidecarError::NotFound(name)) => assert_eq!(name, "nautilus-backend-x86_64-apple-darwin"),
        _ => panic!("expected NotFound"),
    }
}

#[test]
fn store_tracks_after_register_and_empties_after_terminate() {
    let mut store: LifecycleStore<u32> = LifecycleStore::new();
    assert!(!store.is_tracking());
    store.register(4242);
    assert!(store.is_tracking());
    assert_eq!(store.current(), Some(&4242));
    let mut killed: Vec<u32> = Vec::new();
    let r = store.take_and_terminate(|pid| {
        killed.push(pid);
        true
    });
    assert_eq!(r, Termination::Signalled);
    assert!(!store.is_tracking());
    assert_eq!(store.current(), None);
    let r = store.take_and_terminate(|pid| {
        killed.push(pid);
        true
    });
    assert_eq!(r, Termination::NothingTracked);
    assert_eq!(killed, vec![4242]);
}

#[test]
fn rejected_terminate_signal_still_empties_store() {
    let mut store: LifecycleStore<u32> = LifecycleStore::new();
    store.register(9);
    let r = store.take_and_terminate(|_| false);
    assert_eq!(r, Termination::Failed);
    assert!(!store.is_tracking());
}

#[test]
fn happy_path_shows_window_after_grace_then_terminates_on_close() {
    let mut sup = Supervisor::new();
    let mut store: LifecycleStore<u32> = LifecycleStore::new();
    assert_eq!(sup.step(Event::HostStarted), Action::SpawnLauncher);
    assert_eq!(sup.phase, Phase::Launching);
    assert_eq!(sup.step(Event::LaunchSucceeded), Action::RegisterAndWait { delay_ms: 1500 });
    assert_eq!(GRACE_DELAY_MS, 1500);
    store.register(777);
    assert_eq!(sup.phase, Phase::Running);
    assert!(!sup.window_shown);
    assert_eq!(sup.step(Event::GraceElapsed), Action::ShowWindow);
    assert!(sup.window_shown);
    assert_eq!(sup.step(Event::GraceElapsed), Action::Nothing);
    assert_eq!(sup.step(Event::CloseRequested), Action::TerminateTracked);
    assert_eq!(sup.phase, Phase::Stopped);
    let mut signalled: Vec<u32> = Vec::new();
    let r = store.take_and_terminate(|pid| {
        signalled.push(pid);
        true
    });
    assert_eq!(r, Termination::Signalled);
    assert_eq!(signalled, vec![777]);
    assert!(!store.is_tracking());
}

#[test]
fn failed_launch_shows_window_and_close_signals_nothing() {
    let mut sup = Supervisor::new();
    let mut store: LifecycleStore<u32> = LifecycleStore::new();
    sup.step(Event::HostStarted);
    let outcome: Result<u32, SidecarError> = Err(SidecarError::SpawnFailed("denied".to_string()));
    let e = Event::from_launch(&outcome);
    assert_eq!(e, Event::LaunchFailed);
    assert_eq!(sup.step(e), Action::ShowWindow);
    assert_eq!(sup.phase, Phase::LaunchFailed);
    assert!(!store.is_tracking());
    assert_eq!(sup.step(Event::GraceElapsed), Action::Nothing);
    assert_eq!(sup.step(Event::CloseRequested), Action::TerminateTracked);
    let mut calls = 0u32;
    let r = store.take_and_terminate(|_| {
        calls += 1;
        true
    });
    assert_eq!(r, Termination::NothingTracked);
    assert_eq!(calls, 0);
}

#[test]
fn launch_outcome_becomes_event() {
    let ok: Result<u32, SidecarError> = Ok(1);
    assert_eq!(Event::from_launch(&ok), Event::LaunchSucceeded);
    let nf: Result<u32, SidecarError> = Err(SidecarError::NotFound("x".to_string()));
    assert_eq!(Event::from_launch(&nf), Event::LaunchFailed);
}

#[test]
fn close_stops_from_every_phase() {
    let prefixes: Vec<Vec<Event>> = vec![
        vec![],
        vec![Event::HostStarted],
        vec![Event::HostStarted, Event::LaunchSucceeded],
        vec![Event::HostStarted, Event::LaunchFailed],
    ];
    for prefix in prefixes {
        let mut sup = Supervisor::new();
        for e in prefix {
            sup.step(e);
        }
        assert_eq!(sup.step(Event::CloseRequested), Action::TerminateTracked);
        assert_eq!(sup.phase, Phase::Stopped);
        assert_eq!(sup.step(Event::GraceElapsed), Action::Nothing);
        assert_eq!(sup.step(Event::HostStarted), Action::Nothing);
        assert_eq!(sup.phase, Phase::Stopped);
    }
}

#[test]
fn launch_completing_after_close_is_registered_but_never_shown() {
    let mut sup = Supervisor::new();
    sup.step(Event::HostStarted);
    sup.step(Event::CloseRequested);
    assert_eq!(sup.step(Event::LaunchSucceeded), Action::RegisterAndWait { delay_ms: 1500 });
    assert_eq!(sup.step(Event::GraceElapsed), Action::Nothing);
    assert!(!sup.window_shown);
    assert_eq!(sup.phase, Phase::Stopped);
}

#[test]
fn window_shown_once_over_repeated_events() {
    let mut sup = Supervisor::new();
    let events = [
        Event::HostStarted,
        Event::HostStarted,
        Event::LaunchSucceeded,
        Event::LaunchFailed,
        Event::GraceElapsed,
        Event::GraceElapsed,
        Event::LaunchSucceeded,
        Event::GraceElapsed,
    ];
    let shows = events.iter().filter(|e| sup.step(**e) == Action::ShowWindow).count();
    assert_eq!(shows, 1);
}
