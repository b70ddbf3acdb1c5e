use dawn_host::supervisor::{ProcessHandle, StartDecision, SupervisorState, DEFAULT_PORT};
use dawn_host::{checksum_filename, sidecar_filename};

#[test]
fn fresh_state_is_idle() {
    let s = SupervisorState::new();
    assert!(!s.status());
    assert_eq!(s.port, DEFAULT_PORT);
    assert!(!s.health_task_running);
    assert!(!s.resource_task_running);
}

#[test]
fn second_start_observes_already_running() {
    let mut s = SupervisorState::new();
    assert_eq!(s.start_decision(), StartDecision::Proceed);
    s.register_process(ProcessHandle { pid: 4242 });
    // The second attempt must not spawn: it sees the registered handle.
    assert_eq!(s.start_decision(), StartDecision::AlreadyRunning);
    assert!(s.status());
    assert_eq!(s.process, Some(ProcessHandle { pid: 4242 }));
}

#[test]
fn stop_when_not_running_reports_not_running() {
    let mut s = SupervisorState::new();
    assert_eq!(s.take_process(), None);
    // Calling it again is just as safe.
    assert_eq!(s.take_process(), None);
    assert!(!s.status());
}

#[test]
fn stop_surrenders_the_handle_exactly_once() {
    let mut s = SupervisorState::new();
    s.register_process(ProcessHandle { pid: 7 });
    assert_eq!(s.take_process(), Some(ProcessHandle { pid: 7 }));
    assert!(!s.status());
    assert_eq!(s.take_process(), None);
}

#[test]
fn health_monitor_guard_wins_only_once() {
    let mut s = SupervisorState::new();
    assert!(s.try_begin_health_task());
    assert!(!s.try_begin_health_task());
    assert!(!s.try_begin_health_task());
    assert!(s.health_task_running);
}

#[test]
fn resource_monitor_guard_wins_only_once() {
    let mut s = SupervisorState::new();
    assert!(s.try_begin_resource_task());
    assert!(!s.try_begin_resource_task());
    assert!(s.resource_task_running);
}

#[test]
fn monitor_guards_are_independent() {
    let mut s = SupervisorState::new();
    assert!(s.try_begin_health_task());
    // The other loop's guard is untouched.
    assert!(s.try_begin_resource_task());
    assert!(!s.process.is_some());
}

#[test]
fn sidecar_filenames_per_platform() {
    assert_eq!(sidecar_filename(true), "project-dawn-server.exe");
    assert_eq!(sidecar_filename(false), "project-dawn-server");
}

#[test]
fn checksum_filename_appends_suffix() {
    assert_eq!(
        checksum_filename("project-dawn-server"),
        "project-dawn-server.sha256"
    );
    assert_eq!(
        checksum_filename("project-dawn-server.exe"),
        "project-dawn-server.exe.sha256"
    );
}
