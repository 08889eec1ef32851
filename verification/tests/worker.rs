use init_system::lifecycle::Pending;
use init_system::service::{Service, ServiceScript, ServiceScripts};
use init_system::service_worker::{
    deadline, Command, Effect, ServiceStatus, ServiceWorker, ServiceWorkerError, StatusReport,
    START_GRACE_MS,
};

fn script(command: &str, arguments: &[&str]) -> ServiceScript {
    ServiceScript::Exec {
        command: command.to_string(),
        arguments: arguments.iter().map(|a| a.to_string()).collect(),
    }
}

fn service(start: Option<ServiceScript>, stop: Option<ServiceScript>) -> Service {
    Service { description: "a service".to_string(), scripts: ServiceScripts { start, stop } }
}

fn sleeper() -> Service {
    service(Some(script("/bin/sleep", &["100"])), None)
}

fn running(service: Service, process: u64) -> ServiceWorker {
    let mut worker = ServiceWorker::new(service, 0);
    assert!(matches!(worker.start(), Ok(Effect::Spawn(_))));
    assert!(matches!(worker.spawned(process, 1), Ok(Effect::Done)));
    assert!(matches!(worker.confirmed(process, 2), Ok(Effect::Noted)));
    assert_eq!(worker.lifecycle().status, ServiceStatus::Running);
    worker
}

#[test]
fn new_worker_is_stopped_and_tracks_nothing() {
    let worker = ServiceWorker::new(sleeper(), 40);
    let state = worker.lifecycle();
    assert_eq!(state.status, ServiceStatus::Stopped);
    assert_eq!(state.since, 40);
    assert_eq!(state.start_process, None);
    assert_eq!(state.stop_process, None);
    assert_eq!(state.pending, Pending::Idle);
    assert_eq!(worker.service().description, "a service");
}

#[test]
fn status_reports_time_in_state() {
    let worker = ServiceWorker::new(sleeper(), 40);
    assert_eq!(
        worker.status(100),
        StatusReport { status: ServiceStatus::Stopped, time_in_state: 60 }
    );
    assert_eq!(worker.status(40).time_in_state, 0);
    assert_eq!(worker.status(10).time_in_state, 0);
}

#[test]
fn start_hands_out_the_start_script() {
    let mut worker = ServiceWorker::new(sleeper(), 0);
    match worker.start() {
        Ok(Effect::Spawn(ServiceScript::Exec { command, arguments })) => {
            assert_eq!(command, "/bin/sleep");
            assert_eq!(arguments, vec!["100".to_string()]);
        }
        other => panic!("unexpected outcome {:?}", other),
    }
    let state = worker.lifecycle();
    assert_eq!(state.status, ServiceStatus::Stopped);
    assert_eq!(state.pending, Pending::SpawnStart);
    assert_eq!(state.start_process, None);
}

#[test]
fn start_without_script_is_refused() {
    let mut worker = ServiceWorker::new(service(None, None), 0);
    match worker.start() {
        Err(ServiceWorkerError::ScriptNotSpecified(which)) => assert_eq!(which, "start"),
        other => panic!("unexpected outcome {:?}", other),
    }
    assert_eq!(worker.lifecycle().pending, Pending::Idle);
    assert_eq!(worker.lifecycle().status, ServiceStatus::Stopped);
}

#[test]
fn second_start_is_busy_before_and_after_the_spawn() {
    let mut worker = ServiceWorker::new(sleeper(), 0);
    assert!(matches!(worker.start(), Ok(Effect::Spawn(_))));
    assert!(matches!(worker.start(), Err(ServiceWorkerError::Busy)));
    assert!(matches!(worker.spawned(7, 5), Ok(Effect::Done)));
    let state = worker.lifecycle();
    assert_eq!(state.status, ServiceStatus::Starting);
    assert_eq!(state.since, 5);
    assert_eq!(state.start_process, Some(7));
    assert_eq!(state.pending, Pending::Idle);
    assert!(matches!(worker.start(), Err(ServiceWorkerError::Busy)));
    assert_eq!(worker.lifecycle().start_process, Some(7));
}

#[test]
fn start_on_running_is_already_running() {
    let mut worker = running(sleeper(), 7);
    assert!(matches!(worker.start(), Err(ServiceWorkerError::AlreadyRunning)));
    assert_eq!(worker.lifecycle().status, ServiceStatus::Running);
}

#[test]
fn start_on_stopping_is_busy() {
    let mut worker = running(sleeper(), 7);
    assert!(matches!(worker.stop(100, false, 10), Ok(Effect::Terminate { .. })));
    assert!(matches!(worker.start(), Err(ServiceWorkerError::Busy)));
}

#[test]
fn failed_spawn_leaves_the_service_stopped() {
    let mut worker = ServiceWorker::new(sleeper(), 3);
    assert!(matches!(worker.start(), Ok(Effect::Spawn(_))));
    match worker.spawn_failed("No such file or directory".to_string()) {
        Err(ServiceWorkerError::ProcessSpawnFailed(cause)) => {
            assert_eq!(cause, "No such file or directory")
        }
        other => panic!("unexpected outcome {:?}", other),
    }
    let state = worker.lifecycle();
    assert_eq!(state.status, ServiceStatus::Stopped);
    assert_eq!(state.since, 3);
    assert_eq!(state.pending, Pending::Idle);
    assert!(matches!(worker.start(), Ok(Effect::Spawn(_))));
}

#[test]
fn spawn_reports_without_an_operation_are_ignored() {
    let mut worker = ServiceWorker::new(sleeper(), 3);
    assert!(matches!(worker.spawned(9, 4), Ok(Effect::Ignored)));
    assert!(matches!(worker.spawn_failed("x".to_string()), Ok(Effect::Ignored)));
    assert!(matches!(worker.confirmed(9, 4), Ok(Effect::Ignored)));
    assert!(matches!(worker.expired(4), Ok(Effect::Ignored)));
    assert_eq!(worker.lifecycle().status, ServiceStatus::Stopped);
    assert_eq!(worker.lifecycle().start_process, None);
}

#[test]
fn confirmation_of_another_process_is_ignored() {
    let mut worker = ServiceWorker::new(sleeper(), 0);
    assert!(matches!(worker.start(), Ok(Effect::Spawn(_))));
    assert!(matches!(worker.spawned(7, 1), Ok(Effect::Done)));
    assert!(matches!(worker.confirmed(8, 2), Ok(Effect::Ignored)));
    assert_eq!(worker.lifecycle().status, ServiceStatus::Starting);
    assert!(matches!(worker.confirmed(7, 3), Ok(Effect::Noted)));
    let state = worker.lifecycle();
    assert_eq!(state.status, ServiceStatus::Running);
    assert_eq!(state.since, 3);
    assert_eq!(state.start_process, Some(7));
    assert!(matches!(worker.confirmed(7, 4), Ok(Effect::Ignored)));
    assert_eq!(worker.lifecycle().since, 3);
}

#[test]
fn start_action_exiting_with_zero_makes_the_service_running() {
    let mut worker = ServiceWorker::new(sleeper(), 0);
    assert!(matches!(worker.start(), Ok(Effect::Spawn(_))));
    assert!(matches!(worker.spawned(7, 1), Ok(Effect::Done)));
    assert!(matches!(worker.exited(7, 0, 9), Ok(Effect::Noted)));
    let state = worker.lifecycle();
    assert_eq!(state.status, ServiceStatus::Running);
    assert_eq!(state.since, 9);
    assert_eq!(state.start_process, None);
}

#[test]
fn start_action_exiting_nonzero_stops_the_service() {
    let mut worker = ServiceWorker::new(sleeper(), 0);
    assert!(matches!(worker.start(), Ok(Effect::Spawn(_))));
    assert!(matches!(worker.spawned(7, 1), Ok(Effect::Done)));
    assert!(matches!(worker.exited(7, 3, 9), Err(ServiceWorkerError::StartFailed(3))));
    let state = worker.lifecycle();
    assert_eq!(state.status, ServiceStatus::Stopped);
    assert_eq!(state.since, 9);
    assert_eq!(state.start_process, None);
    assert_eq!(state.pending, Pending::Idle);
}

#[test]
fn running_service_whose_process_fails_is_stopped() {
    let mut worker = running(sleeper(), 7);
    assert!(matches!(worker.exited(7, -1, 20), Err(ServiceWorkerError::StartFailed(-1))));
    assert_eq!(worker.lifecycle().status, ServiceStatus::Stopped);
    assert_eq!(worker.lifecycle().start_process, None);
}

#[test]
fn running_service_whose_process_ends_well_stays_running() {
    let mut worker = running(sleeper(), 7);
    assert!(matches!(worker.exited(7, 0, 20), Ok(Effect::Noted)));
    assert_eq!(worker.lifecycle().status, ServiceStatus::Running);
    assert_eq!(worker.lifecycle().start_process, None);
    assert_eq!(worker.lifecycle().since, 2);
}

#[test]
fn exit_of_an_unknown_process_is_ignored() {
    let mut worker = running(sleeper(), 7);
    assert!(matches!(worker.exited(8, 1, 20), Ok(Effect::Ignored)));
    assert_eq!(worker.lifecycle().status, ServiceStatus::Running);
    assert_eq!(worker.lifecycle().start_process, Some(7));
}

#[test]
fn exit_is_noted_once() {
    let mut worker = ServiceWorker::new(sleeper(), 0);
    assert!(matches!(worker.start(), Ok(Effect::Spawn(_))));
    assert!(matches!(worker.spawned(7, 1), Ok(Effect::Done)));
    assert!(matches!(worker.exited(7, 0, 9), Ok(Effect::Noted)));
    assert!(matches!(worker.exited(7, 0, 12), Ok(Effect::Ignored)));
    assert!(matches!(worker.exited(7, 5, 12), Ok(Effect::Ignored)));
    assert_eq!(worker.lifecycle().status, ServiceStatus::Running);
    assert_eq!(worker.lifecycle().since, 9);
}

#[test]
fn stop_on_stopped_is_not_running() {
    let mut worker = ServiceWorker::new(
        service(Some(script("/bin/true", &[])), Some(script("/bin/false", &[]))),
        0,
    );
    assert!(matches!(worker.stop(200, false, 5), Err(ServiceWorkerError::NotRunning)));
    assert!(matches!(worker.stop(200, true, 5), Err(ServiceWorkerError::NotRunning)));
    let state = worker.lifecycle();
    assert_eq!(state.status, ServiceStatus::Stopped);
    assert_eq!(state.since, 0);
    assert_eq!(state.pending, Pending::Idle);
    assert_eq!(state.stop_process, None);
}

#[test]
fn stop_on_starting_is_busy() {
    let mut worker = ServiceWorker::new(sleeper(), 0);
    assert!(matches!(worker.start(), Ok(Effect::Spawn(_))));
    assert!(matches!(worker.stop(200, true, 1), Err(ServiceWorkerError::NotRunning)));
    assert!(matches!(worker.spawned(7, 1), Ok(Effect::Done)));
    assert!(matches!(worker.stop(200, true, 2), Err(ServiceWorkerError::Busy)));
    assert_eq!(worker.lifecycle().status, ServiceStatus::Starting);
}

#[test]
fn stop_without_script_signals_the_start_process() {
    let mut worker = running(sleeper(), 7);
    match worker.stop(200, false, 1000) {
        Ok(Effect::Terminate { process, deadline }) => {
            assert_eq!(process, 7);
            assert_eq!(deadline, 1200);
        }
        other => panic!("unexpected outcome {:?}", other),
    }
    let state = worker.lifecycle();
    assert_eq!(state.status, ServiceStatus::Stopping);
    assert_eq!(state.since, 1000);
    assert_eq!(state.pending, Pending::Wait { deadline: 1200, force: false });
    assert_eq!(state.start_process, Some(7));
}

#[test]
fn stop_completes_when_the_process_exits_before_the_deadline() {
    let mut worker = running(sleeper(), 7);
    assert!(matches!(worker.stop(200, false, 1000), Ok(Effect::Terminate { .. })));
    assert!(matches!(worker.expired(1100), Ok(Effect::Wait { deadline: 1200 })));
    assert!(matches!(worker.exited(7, 143, 1150), Ok(Effect::Done)));
    let state = worker.lifecycle();
    assert_eq!(state.status, ServiceStatus::Stopped);
    assert_eq!(state.since, 1150);
    assert_eq!(state.start_process, None);
    assert_eq!(state.stop_process, None);
    assert_eq!(state.pending, Pending::Idle);
    assert!(matches!(worker.expired(1300), Ok(Effect::Ignored)));
}

#[test]
fn stop_of_a_service_without_process_or_script_is_done_at_once() {
    let mut worker = ServiceWorker::new(sleeper(), 0);
    assert!(matches!(worker.start(), Ok(Effect::Spawn(_))));
    assert!(matches!(worker.spawned(7, 1), Ok(Effect::Done)));
    assert!(matches!(worker.exited(7, 0, 2), Ok(Effect::Noted)));
    assert!(matches!(worker.stop(200, false, 10), Ok(Effect::Done)));
    let state = worker.lifecycle();
    assert_eq!(state.status, ServiceStatus::Stopped);
    assert_eq!(state.since, 10);
    assert_eq!(state.pending, Pending::Idle);
}

#[test]
fn stop_with_script_waits_for_both_processes() {
    let mut worker = running(
        service(Some(script("/usr/bin/web", &["--serve"])), Some(script("/usr/bin/webctl", &["stop"]))),
        7,
    );
    match worker.stop(500, false, 100) {
        Ok(Effect::Spawn(ServiceScript::Exec { command, arguments })) => {
            assert_eq!(command, "/usr/bin/webctl");
            assert_eq!(arguments, vec!["stop".to_string()]);
        }
        other => panic!("unexpected outcome {:?}", other),
    }
    assert_eq!(worker.lifecycle().status, ServiceStatus::Running);
    assert_eq!(worker.lifecycle().pending, Pending::SpawnStop { deadline: 600, force: false });
    assert!(matches!(worker.stop(500, false, 101), Err(ServiceWorkerError::Busy)));
    assert!(matches!(worker.spawned(8, 110), Ok(Effect::Wait { deadline: 600 })));
    let state = worker.lifecycle();
    assert_eq!(state.status, ServiceStatus::Stopping);
    assert_eq!(state.since, 110);
    assert_eq!(state.start_process, Some(7));
    assert_eq!(state.stop_process, Some(8));
    assert!(matches!(worker.stop(500, true, 120), Err(ServiceWorkerError::Busy)));
    assert!(matches!(worker.exited(8, 0, 130), Ok(Effect::Noted)));
    assert_eq!(worker.lifecycle().status, ServiceStatus::Stopping);
    assert_eq!(worker.lifecycle().stop_process, None);
    assert!(matches!(worker.exited(7, 0, 140), Ok(Effect::Done)));
    let state = worker.lifecycle();
    assert_eq!(state.status, ServiceStatus::Stopped);
    assert_eq!(state.since, 140);
    assert_eq!(state.start_process, None);
    assert_eq!(state.pending, Pending::Idle);
}

#[test]
fn failed_spawn_of_the_stop_script_leaves_the_service_running() {
    let mut worker = running(
        service(Some(script("/usr/bin/web", &[])), Some(script("/usr/bin/webctl", &["stop"]))),
        7,
    );
    assert!(matches!(worker.stop(500, false, 100), Ok(Effect::Spawn(_))));
    assert!(matches!(
        worker.spawn_failed("Permission denied".to_string()),
        Err(ServiceWorkerError::ProcessSpawnFailed(_))
    ));
    let state = worker.lifecycle();
    assert_eq!(state.status, ServiceStatus::Running);
    assert_eq!(state.since, 2);
    assert_eq!(state.start_process, Some(7));
    assert_eq!(state.stop_process, None);
    assert_eq!(state.pending, Pending::Idle);
}

#[test]
fn unforced_stop_times_out_busy_and_stays_stopping() {
    let mut worker = running(sleeper(), 7);
    assert!(matches!(worker.stop(200, false, 1000), Ok(Effect::Terminate { .. })));
    assert!(matches!(worker.expired(1199), Ok(Effect::Wait { deadline: 1200 })));
    assert!(matches!(worker.expired(1200), Err(ServiceWorkerError::Busy)));
    let state = worker.lifecycle();
    assert_eq!(state.status, ServiceStatus::Stopping);
    assert_eq!(state.since, 1000);
    assert_eq!(state.start_process, Some(7));
    assert_eq!(state.pending, Pending::Idle);
}

#[test]
fn forced_stop_kills_at_the_deadline_and_stops_on_the_exit() {
    let mut worker = running(sleeper(), 7);
    assert!(matches!(worker.stop(200, true, 1000), Ok(Effect::Terminate { .. })));
    match worker.expired(1250) {
        Ok(Effect::Kill { start, stop }) => {
            assert_eq!(start, Some(7));
            assert_eq!(stop, None);
        }
        other => panic!("unexpected outcome {:?}", other),
    }
    let state = worker.lifecycle();
    assert_eq!(state.status, ServiceStatus::Stopping);
    assert_eq!(state.start_process, Some(7));
    assert_eq!(state.pending, Pending::Kill);
    assert!(matches!(worker.expired(1300), Ok(Effect::Ignored)));
    assert!(matches!(worker.stop(200, true, 1300), Err(ServiceWorkerError::Busy)));
    assert!(matches!(worker.exited(7, 137, 1310), Ok(Effect::Done)));
    let state = worker.lifecycle();
    assert_eq!(state.status, ServiceStatus::Stopped);
    assert_eq!(state.start_process, None);
    assert_eq!(state.pending, Pending::Idle);
}

#[test]
fn scenario_web_sleep_stop_unforced_then_forced() {
    let web = Service {
        description: "web".to_string(),
        scripts: ServiceScripts { start: Some(script("/bin/sleep", &["100"])), stop: None },
    };
    let mut worker = ServiceWorker::new(web, 0);
    assert!(matches!(worker.start(), Ok(Effect::Spawn(_))));
    assert!(matches!(worker.spawned(4242, 10), Ok(Effect::Done)));
    assert_eq!(worker.status(10).status, ServiceStatus::Starting);
    assert!(matches!(worker.confirmed(4242, 20), Ok(Effect::Noted)));
    assert_eq!(worker.status(20).status, ServiceStatus::Running);

    assert!(matches!(
        worker.stop(200, false, 1000),
        Ok(Effect::Terminate { process: 4242, deadline: 1200 })
    ));
    assert!(matches!(worker.expired(1200), Err(ServiceWorkerError::Busy)));
    assert_eq!(worker.status(1200).status, ServiceStatus::Stopping);
    assert_eq!(worker.lifecycle().start_process, Some(4242));

    assert!(matches!(worker.stop(200, true, 1300), Ok(Effect::Wait { deadline: 1500 })));
    assert!(matches!(
        worker.expired(1500),
        Ok(Effect::Kill { start: Some(4242), stop: None })
    ));
    assert_eq!(worker.status(1500).status, ServiceStatus::Stopping);
    assert!(matches!(worker.exited(4242, 137, 1501), Ok(Effect::Done)));
    assert_eq!(
        worker.status(1501),
        StatusReport { status: ServiceStatus::Stopped, time_in_state: 0 }
    );
    assert_eq!(worker.lifecycle().start_process, None);
}

#[test]
fn wait_failure_forces_the_service_stopped() {
    let mut worker = running(sleeper(), 7);
    assert!(matches!(worker.stop(200, false, 1000), Ok(Effect::Terminate { .. })));
    assert!(matches!(worker.wait_failed(9, 1001), Ok(Effect::Ignored)));
    assert_eq!(worker.lifecycle().status, ServiceStatus::Stopping);
    assert!(matches!(worker.wait_failed(7, 1002), Err(ServiceWorkerError::ProcessWaitFailed)));
    let state = worker.lifecycle();
    assert_eq!(state.status, ServiceStatus::Stopped);
    assert_eq!(state.since, 1002);
    assert_eq!(state.start_process, None);
    assert_eq!(state.pending, Pending::Idle);
}

#[test]
fn kill_failure_forces_the_service_stopped() {
    let mut worker = running(sleeper(), 7);
    assert!(matches!(worker.stop(0, true, 1000), Ok(Effect::Terminate { .. })));
    assert!(matches!(worker.expired(1000), Ok(Effect::Kill { .. })));
    assert!(matches!(worker.kill_failed(7, 1003), Err(ServiceWorkerError::KillFailed)));
    let state = worker.lifecycle();
    assert_eq!(state.status, ServiceStatus::Stopped);
    assert_eq!(state.since, 1003);
    assert_eq!(state.start_process, None);
    assert_eq!(state.pending, Pending::Idle);
    assert!(matches!(worker.kill_failed(7, 1004), Ok(Effect::Ignored)));
}

#[test]
fn deadline_is_capped() {
    assert_eq!(deadline(1000, 200), 1200);
    assert_eq!(deadline(0, 0), 0);
    assert_eq!(deadline(u64::MAX - 1, 1), u64::MAX);
    assert_eq!(deadline(u64::MAX - 1, 5), u64::MAX);
    assert_eq!(deadline(u64::MAX, u64::MAX), u64::MAX);
}

#[test]
fn apply_takes_each_command_to_its_transition() {
    let mut worker = ServiceWorker::new(
        service(Some(script("/usr/bin/web", &[])), Some(script("/usr/bin/webctl", &["stop"]))),
        0,
    );
    assert!(matches!(worker.apply(Command::Start, 1), Ok(Effect::Spawn(_))));
    assert!(matches!(worker.apply(Command::Spawned { process: 5 }, 2), Ok(Effect::Done)));
    assert!(matches!(worker.apply(Command::Confirmed { process: 5 }, 3), Ok(Effect::Noted)));
    assert!(matches!(
        worker.apply(Command::Stop { timeout: 10, force: true }, 4),
        Ok(Effect::Spawn(_))
    ));
    assert!(matches!(
        worker.apply(Command::SpawnFailed { cause: "no".to_string() }, 5),
        Err(ServiceWorkerError::ProcessSpawnFailed(_))
    ));
    assert!(matches!(
        worker.apply(Command::Stop { timeout: 10, force: true }, 6),
        Ok(Effect::Spawn(_))
    ));
    assert!(matches!(
        worker.apply(Command::Spawned { process: 6 }, 7),
        Ok(Effect::Wait { deadline: 16 })
    ));
    assert!(matches!(
        worker.apply(Command::Expired, 16),
        Ok(Effect::Kill { start: Some(5), stop: Some(6) })
    ));
    assert!(matches!(
        worker.apply(Command::Exited { process: 5, code: 137 }, 17),
        Ok(Effect::Noted)
    ));
    assert!(matches!(
        worker.apply(Command::KillFailed { process: 6 }, 18),
        Err(ServiceWorkerError::KillFailed)
    ));
    assert_eq!(worker.lifecycle().status, ServiceStatus::Stopped);
    assert!(matches!(worker.apply(Command::WaitFailed { process: 6 }, 19), Ok(Effect::Ignored)));
}

#[test]
fn error_messages() {
    assert_eq!(ServiceWorkerError::AlreadyRunning.message(), "Service is already running");
    assert_eq!(ServiceWorkerError::NotRunning.message(), "Service is not running");
    assert_eq!(ServiceWorkerError::Busy.message(), "Service is busy");
    assert_eq!(
        ServiceWorkerError::ScriptNotSpecified("start".to_string()).message(),
        "Script start not specified"
    );
    assert_eq!(
        ServiceWorkerError::ProcessSpawnFailed("not found".to_string()).message(),
        "IO error not found"
    );
    assert_eq!(
        ServiceWorkerError::ProcessWaitFailed.message(),
        "Waiting for the process failed"
    );
    assert_eq!(ServiceWorkerError::KillFailed.message(), "Killing the process failed");
    assert_eq!(ServiceWorkerError::StartFailed(2).message(), "Start script failed");
    assert_eq!(
        ServiceWorkerError::UnknownService("db".to_string()).message(),
        "Service db not found"
    );
}

#[test]
fn cloned_service_is_the_same_definition() {
    let definition = service(Some(script("/bin/sleep", &["1", "2"])), Some(script("/bin/kill", &[])));
    let copy = definition.clone();
    assert_eq!(format!("{:?}", copy), format!("{:?}", definition));
    assert_eq!(START_GRACE_MS, 500);
}
