use init_system::control::{
    advance, command_of, handle, kind_of_error, receive, reply, respond_error, respond_malformed,
    respond_status, Reply, DEFAULT_STOP_TIMEOUT_MS,
};
use init_system::protocol::{ErrorKind, Operation, ProtocolError, Request, Response};
use init_system::registry::Registry;
use init_system::service::{Service, ServiceScript, ServiceScripts};
use init_system::service_worker::{
    Command, Effect, ServiceStatus, ServiceWorkerError, StatusReport,
};

fn registry() -> Registry {
    let mut registry = Registry::new();
    registry.register(
        "web".to_string(),
        Service {
            description: "web server".to_string(),
            scripts: ServiceScripts {
                start: Some(ServiceScript::Exec {
                    command: "/bin/sleep".to_string(),
                    arguments: vec!["100".to_string()],
                }),
                stop: None,
            },
        },
        0,
    );
    registry.register(
        "db".to_string(),
        Service { description: "database".to_string(), scripts: ServiceScripts { start: None, stop: None } },
        0,
    );
    registry
}

fn request(service: &str, op: Operation) -> Request {
    Request { service: service.to_string(), op, stop_timeout_ms: None, force: None }
}

#[test]
fn default_stop_timeout() {
    assert_eq!(DEFAULT_STOP_TIMEOUT_MS, 10000);
}

#[test]
fn requests_stand_for_commands() {
    assert!(matches!(command_of(&request("web", Operation::Start)), Some(Command::Start)));
    assert!(matches!(
        command_of(&request("web", Operation::Stop)),
        Some(Command::Stop { timeout: 10000, force: false })
    ));
    let stop = Request {
        service: "web".to_string(),
        op: Operation::Stop,
        stop_timeout_ms: Some(200),
        force: Some(true),
    };
    assert!(matches!(command_of(&stop), Some(Command::Stop { timeout: 200, force: true })));
    assert!(command_of(&request("web", Operation::Status)).is_none());
    assert!(command_of(&request("web", Operation::List)).is_none());
}

#[test]
fn error_kinds() {
    assert_eq!(kind_of_error(&ServiceWorkerError::AlreadyRunning), ErrorKind::AlreadyRunning);
    assert_eq!(kind_of_error(&ServiceWorkerError::NotRunning), ErrorKind::NotRunning);
    assert_eq!(kind_of_error(&ServiceWorkerError::Busy), ErrorKind::Busy);
    assert_eq!(
        kind_of_error(&ServiceWorkerError::ScriptNotSpecified("stop".to_string())),
        ErrorKind::ScriptNotSpecified
    );
    assert_eq!(
        kind_of_error(&ServiceWorkerError::ProcessSpawnFailed("x".to_string())),
        ErrorKind::ProcessSpawnFailed
    );
    assert_eq!(kind_of_error(&ServiceWorkerError::ProcessWaitFailed), ErrorKind::ProcessWaitFailed);
    assert_eq!(kind_of_error(&ServiceWorkerError::KillFailed), ErrorKind::KillFailed);
    assert_eq!(kind_of_error(&ServiceWorkerError::StartFailed(1)), ErrorKind::StartFailed);
    assert_eq!(
        kind_of_error(&ServiceWorkerError::UnknownService("x".to_string())),
        ErrorKind::UnknownService
    );
}

#[test]
fn errors_become_responses() {
    match respond_error(&ServiceWorkerError::Busy) {
        Response::Error { kind, message } => {
            assert_eq!(kind, ErrorKind::Busy);
            assert_eq!(message, "Service is busy");
        }
        other => panic!("unexpected response {:?}", other),
    }
    let cases = [
        (ProtocolError::Truncated, "Request is truncated"),
        (ProtocolError::UnknownOperation, "Unknown operation"),
        (ProtocolError::UnknownFlag, "Unknown flag"),
        (ProtocolError::InvalidText, "Service name is not valid UTF-8"),
        (ProtocolError::Oversized, "Request is too long"),
    ];
    for (error, text) in cases.iter() {
        match respond_malformed(*error) {
            Response::Error { kind, message } => {
                assert_eq!(kind, ErrorKind::ProtocolError);
                assert_eq!(message, *text);
            }
            other => panic!("unexpected response {:?}", other),
        }
    }
}

#[test]
fn status_is_answered_at_once() {
    let mut registry = registry();
    match handle(&mut registry, &request("web", Operation::Status), 50) {
        Reply::Respond(Response::Status(report)) => {
            assert_eq!(report, StatusReport { status: ServiceStatus::Stopped, time_in_state: 50 })
        }
        other => panic!("unexpected reply {:?}", other),
    }
    match respond_status(&registry, "db", 7) {
        Response::Status(report) => assert_eq!(report.time_in_state, 7),
        other => panic!("unexpected response {:?}", other),
    }
}

#[test]
fn status_of_an_unknown_service_is_an_error() {
    let mut registry = registry();
    match handle(&mut registry, &request("mail", Operation::Status), 50) {
        Reply::Respond(Response::Error { kind, message }) => {
            assert_eq!(kind, ErrorKind::UnknownService);
            assert_eq!(message, "Service mail not found");
        }
        other => panic!("unexpected reply {:?}", other),
    }
}

#[test]
fn list_is_answered_at_once() {
    let mut registry = registry();
    match handle(&mut registry, &request("", Operation::List), 50) {
        Reply::Respond(Response::List(entries)) => {
            assert_eq!(entries.len(), 2);
            assert_eq!(entries[0].name, "web");
            assert_eq!(entries[1].name, "db");
            assert_eq!(entries[1].report.status, ServiceStatus::Stopped);
        }
        other => panic!("unexpected reply {:?}", other),
    }
}

#[test]
fn start_is_performed_then_answered() {
    let mut registry = registry();
    match handle(&mut registry, &request("web", Operation::Start), 10) {
        Reply::Perform(Effect::Spawn(ServiceScript::Exec { command, arguments })) => {
            assert_eq!(command, "/bin/sleep");
            assert_eq!(arguments, vec!["100".to_string()]);
        }
        other => panic!("unexpected reply {:?}", other),
    }
    match advance(&mut registry, "web", Command::Spawned { process: 31 }, 12) {
        Reply::Respond(Response::Status(report)) => {
            assert_eq!(report, StatusReport { status: ServiceStatus::Starting, time_in_state: 0 })
        }
        other => panic!("unexpected reply {:?}", other),
    }
}

#[test]
fn refused_start_is_answered_with_the_error() {
    let mut registry = registry();
    match handle(&mut registry, &request("db", Operation::Start), 10) {
        Reply::Respond(Response::Error { kind, message }) => {
            assert_eq!(kind, ErrorKind::ScriptNotSpecified);
            assert_eq!(message, "Script start not specified");
        }
        other => panic!("unexpected reply {:?}", other),
    }
    match handle(&mut registry, &request("mail", Operation::Start), 10) {
        Reply::Respond(Response::Error { kind, .. }) => assert_eq!(kind, ErrorKind::UnknownService),
        other => panic!("unexpected reply {:?}", other),
    }
    match handle(&mut registry, &request("web", Operation::Stop), 10) {
        Reply::Respond(Response::Error { kind, message }) => {
            assert_eq!(kind, ErrorKind::NotRunning);
            assert_eq!(message, "Service is not running");
        }
        other => panic!("unexpected reply {:?}", other),
    }
}

#[test]
fn failed_spawn_is_answered_with_the_cause() {
    let mut registry = registry();
    assert!(matches!(
        handle(&mut registry, &request("web", Operation::Start), 10),
        Reply::Perform(Effect::Spawn(_))
    ));
    match advance(&mut registry, "web", Command::SpawnFailed { cause: "ENOENT".to_string() }, 11) {
        Reply::Respond(Response::Error { kind, message }) => {
            assert_eq!(kind, ErrorKind::ProcessSpawnFailed);
            assert_eq!(message, "IO error ENOENT");
        }
        other => panic!("unexpected reply {:?}", other),
    }
    assert_eq!(registry.status("web", 11).map(|r| r.status), Some(ServiceStatus::Stopped));
}

#[test]
fn stop_over_the_wire_from_running_to_stopped() {
    let mut registry = registry();
    let taken = receive(&mut registry, &request("web", Operation::Start).encode(), 10);
    assert!(matches!(taken.reply, Reply::Perform(Effect::Spawn(_))));
    assert_eq!(taken.request.map(|r| r.service), Some("web".to_string()));
    assert!(matches!(
        advance(&mut registry, "web", Command::Spawned { process: 31 }, 11),
        Reply::Respond(Response::Status(_))
    ));
    assert!(matches!(registry.operate("web", Command::Confirmed { process: 31 }, 12), Ok(Effect::Noted)));
    let stop = Request {
        service: "web".to_string(),
        op: Operation::Stop,
        stop_timeout_ms: Some(200),
        force: Some(false),
    };
    assert!(matches!(
        receive(&mut registry, &stop.encode(), 1000).reply,
        Reply::Perform(Effect::Terminate { process: 31, deadline: 1200 })
    ));
    // the deadline passes while the process lives on
    match advance(&mut registry, "web", Command::Expired, 1200) {
        Reply::Respond(Response::Error { kind, .. }) => assert_eq!(kind, ErrorKind::Busy),
        other => panic!("unexpected reply {:?}", other),
    }
    assert_eq!(registry.status("web", 1200).map(|r| r.status), Some(ServiceStatus::Stopping));
    // the forced retry
    let forced = Request {
        service: "web".to_string(),
        op: Operation::Stop,
        stop_timeout_ms: Some(200),
        force: Some(true),
    };
    assert!(matches!(
        receive(&mut registry, &forced.encode(), 1300).reply,
        Reply::Perform(Effect::Wait { deadline: 1500 })
    ));
    assert!(matches!(
        advance(&mut registry, "web", Command::Expired, 1500),
        Reply::Perform(Effect::Kill { start: Some(31), stop: None })
    ));
    // the exit watcher reports; the waiting request turns the outcome into its answer
    let outcome = registry.operate("web", Command::Exited { process: 31, code: 137 }, 1510);
    match reply(&registry, "web", outcome, 1510) {
        Reply::Respond(Response::Status(report)) => {
            assert_eq!(report, StatusReport { status: ServiceStatus::Stopped, time_in_state: 0 })
        }
        other => panic!("unexpected reply {:?}", other),
    }
}

#[test]
fn malformed_payload_is_rejected_and_changes_nothing() {
    let mut registry = registry();
    let before = format!("{:?}", registry);
    let taken = receive(&mut registry, &[9, 9, 9], 10);
    assert!(taken.request.is_none());
    match taken.reply {
        Reply::Reject(Response::Error { kind, message }) => {
            assert_eq!(kind, ErrorKind::ProtocolError);
            assert_eq!(message, "Unknown operation");
        }
        other => panic!("unexpected reply {:?}", other),
    }
    match receive(&mut registry, &[], 10).reply {
        Reply::Reject(Response::Error { kind, message }) => {
            assert_eq!(kind, ErrorKind::ProtocolError);
            assert_eq!(message, "Request is truncated");
        }
        other => panic!("unexpected reply {:?}", other),
    }
    assert_eq!(format!("{:?}", registry), before);
}

#[test]
fn every_response_of_a_session_decodes_again() {
    let mut registry = registry();
    let payloads: Vec<Vec<u8>> = vec![
        request("web", Operation::Status).encode(),
        request("", Operation::List).encode(),
        request("mail", Operation::Stop).encode(),
        request("db", Operation::Start).encode(),
        vec![7],
    ];
    for payload in payloads.iter() {
        let response = match receive(&mut registry, payload, 99).reply {
            Reply::Respond(response) => response,
            Reply::Reject(response) => response,
            Reply::Perform(effect) => panic!("nothing to perform expected, got {:?}", effect),
        };
        let decoded = Response::decode(&response.encode());
        assert_eq!(format!("{:?}", decoded), format!("{:?}", Some(response)));
    }
}

#[test]
fn input_without_an_operation_is_answered_with_the_status() {
    let mut registry = registry();
    match advance(&mut registry, "web", Command::Expired, 5) {
        Reply::Respond(Response::Status(report)) => {
            assert_eq!(report, StatusReport { status: ServiceStatus::Stopped, time_in_state: 5 })
        }
        other => panic!("unexpected reply {:?}", other),
    }
    match reply(&registry, "web", Ok(Effect::Noted), 5) {
        Reply::Perform(Effect::Noted) => {}
        other => panic!("unexpected reply {:?}", other),
    }
    match reply(&registry, "mail", Ok(Effect::Done), 5) {
        Reply::Respond(Response::Error { kind, .. }) => assert_eq!(kind, ErrorKind::UnknownService),
        other => panic!("unexpected reply {:?}", other),
    }
}
