use init_system::lifecycle::Pending;
use init_system::registry::Registry;
use init_system::service::{Service, ServiceScript, ServiceScripts};
use init_system::service_worker::{
    Command, Effect, ServiceStatus, ServiceWorkerError, StatusReport,
};
use init_system::settings::{NamedService, Settings};

fn definition(command: &str) -> Service {
    Service {
        description: format!("runs {}", command),
        scripts: ServiceScripts {
            start: Some(ServiceScript::Exec { command: command.to_string(), arguments: vec![] }),
            stop: None,
        },
    }
}

fn two_services() -> Registry {
    let mut registry = Registry::new();
    assert!(registry.register("web".to_string(), definition("/usr/bin/web"), 10));
    assert!(registry.register("db".to_string(), definition("/usr/bin/db"), 20));
    registry
}

#[test]
fn new_registry_is_empty() {
    let registry = Registry::new();
    assert_eq!(registry.len(), 0);
    assert!(!registry.contains("web"));
    assert!(registry.list(0).is_empty());
    assert_eq!(registry.status("web", 0), None);
}

#[test]
fn registered_services_begin_stopped() {
    let registry = two_services();
    assert_eq!(registry.len(), 2);
    assert!(registry.contains("web"));
    assert!(registry.contains("db"));
    assert!(!registry.contains("mail"));
    assert_eq!(
        registry.status("web", 100),
        Some(StatusReport { status: ServiceStatus::Stopped, time_in_state: 90 })
    );
    assert_eq!(
        registry.status("db", 100),
        Some(StatusReport { status: ServiceStatus::Stopped, time_in_state: 80 })
    );
}

#[test]
fn taken_name_keeps_its_worker() {
    let mut registry = two_services();
    assert!(matches!(registry.operate("web", Command::Start, 30), Ok(Effect::Spawn(_))));
    assert!(!registry.register("web".to_string(), definition("/usr/bin/other"), 40));
    assert_eq!(registry.len(), 2);
    match registry.operate("web", Command::Spawned { process: 1 }, 50) {
        Ok(Effect::Done) => {}
        other => panic!("unexpected outcome {:?}", other),
    }
    assert_eq!(registry.status("web", 50).map(|r| r.status), Some(ServiceStatus::Starting));
}

#[test]
fn unknown_service_is_reported() {
    let mut registry = two_services();
    match registry.operate("mail", Command::Start, 30) {
        Err(ServiceWorkerError::UnknownService(name)) => assert_eq!(name, "mail"),
        other => panic!("unexpected outcome {:?}", other),
    }
    assert_eq!(registry.len(), 2);
    assert_eq!(registry.status("mail", 30), None);
}

#[test]
fn list_keeps_the_order_of_registration() {
    let mut registry = two_services();
    assert!(registry.register("cache".to_string(), definition("/usr/bin/cache"), 30));
    let entries = registry.list(50);
    let names: Vec<&str> = entries.iter().map(|e| e.name.as_str()).collect();
    assert_eq!(names, vec!["web", "db", "cache"]);
    assert_eq!(entries[0].report, StatusReport { status: ServiceStatus::Stopped, time_in_state: 40 });
    assert_eq!(entries[1].report, StatusReport { status: ServiceStatus::Stopped, time_in_state: 30 });
    assert_eq!(entries[2].report, StatusReport { status: ServiceStatus::Stopped, time_in_state: 20 });
}

#[test]
fn two_starts_of_one_service_give_one_success() {
    let mut registry = two_services();
    assert!(matches!(registry.operate("web", Command::Start, 30), Ok(Effect::Spawn(_))));
    assert!(matches!(
        registry.operate("web", Command::Start, 30),
        Err(ServiceWorkerError::Busy)
    ));
    assert!(matches!(
        registry.operate("web", Command::Spawned { process: 1 }, 31),
        Ok(Effect::Done)
    ));
    assert!(matches!(
        registry.operate("web", Command::Start, 32),
        Err(ServiceWorkerError::Busy)
    ));
    assert!(matches!(registry.operate("web", Command::Confirmed { process: 1 }, 33), Ok(Effect::Noted)));
    assert!(matches!(
        registry.operate("web", Command::Start, 34),
        Err(ServiceWorkerError::AlreadyRunning)
    ));
}

#[test]
fn services_do_not_wait_for_each_other() {
    let mut registry = two_services();
    assert!(matches!(registry.operate("web", Command::Start, 30), Ok(Effect::Spawn(_))));
    // "web" is in the middle of its start; "db" is started and settled meanwhile.
    assert!(matches!(registry.operate("db", Command::Start, 31), Ok(Effect::Spawn(_))));
    assert!(matches!(
        registry.operate("db", Command::Spawned { process: 2 }, 32),
        Ok(Effect::Done)
    ));
    assert_eq!(registry.status("db", 32).map(|r| r.status), Some(ServiceStatus::Starting));
    assert_eq!(registry.status("web", 32).map(|r| r.status), Some(ServiceStatus::Stopped));
    assert!(matches!(
        registry.operate("web", Command::Spawned { process: 1 }, 33),
        Ok(Effect::Done)
    ));
    assert_eq!(
        registry.status("web", 40),
        Some(StatusReport { status: ServiceStatus::Starting, time_in_state: 7 })
    );
    assert_eq!(
        registry.status("db", 40),
        Some(StatusReport { status: ServiceStatus::Starting, time_in_state: 8 })
    );
}

#[test]
fn operations_on_two_services_commute() {
    let mut one = two_services();
    let mut other = two_services();
    let a = one.operate("web", Command::Start, 30);
    let b = one.operate("db", Command::Stop { timeout: 5, force: false }, 31);
    let b2 = other.operate("db", Command::Stop { timeout: 5, force: false }, 31);
    let a2 = other.operate("web", Command::Start, 30);
    assert_eq!(format!("{:?}", a), format!("{:?}", a2));
    assert_eq!(format!("{:?}", b), format!("{:?}", b2));
    assert_eq!(format!("{:?}", one), format!("{:?}", other));
}

#[test]
fn stop_of_a_stopped_service_changes_nothing() {
    let mut registry = two_services();
    let before = format!("{:?}", registry);
    assert!(matches!(
        registry.operate("web", Command::Stop { timeout: 200, force: true }, 30),
        Err(ServiceWorkerError::NotRunning)
    ));
    assert_eq!(format!("{:?}", registry), before);
}

#[test]
fn exit_of_one_service_does_not_touch_a_process_of_another() {
    let mut registry = two_services();
    assert!(matches!(registry.operate("web", Command::Start, 30), Ok(Effect::Spawn(_))));
    assert!(matches!(
        registry.operate("web", Command::Spawned { process: 1 }, 31),
        Ok(Effect::Done)
    ));
    assert!(matches!(
        registry.operate("db", Command::Exited { process: 1, code: 1 }, 32),
        Ok(Effect::Ignored)
    ));
    assert_eq!(registry.status("web", 32).map(|r| r.status), Some(ServiceStatus::Starting));
}

#[test]
fn settings_build_the_registry_in_order() {
    let settings = Settings {
        listen: "/run/init.sock".to_string(),
        services: vec![
            NamedService { name: "web".to_string(), service: definition("/usr/bin/web") },
            NamedService { name: "db".to_string(), service: definition("/usr/bin/db") },
            NamedService { name: "web".to_string(), service: definition("/usr/bin/web2") },
        ],
    };
    let mut registry = settings.registry(7);
    assert_eq!(registry.len(), 2);
    let entries = registry.list(10);
    assert_eq!(entries[0].name, "web");
    assert_eq!(entries[1].name, "db");
    assert_eq!(entries[0].report, StatusReport { status: ServiceStatus::Stopped, time_in_state: 3 });
    match registry.operate("web", Command::Start, 11) {
        Ok(Effect::Spawn(ServiceScript::Exec { command, .. })) => assert_eq!(command, "/usr/bin/web"),
        other => panic!("unexpected outcome {:?}", other),
    }
    assert_eq!(settings.listen, "/run/init.sock");
}

#[test]
fn empty_settings_build_an_empty_registry() {
    let settings = Settings { listen: String::new(), services: vec![] };
    assert_eq!(settings.registry(0).len(), 0);
}

#[test]
fn pending_states_are_told_apart() {
    assert_ne!(Pending::Idle, Pending::Kill);
    assert_ne!(
        Pending::Wait { deadline: 1, force: false },
        Pending::Wait { deadline: 1, force: true }
    );
}
