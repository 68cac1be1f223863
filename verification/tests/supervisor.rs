use ingat::service_manager::{
    binary_name, find_binary, ServiceManager, StartAction, StartError, StartEvent, StartOutcome,
    StartPhase, DEBUG_BUILD_DIR, ENV_DATA_DIR, ENV_LOG, ENV_SERVICE_HOST, ENV_SERVICE_PORT,
    RELEASE_BUILD_DIR, SETTLE_MILLIS,
};

#[test]
fn test_service_manager_creation() {
    let manager = ServiceManager::new(None, None);
    assert_eq!(manager.get_port(), 3200);
    assert_eq!(manager.get_host(), "127.0.0.1");
}

#[test]
fn test_custom_config() {
    let manager = ServiceManager::with_config(3201, "localhost".to_string());
    assert_eq!(manager.get_port(), 3201);
    assert_eq!(manager.get_host(), "localhost");
}

#[test]
fn test_service_url() {
    let manager = ServiceManager::new(None, None);
    assert_eq!(manager.service_url(), "http://127.0.0.1:3200");
    assert_eq!(manager.health_url(), "http://127.0.0.1:3200/health");
}

#[test]
fn environment_overrides_host_and_port() {
    let manager = ServiceManager::new(Some("0.0.0.0".to_string()), Some("8088".to_string()));
    assert_eq!(manager.get_port(), 8088);
    assert_eq!(manager.get_host(), "0.0.0.0");
    assert_eq!(ServiceManager::resolve_port(Some("+80")), 80);
    assert_eq!(ServiceManager::resolve_port(Some("65535")), 65535);
    assert_eq!(ServiceManager::resolve_port(Some("65536")), 3200);
    assert_eq!(ServiceManager::resolve_port(Some("")), 3200);
    assert_eq!(ServiceManager::resolve_port(Some(" 80")), 3200);
    assert_eq!(ServiceManager::resolve_port(Some("-1")), 3200);
    assert_eq!(ServiceManager::resolve_port(Some("http")), 3200);
    assert_eq!(ServiceManager::resolve_log_level(None), "error");
    assert_eq!(ServiceManager::resolve_log_level(Some("debug".to_string())), "debug");
}

fn drive(events: Vec<StartEvent>) -> (StartPhase, Vec<StartAction>) {
    let mut phase = StartPhase::begin();
    let mut actions = vec![phase.action()];
    for event in events {
        phase = phase.advance(event);
        actions.push(phase.action());
    }
    (phase, actions)
}

#[test]
fn start_spawns_one_owner_when_none_is_reachable() {
    let (phase, actions) = drive(vec![
        StartEvent::Probed(false),
        StartEvent::Located(Some("/opt/ingat/mcp_service".to_string())),
        StartEvent::Spawned(Ok(())),
        StartEvent::Settled,
        StartEvent::Probed(true),
    ]);
    assert!(matches!(phase, StartPhase::Finished(Ok(StartOutcome::Started))));
    assert_eq!(
        actions,
        vec![
            StartAction::Probe,
            StartAction::Locate,
            StartAction::Spawn,
            StartAction::Settle,
            StartAction::Probe,
            StartAction::Finish,
        ]
    );
    assert_eq!(actions.iter().filter(|a| **a == StartAction::Spawn).count(), 1);
    assert_eq!(SETTLE_MILLIS, 1500);
}

#[test]
fn start_is_a_no_op_when_an_owner_is_reachable() {
    let (phase, actions) = drive(vec![StartEvent::Probed(true)]);
    assert!(matches!(phase, StartPhase::Finished(Ok(StartOutcome::AlreadyRunning))));
    assert_eq!(actions, vec![StartAction::Probe, StartAction::Finish]);
}

#[test]
fn start_carries_the_located_path_into_the_spawn() {
    let phase = StartPhase::begin()
        .advance(StartEvent::Probed(false))
        .advance(StartEvent::Located(Some("target/release/mcp_service".to_string())));
    match phase {
        StartPhase::Spawning(path) => assert_eq!(path, "target/release/mcp_service"),
        other => panic!("unexpected phase {:?}", other),
    }
}

#[test]
fn start_fails_without_a_binary() {
    let (phase, actions) = drive(vec![StartEvent::Probed(false), StartEvent::Located(None)]);
    match phase {
        StartPhase::Finished(Err(e)) => {
            assert!(matches!(e, StartError::BinaryNotFound));
            assert_eq!(
                e.to_string(),
                "Could not find mcp_service binary. Please ensure it's built and accessible."
            );
        }
        other => panic!("unexpected phase {:?}", other),
    }
    assert!(!actions.contains(&StartAction::Spawn));
}

#[test]
fn start_fails_when_the_owner_does_not_come_up() {
    let (phase, _) = drive(vec![
        StartEvent::Probed(false),
        StartEvent::Located(Some("mcp_service".to_string())),
        StartEvent::Spawned(Ok(())),
        StartEvent::Settled,
        StartEvent::Probed(false),
    ]);
    match phase {
        StartPhase::Finished(Err(e)) => assert_eq!(e.to_string(), "Service failed to start"),
        other => panic!("unexpected phase {:?}", other),
    }
}

#[test]
fn start_reports_a_failed_spawn() {
    let (phase, _) = drive(vec![
        StartEvent::Probed(false),
        StartEvent::Located(Some("mcp_service".to_string())),
        StartEvent::Spawned(Err("permission denied".to_string())),
    ]);
    match phase {
        StartPhase::Finished(Err(e)) => {
            assert_eq!(e.to_string(), "Failed to spawn mcp-service process: permission denied")
        }
        other => panic!("unexpected phase {:?}", other),
    }
}

#[test]
fn start_out_of_turn_fails_and_stays_finished() {
    let (phase, _) = drive(vec![StartEvent::Settled]);
    assert!(matches!(phase, StartPhase::Finished(Err(StartError::StartFailed))));
    let again = phase.advance(StartEvent::Probed(true));
    assert!(matches!(again, StartPhase::Finished(Err(StartError::StartFailed))));
}

#[test]
fn binary_is_searched_in_order() {
    let s = |t: &str| Some(t.to_string());
    assert_eq!(find_binary(s("a"), s("b"), s("c"), s("d")).unwrap(), "a");
    assert_eq!(find_binary(None, s("b"), s("c"), s("d")).unwrap(), "b");
    assert_eq!(find_binary(None, None, s("c"), s("d")).unwrap(), "c");
    assert_eq!(find_binary(None, None, None, s("d")).unwrap(), "d");
    assert!(matches!(find_binary(None, None, None, None), Err(StartError::BinaryNotFound)));
    assert_eq!(binary_name(false), "mcp_service");
    assert_eq!(binary_name(true), "mcp_service.exe");
    assert_eq!(RELEASE_BUILD_DIR, "target/release");
    assert_eq!(DEBUG_BUILD_DIR, "target/debug");
    assert_eq!(
        [ENV_SERVICE_HOST, ENV_SERVICE_PORT, ENV_LOG, ENV_DATA_DIR],
        ["INGAT_SERVICE_HOST", "INGAT_SERVICE_PORT", "INGAT_LOG", "INGAT_DATA_DIR"]
    );
}

#[test]
fn spawned_owner_gets_host_port_and_log_level() {
    let manager = ServiceManager::with_config(3201, "localhost".to_string());
    let env = manager.spawn_environment(None);
    assert_eq!(
        env,
        vec![
            ("INGAT_SERVICE_HOST".to_string(), "localhost".to_string()),
            ("INGAT_SERVICE_PORT".to_string(), "3201".to_string()),
            ("INGAT_LOG".to_string(), "error".to_string()),
            ("RUST_LOG_STYLE".to_string(), "never".to_string()),
        ]
    );
    let env = manager.spawn_environment(Some("trace".to_string()));
    assert_eq!(env[2].1, "trace");
    manager.stop();
}
