use ingat::power_manager::{
    MonitorAction, MonitorEvent, PowerEvent, PowerManager, ProbeKind, ServiceState,
    POLL_MILLIS, RESTART_DELAY_MILLIS, RESUME_DELAY_MILLIS,
};

#[test]
fn test_state_serialization() {
    let state = ServiceState::Running;
    let state_str = match state {
        ServiceState::Running => "running",
        ServiceState::Stopped => "stopped",
        ServiceState::Unknown => "unknown",
    };
    assert_eq!(state_str, "running");
    assert_eq!(state.as_str(), state_str);
    assert_eq!(ServiceState::Stopped.as_str(), "stopped");
    assert_eq!(ServiceState::Unknown.as_str(), "unknown");
}

#[test]
fn test_cross_platform_state_persistence() {
    let content = format!(
        "{{\"state\":\"{}\",\"timestamp\":\"2024-05-01T10:00:00+00:00\"}}",
        "running"
    );
    assert_eq!(ServiceState::from_file(Some(&content)), ServiceState::Running);
}

#[test]
fn state_labels_round_trip() {
    for state in [ServiceState::Running, ServiceState::Stopped, ServiceState::Unknown] {
        assert_eq!(ServiceState::from_label(state.as_str()), state);
    }
    assert_eq!(ServiceState::from_label("paused"), ServiceState::Unknown);
    assert_eq!(ServiceState::from_label("Running"), ServiceState::Unknown);
}

#[test]
fn state_file_that_is_missing_or_corrupt_reads_as_unknown() {
    assert_eq!(ServiceState::from_file(None), ServiceState::Unknown);
    assert_eq!(ServiceState::from_file(Some("")), ServiceState::Unknown);
    assert_eq!(ServiceState::from_file(Some("{not json")), ServiceState::Unknown);
    assert_eq!(ServiceState::from_file(Some("{\"timestamp\":\"x\"}")), ServiceState::Unknown);
    assert_eq!(ServiceState::from_file(Some("{\"state\":7}")), ServiceState::Unknown);
    assert_eq!(ServiceState::from_file(Some("[\"running\"]")), ServiceState::Unknown);
    assert_eq!(
        ServiceState::from_file(Some("{\"state\":\"stopped\"}")),
        ServiceState::Stopped
    );
    assert_eq!(PowerManager::new(Some("{\"state\":\"running\"}")).desired_state(), ServiceState::Running);
    assert_eq!(PowerManager::new(None).desired_state(), ServiceState::Unknown);
}

#[test]
fn running_owner_that_is_down_is_restarted_within_poll_and_backoff() {
    let mut monitor = PowerManager::with_state(ServiceState::Running);
    assert_eq!(monitor.start_monitoring(), MonitorAction::Probe(ProbeKind::Startup));
    assert_eq!(monitor.step(MonitorEvent::StartupProbed(false)), MonitorAction::Start);
    assert_eq!(monitor.step(MonitorEvent::Tick), MonitorAction::Probe(ProbeKind::Tick));
    assert_eq!(
        monitor.step(MonitorEvent::TickProbed(false)),
        MonitorAction::StartAfter(RESTART_DELAY_MILLIS)
    );
    assert_eq!(monitor.step(MonitorEvent::TickProbed(true)), MonitorAction::Idle);
    assert_eq!(POLL_MILLIS, 10_000);
    assert_eq!(RESTART_DELAY_MILLIS, 2_000);
    assert_eq!(monitor.desired_state(), ServiceState::Running);
}

#[test]
fn stopped_monitor_never_starts_anything() {
    let events = [
        MonitorEvent::Started,
        MonitorEvent::StartupProbed(false),
        MonitorEvent::StartupProbed(true),
        MonitorEvent::Tick,
        MonitorEvent::TickProbed(false),
        MonitorEvent::TickProbed(true),
        MonitorEvent::Power(PowerEvent::Suspend),
        MonitorEvent::Power(PowerEvent::Resume),
        MonitorEvent::Power(PowerEvent::BatteryLow),
        MonitorEvent::Power(PowerEvent::PowerSourceChange),
        MonitorEvent::SuspendProbed(false),
        MonitorEvent::SuspendProbed(true),
        MonitorEvent::ResumeProbed(false),
        MonitorEvent::ResumeProbed(true),
        MonitorEvent::MarkedRunning,
        MonitorEvent::MarkedStopped,
    ];
    for initial in [ServiceState::Stopped, ServiceState::Unknown] {
        for event in events {
            let mut monitor = PowerManager::with_state(initial);
            let action = monitor.step(event);
            assert!(!matches!(action, MonitorAction::Start | MonitorAction::StartAfter(_)));
        }
    }
}

#[test]
fn suspend_records_whether_the_owner_was_up() {
    let mut monitor = PowerManager::with_state(ServiceState::Unknown);
    assert_eq!(
        monitor.handle_power_event(PowerEvent::Suspend),
        MonitorAction::Probe(ProbeKind::Suspend)
    );
    assert_eq!(
        monitor.step(MonitorEvent::SuspendProbed(true)),
        MonitorAction::Persist(ServiceState::Running)
    );
    assert_eq!(monitor.desired_state(), ServiceState::Running);
    assert_eq!(
        monitor.step(MonitorEvent::SuspendProbed(false)),
        MonitorAction::Persist(ServiceState::Stopped)
    );
    assert_eq!(monitor.desired_state(), ServiceState::Stopped);
}

#[test]
fn resume_races_to_restart_a_running_owner() {
    let mut monitor = PowerManager::with_state(ServiceState::Running);
    assert_eq!(
        monitor.handle_power_event(PowerEvent::Resume),
        MonitorAction::ProbeAfter(RESUME_DELAY_MILLIS, ProbeKind::Resume)
    );
    assert_eq!(RESUME_DELAY_MILLIS, 500);
    assert_eq!(monitor.step(MonitorEvent::ResumeProbed(false)), MonitorAction::Start);
    assert_eq!(monitor.step(MonitorEvent::ResumeProbed(true)), MonitorAction::Idle);
    let mut stopped = PowerManager::with_state(ServiceState::Stopped);
    assert_eq!(stopped.handle_power_event(PowerEvent::Resume), MonitorAction::Idle);
    assert_eq!(stopped.handle_power_event(PowerEvent::BatteryLow), MonitorAction::Idle);
    assert_eq!(stopped.handle_power_event(PowerEvent::PowerSourceChange), MonitorAction::Idle);
}

#[test]
fn operator_overrides_are_persisted() {
    let mut monitor = PowerManager::with_state(ServiceState::Unknown);
    assert_eq!(monitor.mark_service_running(), MonitorAction::Persist(ServiceState::Running));
    assert_eq!(monitor.desired_state(), ServiceState::Running);
    assert_eq!(monitor.mark_service_stopped(), MonitorAction::Persist(ServiceState::Stopped));
    assert_eq!(monitor.desired_state(), ServiceState::Stopped);
}
