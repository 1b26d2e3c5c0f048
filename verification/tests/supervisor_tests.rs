use zeromqtt::bridge::worker::{ForwardMessage, MessageSource};
use zeromqtt::bridge::{BridgeCore, StartError, RESTART_DELAY_MS};
use zeromqtt::models::{
    BridgeState, ConnectionStatus, EndpointType, MappingDirection, MqttConfig, TopicMapping,
    ZmqConfig,
};

fn mapping(source: &str, target: &str) -> TopicMapping {
    TopicMapping {
        id: 1,
        source_endpoint_type: EndpointType::Mqtt,
        source_endpoint_id: 1,
        target_endpoint_type: EndpointType::Zmq,
        target_endpoint_id: 2,
        source_topic: source.to_string(),
        target_topic: target.to_string(),
        direction: MappingDirection::MqttToZmq,
        enabled: true,
        description: None,
    }
}

fn endpoints() -> (Vec<MqttConfig>, Vec<ZmqConfig>) {
    (
        vec![MqttConfig { id: Some(1), ..MqttConfig::default() }],
        vec![ZmqConfig { id: Some(2), ..ZmqConfig::default() }],
    )
}

fn message(topic: &str) -> ForwardMessage {
    ForwardMessage {
        source: MessageSource::Mqtt,
        source_id: 1,
        topic: topic.to_string(),
        payload: b"x".to_vec(),
    }
}

#[test]
fn new_bridge_is_stopped() {
    let core = BridgeCore::new();
    assert_eq!(core.current_state(), BridgeState::Stopped);
    let status = core.status_at(100, 200, "1.2.3");
    assert_eq!(status.state, BridgeState::Stopped);
    assert_eq!(status.uptime_seconds, 0);
    assert_eq!(status.mqtt_status, ConnectionStatus::Disconnected);
    assert_eq!(status.zmq_status, ConnectionStatus::Disconnected);
    assert_eq!(status.version, "1.2.3");
}

#[test]
fn start_runs_and_plans_workers() {
    let (mqtt, zmq) = endpoints();
    let mut core = BridgeCore::new();
    let plan = core.start(&mqtt, &zmq, vec![mapping("a", "b")]).unwrap();
    assert_eq!(core.current_state(), BridgeState::Running);
    assert_eq!(plan.mqtt.len(), 1);
    assert_eq!(plan.mqtt[0].endpoint_id, 1);
    assert_eq!(plan.mqtt[0].subscribe_topics, vec!["a".to_string()]);
    assert_eq!(plan.zmq.len(), 1);
    assert_eq!(plan.zmq[0].endpoint_id, 2);
    let outcome = core.route(&message("a"));
    assert_eq!(outcome.dispatches.len(), 1);
    assert_eq!(outcome.dispatches[0].topic, "b");
}

#[test]
fn start_is_refused_unless_stopped() {
    let (mqtt, zmq) = endpoints();
    let mut core = BridgeCore::new();
    core.start(&mqtt, &zmq, Vec::new()).unwrap();
    let again = core.start(&mqtt, &zmq, Vec::new());
    assert_eq!(again.unwrap_err(), StartError::NotStopped(BridgeState::Running));
    assert_eq!(core.current_state(), BridgeState::Running);
    assert_eq!(core.begin_start(), Err(StartError::NotStopped(BridgeState::Running)));
    core.fail();
    assert_eq!(core.current_state(), BridgeState::Error);
    assert_eq!(core.begin_start(), Err(StartError::NotStopped(BridgeState::Error)));
}

#[test]
fn start_in_steps_goes_through_connecting() {
    let (mqtt, zmq) = endpoints();
    let mut core = BridgeCore::new();
    assert_eq!(
        core.finish_start(&mqtt, &zmq, Vec::new()).unwrap_err(),
        StartError::NotConnecting(BridgeState::Stopped)
    );
    assert_eq!(core.begin_start(), Ok(()));
    assert_eq!(core.current_state(), BridgeState::Connecting);
    let status = core.status_at(100, 200, "v");
    assert_eq!(status.mqtt_status, ConnectionStatus::Connecting);
    assert_eq!(status.zmq_status, ConnectionStatus::Connecting);
    assert_eq!(status.uptime_seconds, 0);
    assert_eq!(core.begin_start(), Err(StartError::NotStopped(BridgeState::Connecting)));
    let plan = core.finish_start(&mqtt, &zmq, Vec::new()).unwrap();
    assert_eq!(plan.mqtt.len(), 1);
    assert_eq!(core.current_state(), BridgeState::Running);
}

#[test]
fn failed_start_leaves_error_until_stopped() {
    let mut core = BridgeCore::new();
    core.fail_start();
    assert_eq!(core.current_state(), BridgeState::Stopped);
    core.begin_start().unwrap();
    core.fail_start();
    assert_eq!(core.current_state(), BridgeState::Error);
    let status = core.status_at(100, 200, "v");
    assert_eq!(status.mqtt_status, ConnectionStatus::Error);
    assert_eq!(status.zmq_status, ConnectionStatus::Error);
    core.stop();
    assert_eq!(core.current_state(), BridgeState::Stopped);
    assert_eq!(core.begin_start(), Ok(()));
}

#[test]
fn stop_leaves_no_worker_and_start_succeeds_again() {
    let (mqtt, zmq) = endpoints();
    let mut core = BridgeCore::new();
    core.start(&mqtt, &zmq, vec![mapping("a", "b")]).unwrap();
    core.stop();
    assert_eq!(core.current_state(), BridgeState::Stopped);
    let outcome = core.route(&message("a"));
    assert!(outcome.dispatches.is_empty());
    assert_eq!(outcome.unknown_targets, 1);
    core.stop();
    assert_eq!(core.current_state(), BridgeState::Stopped);
    let plan = core.start(&mqtt, &zmq, vec![mapping("a", "b")]).unwrap();
    assert_eq!(plan.mqtt.len(), 1);
    assert_eq!(core.current_state(), BridgeState::Running);
}

#[test]
fn restart_stops_waits_and_starts() {
    let (mqtt, zmq) = endpoints();
    let mut core = BridgeCore::new();
    core.start(&mqtt, &zmq, Vec::new()).unwrap();
    let plan = core.restart(&mqtt, &zmq, vec![mapping("a", "b")]);
    assert_eq!(plan.delay_ms, 500);
    assert_eq!(RESTART_DELAY_MS, 500);
    assert_eq!(plan.spawn.mqtt.len(), 1);
    assert_eq!(plan.spawn.zmq.len(), 1);
    assert_eq!(core.current_state(), BridgeState::Running);
    assert_eq!(core.route(&message("a")).dispatches.len(), 1);
}

#[test]
fn reload_routes_the_next_message_over_the_new_mappings_only() {
    let (mqtt, zmq) = endpoints();
    let mut core = BridgeCore::new();
    core.start(&mqtt, &zmq, vec![mapping("a", "old-a"), mapping("b", "old-b")]).unwrap();
    assert_eq!(core.route(&message("b")).dispatches[0].topic, "old-b");
    let updates = core.reload_mappings(vec![mapping("a", "new-a"), mapping("c", "new-c")]);
    assert_eq!(updates.len(), 1);
    assert_eq!(updates[0].endpoint_id, 1);
    assert_eq!(updates[0].topics, vec!["a".to_string(), "c".to_string()]);
    assert!(core.route(&message("b")).dispatches.is_empty());
    let a = core.route(&message("a"));
    assert_eq!(a.dispatches.len(), 1);
    assert_eq!(a.dispatches[0].topic, "new-a");
    assert_eq!(core.route(&message("c")).dispatches[0].topic, "new-c");
    assert_eq!(core.current_state(), BridgeState::Running);
}

#[test]
fn uptime_counts_seconds_since_start_while_running() {
    let (mqtt, zmq) = endpoints();
    let mut core = BridgeCore::new();
    core.start(&mqtt, &zmq, Vec::new()).unwrap();
    let status = core.status_at(1_000, 1_060, "0.1.0");
    assert_eq!(status.state, BridgeState::Running);
    assert_eq!(status.uptime_seconds, 60);
    assert_eq!(status.mqtt_status, ConnectionStatus::Connected);
    assert_eq!(status.zmq_status, ConnectionStatus::Connected);
    assert_eq!(core.status_at(0, 1_060, "0.1.0").uptime_seconds, 0);
    assert_eq!(core.status_at(-5, 1_060, "0.1.0").uptime_seconds, 0);
    assert_eq!(core.status_at(1_000, 1_000, "0.1.0").uptime_seconds, 0);
    assert_eq!(core.status_at(1_000, 999, "0.1.0").uptime_seconds, u64::MAX);
    assert_eq!(core.status_at(1, i64::MAX, "0.1.0").uptime_seconds, (i64::MAX - 1) as u64);
}

#[test]
fn status_by_the_clock_shows_state_and_version() {
    let (mqtt, zmq) = endpoints();
    let mut core = BridgeCore::new();
    let stopped = core.get_status(1, "9.9.9");
    assert_eq!(stopped.state, BridgeState::Stopped);
    assert_eq!(stopped.uptime_seconds, 0);
    assert_eq!(stopped.version, "9.9.9");
    core.start(&mqtt, &zmq, Vec::new()).unwrap();
    let running = core.get_status(1, "9.9.9");
    assert_eq!(running.state, BridgeState::Running);
    assert!(running.uptime_seconds > 1_600_000_000);
    assert!(running.uptime_seconds < 1u64 << 40);
    assert_eq!(core.get_status(0, "9.9.9").uptime_seconds, 0);
}
