use zeromqtt::bridge::worker::{BridgeWorker, ForwardMessage, MessageSource};
use zeromqtt::bridge::TopicMapper;
use zeromqtt::models::{EndpointType, MappingDirection, TopicMapping};

fn mapping(
    source_topic: &str,
    target_topic: &str,
    direction: MappingDirection,
    enabled: bool,
) -> TopicMapping {
    TopicMapping {
        id: 1,
        source_endpoint_type: EndpointType::Mqtt,
        source_endpoint_id: 1,
        target_endpoint_type: EndpointType::Zmq,
        target_endpoint_id: 1,
        source_topic: source_topic.to_string(),
        target_topic: target_topic.to_string(),
        direction,
        enabled,
        description: None,
    }
}

#[test]
fn test_topic_mapper_exact_match() {
    let mappings = vec![mapping(
        "sensors/temperature",
        "zmq.sensors.temp",
        MappingDirection::MqttToZmq,
        true,
    )];

    let mapper = TopicMapper::new(mappings);

    let result = mapper.map_mqtt_to_zmq("sensors/temperature");
    assert_eq!(result, Some("zmq.sensors.temp".to_string()));

    let result = mapper.map_mqtt_to_zmq("sensors/humidity");
    assert_eq!(result, None);
}

#[test]
fn test_topic_mapper_single_wildcard() {
    let mappings = vec![mapping(
        "sensors/+/temperature",
        "zmq.sensors.+.temp",
        MappingDirection::MqttToZmq,
        true,
    )];

    let mapper = TopicMapper::new(mappings);

    let result = mapper.map_mqtt_to_zmq("sensors/room1/temperature");
    assert!(result.is_some());

    let result = mapper.map_mqtt_to_zmq("sensors/living_room/temperature");
    assert!(result.is_some());

    let result = mapper.map_mqtt_to_zmq("sensors/temperature");
    assert_eq!(result, None);
}

#[test]
fn test_topic_mapper_multi_wildcard() {
    let mappings = vec![mapping("sensors/#", "zmq.sensors", MappingDirection::MqttToZmq, true)];

    let mapper = TopicMapper::new(mappings);

    assert!(mapper.map_mqtt_to_zmq("sensors/temperature").is_some());
    assert!(mapper.map_mqtt_to_zmq("sensors/room1/temperature").is_some());
    assert!(mapper.map_mqtt_to_zmq("sensors/floor1/room1/temperature").is_some());
}

#[test]
fn test_topic_mapper_bidirectional() {
    let mappings = vec![mapping(
        "chat/messages",
        "zmq.chat",
        MappingDirection::Bidirectional,
        true,
    )];

    let mapper = TopicMapper::new(mappings);

    assert!(mapper.map_mqtt_to_zmq("chat/messages").is_some());
    assert!(mapper.map_zmq_to_mqtt("chat/messages").is_some());
}

#[test]
fn test_topic_mapper_disabled_mapping() {
    let mappings = vec![mapping(
        "sensors/temperature",
        "zmq.sensors.temp",
        MappingDirection::MqttToZmq,
        false,
    )];

    let mapper = TopicMapper::new(mappings);

    let result = mapper.map_mqtt_to_zmq("sensors/temperature");
    assert_eq!(result, None);
}

#[test]
fn test_message_source_equality() {
    assert_eq!(MessageSource::Mqtt, MessageSource::Mqtt);
    assert_eq!(MessageSource::Zmq, MessageSource::Zmq);
    assert_ne!(MessageSource::Mqtt, MessageSource::Zmq);
}

#[test]
fn test_forward_message_creation() {
    let msg = ForwardMessage {
        source: MessageSource::Mqtt,
        source_id: 1,
        topic: "test/topic".to_string(),
        payload: b"hello".to_vec(),
    };

    assert_eq!(msg.source, MessageSource::Mqtt);
    assert_eq!(msg.topic, "test/topic");
    assert_eq!(msg.payload, b"hello");
}

#[test]
fn test_bridge_worker_creation() {
    let worker = BridgeWorker::new();
    assert!(!worker.is_running());
}
