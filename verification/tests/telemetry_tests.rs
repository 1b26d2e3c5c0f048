use zeromqtt::bridge::worker::{route_message, ForwardMessage, MessageSource};
use zeromqtt::models::{EndpointType, MappingDirection, MessageStats, TopicMapping};
use zeromqtt::telemetry::metrics::count_route;
use zeromqtt::telemetry::{Metrics, LATENCY_CAPACITY};

#[test]
fn test_metrics_counters() {
    let mut m = Metrics::new();
    m.record_mqtt_received();
    m.record_mqtt_received();
    m.record_mqtt_sent();

    assert_eq!(m.mqtt_messages_received(), 2);
    assert_eq!(m.mqtt_messages_sent(), 1);
}

#[test]
fn test_prometheus_output() {
    let mut m = Metrics::new();
    m.record_mqtt_sent();
    m.record_zmq_sent();

    let output = m.render_prometheus(0);
    assert!(output.contains("bridge_mqtt_messages_sent_total 1"));
    assert!(output.contains("bridge_zmq_messages_sent_total 1"));
}

#[test]
fn new_metrics_are_all_zero() {
    let m = Metrics::default();
    assert_eq!(m.mqtt_messages_received(), 0);
    assert_eq!(m.mqtt_messages_sent(), 0);
    assert_eq!(m.zmq_messages_received(), 0);
    assert_eq!(m.zmq_messages_sent(), 0);
    assert_eq!(m.errors_total(), 0);
    assert_eq!(m.latency_count(), 0);
    assert_eq!(m.total_forwarded(), 0);
    assert_eq!(m.latency_quantiles(), (0, 0, 0));
}

#[test]
fn each_recorder_moves_its_own_counter() {
    let mut m = Metrics::new();
    m.record_zmq_received();
    m.record_zmq_sent();
    m.record_zmq_sent();
    m.record_error();
    m.record_error();
    m.record_error();
    m.record_mqtt_sent();
    assert_eq!(m.mqtt_messages_received(), 0);
    assert_eq!(m.mqtt_messages_sent(), 1);
    assert_eq!(m.zmq_messages_received(), 1);
    assert_eq!(m.zmq_messages_sent(), 2);
    assert_eq!(m.errors_total(), 3);
    assert_eq!(m.total_forwarded(), 3);
}

#[test]
fn counters_never_fall_and_stop_at_the_top() {
    let mut m = Metrics::new();
    let top = MessageStats {
        mqtt_received: u64::MAX,
        mqtt_sent: u64::MAX - 1,
        zmq_received: 5,
        zmq_sent: 7,
        error_count: u64::MAX,
        queue_depth: 0,
    };
    m.record_counts(&top);
    let before = (
        m.mqtt_messages_received(),
        m.mqtt_messages_sent(),
        m.zmq_messages_received(),
        m.zmq_messages_sent(),
        m.errors_total(),
    );
    m.record_mqtt_received();
    m.record_mqtt_sent();
    m.record_mqtt_sent();
    m.record_zmq_received();
    m.record_zmq_sent();
    m.record_error();
    assert!(m.mqtt_messages_received() >= before.0);
    assert!(m.mqtt_messages_sent() >= before.1);
    assert!(m.zmq_messages_received() >= before.2);
    assert!(m.zmq_messages_sent() >= before.3);
    assert!(m.errors_total() >= before.4);
    assert_eq!(m.mqtt_messages_received(), u64::MAX);
    assert_eq!(m.mqtt_messages_sent(), u64::MAX);
    assert_eq!(m.zmq_messages_received(), 6);
    assert_eq!(m.zmq_messages_sent(), 8);
    assert_eq!(m.errors_total(), u64::MAX);
    assert_eq!(m.total_forwarded(), u64::MAX);
}

#[test]
fn reservoir_keeps_the_last_thousand_samples() {
    let mut m = Metrics::new();
    for i in 0..1000u64 {
        m.record_latency(i);
    }
    assert_eq!(m.latency_count(), LATENCY_CAPACITY);
    assert_eq!(m.latency_quantiles(), (500, 950, 990));
    m.record_latency(5000);
    assert_eq!(m.latency_count(), 1000);
    assert_eq!(m.latency_quantiles(), (501, 951, 991));
    for _ in 0..999 {
        m.record_latency(7);
    }
    assert_eq!(m.latency_count(), 1000);
    assert_eq!(m.latency_quantiles(), (7, 7, 7));
    m.record_latency(7);
    assert_eq!(m.latency_quantiles(), (7, 7, 7));
}

#[test]
fn quantiles_index_the_sorted_samples() {
    let mut m = Metrics::new();
    for sample in [30u64, 10, 50, 20, 40] {
        m.record_latency(sample);
    }
    assert_eq!(m.latency_quantiles(), (30, 50, 50));
    let mut one = Metrics::new();
    one.record_latency(1234);
    assert_eq!(one.latency_quantiles(), (1234, 1234, 1234));
    let mut two = Metrics::new();
    two.record_latency(9);
    two.record_latency(3);
    assert_eq!(two.latency_quantiles(), (9, 9, 9));
}

#[test]
fn scrape_text_is_exact() {
    let mut m = Metrics::new();
    m.record_mqtt_received();
    m.record_mqtt_received();
    m.record_mqtt_sent();
    m.record_zmq_received();
    m.record_zmq_sent();
    m.record_zmq_sent();
    m.record_zmq_sent();
    m.record_error();
    m.record_latency(1500);
    m.record_latency(2);
    m.record_latency(1_000_042);
    let expected = "# HELP bridge_mqtt_messages_received_total Total MQTT messages received\n\
# TYPE bridge_mqtt_messages_received_total counter\n\
bridge_mqtt_messages_received_total 2\n\
\n\
# HELP bridge_mqtt_messages_sent_total Total MQTT messages sent\n\
# TYPE bridge_mqtt_messages_sent_total counter\n\
bridge_mqtt_messages_sent_total 1\n\
\n\
# HELP bridge_zmq_messages_received_total Total ZeroMQ messages received\n\
# TYPE bridge_zmq_messages_received_total counter\n\
bridge_zmq_messages_received_total 1\n\
\n\
# HELP bridge_zmq_messages_sent_total Total ZeroMQ messages sent\n\
# TYPE bridge_zmq_messages_sent_total counter\n\
bridge_zmq_messages_sent_total 3\n\
\n\
# HELP bridge_errors_total Total errors encountered\n\
# TYPE bridge_errors_total counter\n\
bridge_errors_total 1\n\
\n\
# HELP bridge_uptime_seconds Uptime in seconds\n\
# TYPE bridge_uptime_seconds gauge\n\
bridge_uptime_seconds 12.35\n\
\n\
# HELP bridge_messages_forwarded_total Total messages forwarded\n\
# TYPE bridge_messages_forwarded_total counter\n\
bridge_messages_forwarded_total 4\n\
\n\
# HELP bridge_latency_milliseconds Message forwarding latency\n\
# TYPE bridge_latency_milliseconds summary\n\
bridge_latency_milliseconds{quantile=\"0.5\"} 1.500\n\
bridge_latency_milliseconds{quantile=\"0.95\"} 1000.042\n\
bridge_latency_milliseconds{quantile=\"0.99\"} 1000.042\n";
    assert_eq!(m.render_prometheus(12_345), expected);
}

#[test]
fn scrape_text_rounds_uptime_to_hundredths() {
    let m = Metrics::new();
    assert!(m.render_prometheus(0).contains("bridge_uptime_seconds 0.00\n"));
    assert!(m.render_prometheus(4).contains("bridge_uptime_seconds 0.00\n"));
    assert!(m.render_prometheus(5).contains("bridge_uptime_seconds 0.01\n"));
    assert!(m.render_prometheus(995).contains("bridge_uptime_seconds 1.00\n"));
    assert!(m.render_prometheus(61_090).contains("bridge_uptime_seconds 61.09\n"));
    assert!(m
        .render_prometheus(u64::MAX)
        .contains("bridge_uptime_seconds 18446744073709551.62\n"));
    assert!(m.render_prometheus(0).contains("bridge_latency_milliseconds{quantile=\"0.5\"} 0.000\n"));
}

fn rule(source_id: u32, target: (EndpointType, u32)) -> TopicMapping {
    TopicMapping {
        id: 1,
        source_endpoint_type: EndpointType::Mqtt,
        source_endpoint_id: source_id,
        target_endpoint_type: target.0,
        target_endpoint_id: target.1,
        source_topic: "t".to_string(),
        target_topic: "u".to_string(),
        direction: MappingDirection::MqttToZmq,
        enabled: true,
        description: None,
    }
}

#[test]
fn routing_counts_received_sent_and_errors() {
    let mappings = vec![
        rule(1, (EndpointType::Zmq, 2)),
        rule(1, (EndpointType::Zmq, 2)),
        rule(1, (EndpointType::Mqtt, 3)),
        rule(1, (EndpointType::Zmq, 99)),
    ];
    let msg = ForwardMessage {
        source: MessageSource::Mqtt,
        source_id: 1,
        topic: "t".to_string(),
        payload: Vec::new(),
    };
    let outcome = route_message(&msg, &mappings, &vec![3], &vec![2]);
    let counts = count_route(MessageSource::Mqtt, &outcome);
    assert_eq!(
        counts,
        MessageStats {
            mqtt_received: 1,
            mqtt_sent: 1,
            zmq_received: 0,
            zmq_sent: 2,
            error_count: 1,
            queue_depth: 0,
        }
    );
    let mut m = Metrics::new();
    m.record_counts(&counts);
    m.record_counts(&counts);
    assert_eq!(m.mqtt_messages_received(), 2);
    assert_eq!(m.mqtt_messages_sent(), 2);
    assert_eq!(m.zmq_messages_received(), 0);
    assert_eq!(m.zmq_messages_sent(), 4);
    assert_eq!(m.errors_total(), 2);
    let from_zmq = count_route(MessageSource::Zmq, &outcome);
    assert_eq!(from_zmq.mqtt_received, 0);
    assert_eq!(from_zmq.zmq_received, 1);
}
