use zeromqtt::bridge::worker::{ForwardMessage, MessageSource, MqttCommand, ZmqCommand};
use zeromqtt::bridge::{MqttAction, MqttWorker, ZmqAction, ZmqWorker};
use zeromqtt::models::{MqttConfig, ZmqConfig, ZmqSocketType};
use zeromqtt::mqtt::client::{connect_plan, server_uri, subscribe_request};
use zeromqtt::mqtt::MqttClient;
use zeromqtt::zeromq::client::{split_frame, RECEIVE_TIMEOUT_MS, SEPARATOR};
use zeromqtt::zeromq::{
    decode_frame, encode_frame, is_useful, socket_plan, FrameError, ZmqClient,
};

#[test]
fn frame_is_topic_space_payload() {
    assert_eq!(encode_frame("zmq.sensors.room1.temp", b"22.5"), b"zmq.sensors.room1.temp 22.5");
    assert_eq!(encode_frame("", b""), b" ");
    assert_eq!(encode_frame("t", b"a b"), b"t a b");
    assert_eq!(encode_frame("gr\u{fc}n", &[0, 255]), vec![b'g', b'r', 0xc3, 0xbc, b'n', 32, 0, 255]);
    assert_eq!(SEPARATOR, b' ');
}

#[test]
fn frame_splits_at_the_first_space() {
    let message = decode_frame(b"test/topic hello_world").unwrap();
    assert_eq!(message.topic, "test/topic");
    assert_eq!(message.payload, b"hello_world");
    let spaced = decode_frame(b"t a b ").unwrap();
    assert_eq!(spaced.topic, "t");
    assert_eq!(spaced.payload, b"a b ");
    let empty_topic = decode_frame(b" x").unwrap();
    assert_eq!(empty_topic.topic, "");
    assert_eq!(empty_topic.payload, b"x");
    let empty_payload = decode_frame(b"t ").unwrap();
    assert_eq!(empty_payload.topic, "t");
    assert!(empty_payload.payload.is_empty());
    assert_eq!(split_frame(b"ab cd"), Some((b"ab".to_vec(), b"cd".to_vec())));
    assert_eq!(split_frame(b"abcd"), None);
}

#[test]
fn frame_without_separator_is_refused() {
    assert_eq!(decode_frame(b"no-separator").unwrap_err(), FrameError::MissingSeparator);
    assert_eq!(decode_frame(b"").unwrap_err(), FrameError::MissingSeparator);
    assert_eq!(decode_frame(&[0xff, 0xfe]).unwrap_err(), FrameError::MissingSeparator);
}

#[test]
fn frame_with_a_topic_that_is_not_utf8_is_refused() {
    assert_eq!(decode_frame(&[0xff, 0xfe, b' ', b'x']).unwrap_err(), FrameError::BadTopic);
    assert_eq!(decode_frame(&[0xc3, b' ', 0xbc]).unwrap_err(), FrameError::BadTopic);
}

#[test]
fn frame_topic_is_decoded_from_utf8() {
    let message = decode_frame(&[b'g', b'r', 0xc3, 0xbc, b'n', b' ', 0xff]).unwrap();
    assert_eq!(message.topic, "gr\u{fc}n");
    assert_eq!(message.topic.chars().count(), 4);
    assert_eq!(message.payload, vec![0xff]);
}

#[test]
fn frame_round_trip_keeps_topic_and_payload() {
    let payload: Vec<u8> = (0..=255u8).collect();
    let message = decode_frame(&encode_frame("a/b/c", &payload)).unwrap();
    assert_eq!(message.topic, "a/b/c");
    assert_eq!(message.payload, payload);
}

fn zmq_config(socket_type: ZmqSocketType) -> ZmqConfig {
    ZmqConfig {
        id: Some(4),
        name: "z".to_string(),
        enabled: true,
        socket_type,
        bind_endpoint: Some("tcp://*:5555".to_string()),
        connect_endpoints: vec!["tcp://a:1".to_string(), "tcp://b:2".to_string()],
        high_water_mark: 1000,
        reconnect_interval_ms: 1000,
    }
}

#[test]
fn socket_setup_follows_the_kind() {
    let xpub = socket_plan(&zmq_config(ZmqSocketType::XPub));
    assert_eq!(xpub.socket_type, ZmqSocketType::XPub);
    assert_eq!(xpub.bind, Some("tcp://*:5555".to_string()));
    assert!(xpub.connect.is_empty());
    assert!(!xpub.subscribe_all);
    assert!(!xpub.receives);
    assert!(xpub.publishes);
    assert_eq!(xpub.send_hwm, 1000);
    assert_eq!(xpub.recv_hwm, 1000);
    assert_eq!(xpub.recv_timeout_ms, 100);
    assert_eq!(RECEIVE_TIMEOUT_MS, 100);

    let publisher = socket_plan(&zmq_config(ZmqSocketType::Pub));
    assert_eq!(publisher.bind, Some("tcp://*:5555".to_string()));
    assert!(publisher.connect.is_empty());
    assert!(!publisher.subscribe_all);
    assert!(!publisher.receives);
    assert!(publisher.publishes);

    let xsub = socket_plan(&zmq_config(ZmqSocketType::XSub));
    assert_eq!(xsub.bind, Some("tcp://*:5555".to_string()));
    assert_eq!(xsub.connect, vec!["tcp://a:1".to_string(), "tcp://b:2".to_string()]);
    assert!(xsub.subscribe_all);
    assert!(xsub.receives);
    assert!(xsub.publishes);

    let sub = socket_plan(&zmq_config(ZmqSocketType::Sub));
    assert_eq!(sub.bind, None);
    assert_eq!(sub.connect, vec!["tcp://a:1".to_string(), "tcp://b:2".to_string()]);
    assert!(sub.subscribe_all);
    assert!(sub.receives);
    assert!(!sub.publishes);
}

#[test]
fn socket_setup_without_bind_endpoint_binds_nothing() {
    let config = ZmqConfig { bind_endpoint: None, ..zmq_config(ZmqSocketType::XPub) };
    assert_eq!(socket_plan(&config).bind, None);
}

#[test]
fn endpoint_is_useful_with_a_bind_or_a_connect_endpoint() {
    let with = |socket_type: ZmqSocketType, bind: bool, connect: bool| ZmqConfig {
        socket_type,
        bind_endpoint: if bind { Some("tcp://*:1".to_string()) } else { None },
        connect_endpoints: if connect { vec!["tcp://a:1".to_string()] } else { Vec::new() },
        ..ZmqConfig::default()
    };
    assert!(is_useful(&with(ZmqSocketType::XPub, true, false)));
    assert!(!is_useful(&with(ZmqSocketType::XPub, false, true)));
    assert!(is_useful(&with(ZmqSocketType::Pub, true, true)));
    assert!(!is_useful(&with(ZmqSocketType::Pub, false, false)));
    assert!(is_useful(&with(ZmqSocketType::XSub, true, false)));
    assert!(is_useful(&with(ZmqSocketType::XSub, false, true)));
    assert!(!is_useful(&with(ZmqSocketType::XSub, false, false)));
    assert!(is_useful(&with(ZmqSocketType::Sub, false, true)));
    assert!(!is_useful(&with(ZmqSocketType::Sub, true, false)));
}

#[test]
fn high_water_mark_takes_the_low_bits_as_signed() {
    let plan = |hwm: u32| socket_plan(&ZmqConfig { high_water_mark: hwm, ..ZmqConfig::default() });
    assert_eq!(plan(0).send_hwm, 0);
    assert_eq!(plan(i32::MAX as u32).send_hwm, i32::MAX);
    assert_eq!(plan(i32::MAX as u32 + 1).send_hwm, i32::MIN);
    assert_eq!(plan(u32::MAX).recv_hwm, -1);
}

#[test]
fn zmq_client_publishes_unless_sub() {
    let mut xsub = ZmqClient::new(zmq_config(ZmqSocketType::XSub));
    assert!(!xsub.is_running());
    assert_eq!(xsub.publish("t", b"p"), Some(b"t p".to_vec()));
    assert!(xsub.start_receiver());
    assert!(xsub.is_running());
    assert!(xsub.init_socket().receives);
    xsub.stop();
    assert!(!xsub.is_running());

    let mut sub = ZmqClient::new(zmq_config(ZmqSocketType::Sub));
    assert_eq!(sub.publish("t", b"p"), None);
    assert!(sub.start_receiver());

    let mut xpub = ZmqClient::new(zmq_config(ZmqSocketType::XPub));
    assert_eq!(xpub.publish("t", b"p"), Some(b"t p".to_vec()));
    assert!(!xpub.start_receiver());
    assert!(!xpub.is_running());
}

#[test]
fn zmq_worker_forwards_frames_and_sends_publishes() {
    let worker = ZmqWorker::new(4, ZmqSocketType::XSub);
    assert!(worker.receives());
    let msg: ForwardMessage = worker.on_frame(b"a/b payload").unwrap();
    assert_eq!(msg.source, MessageSource::Zmq);
    assert_eq!(msg.source_id, 4);
    assert_eq!(msg.topic, "a/b");
    assert_eq!(msg.payload, b"payload");
    assert_eq!(worker.on_frame(b"nospace").unwrap_err(), FrameError::MissingSeparator);
    assert_eq!(worker.on_frame(&[0x80, b' ']).unwrap_err(), FrameError::BadTopic);
    match worker.on_command(ZmqCommand::Publish("x".to_string(), b"y".to_vec())) {
        ZmqAction::Send(frame) => assert_eq!(frame, b"x y"),
        ZmqAction::Reject => panic!("an XSUB socket publishes"),
    }
    assert!(worker.setup(&zmq_config(ZmqSocketType::XSub)).subscribe_all);
}

#[test]
fn zmq_sub_worker_rejects_publishes() {
    let worker = ZmqWorker::new(4, ZmqSocketType::Sub);
    assert!(worker.receives());
    assert!(matches!(
        worker.on_command(ZmqCommand::Publish("x".to_string(), b"y".to_vec())),
        ZmqAction::Reject
    ));
    assert!(!ZmqWorker::new(1, ZmqSocketType::XPub).receives());
    assert!(!ZmqWorker::new(1, ZmqSocketType::Pub).receives());
}

fn mqtt_config(use_tls: bool) -> MqttConfig {
    MqttConfig {
        id: Some(3),
        name: "Primary".to_string(),
        enabled: true,
        broker_url: "broker.example".to_string(),
        port: 8883,
        client_id: "bridge-1".to_string(),
        username: Some("u".to_string()),
        password: None,
        use_tls,
        keep_alive_seconds: 45,
        clean_session: false,
    }
}

#[test]
fn broker_uri_follows_tls() {
    assert_eq!(server_uri(&mqtt_config(true)), "ssl://broker.example:8883");
    assert_eq!(server_uri(&mqtt_config(false)), "tcp://broker.example:8883");
    assert_eq!(server_uri(&MqttConfig::default()), "tcp://localhost:1883");
    assert_eq!(server_uri(&MqttConfig { port: 0, ..MqttConfig::default() }), "tcp://localhost:0");
    assert_eq!(
        server_uri(&MqttConfig { port: 65535, ..MqttConfig::default() }),
        "tcp://localhost:65535"
    );
}

#[test]
fn connect_plan_takes_the_endpoint_settings() {
    let plan = connect_plan(&mqtt_config(true));
    assert_eq!(plan.server_uri, "ssl://broker.example:8883");
    assert_eq!(plan.client_id, "bridge-1");
    assert_eq!(plan.keep_alive_seconds, 45);
    assert!(!plan.clean_session);
    assert_eq!(plan.username, Some("u".to_string()));
    assert_eq!(plan.password, None);
    assert!(plan.use_tls);
    assert_eq!(plan.reconnect_min_seconds, 1);
    assert_eq!(plan.reconnect_max_seconds, 30);
}

#[test]
fn subscriptions_are_at_qos_one() {
    assert!(subscribe_request(&[]).is_none());
    let request = subscribe_request(&["a".to_string(), "b/#".to_string()]).unwrap();
    assert_eq!(request.topics, vec!["a".to_string(), "b/#".to_string()]);
    assert_eq!(request.qos, vec![1, 1]);
}

#[test]
fn mqtt_client_builds_requests() {
    let mut client = MqttClient::new(mqtt_config(false));
    assert!(!client.is_connected());
    assert_eq!(client.connect().server_uri, "tcp://broker.example:8883");
    client.set_connected(true);
    assert!(client.is_connected());
    assert!(client.subscribe(&[]).is_none());
    assert_eq!(client.subscribe(&["a".to_string()]).unwrap().qos, vec![1]);
    assert!(client.unsubscribe(&[]).is_none());
    assert_eq!(client.unsubscribe(&["a".to_string()]), Some(vec!["a".to_string()]));
    let received = client.receive("in", b"data");
    assert_eq!(received.topic, "in");
    assert_eq!(received.payload, b"data");
    let publish = client.publish("t", b"p", 1);
    assert_eq!(publish.topic, "t");
    assert_eq!(publish.payload, b"p");
    assert_eq!(publish.qos, 1);
    client.disconnect();
    assert!(!client.is_connected());
}

#[test]
fn mqtt_worker_reconciles_subscriptions() {
    let mut worker = MqttWorker::new(3, vec!["a".to_string(), "b".to_string()]);
    let initial = worker.on_connected().unwrap();
    assert_eq!(initial.topics, vec!["a".to_string(), "b".to_string()]);
    assert_eq!(initial.qos, vec![1, 1]);
    match worker.on_command(MqttCommand::Subscribe(vec!["a".to_string(), "c".to_string()])) {
        MqttAction::Resubscribe { subscribe, unsubscribe } => {
            let subscribe = subscribe.unwrap();
            assert_eq!(subscribe.topics, vec!["c".to_string()]);
            assert_eq!(subscribe.qos, vec![1]);
            assert_eq!(unsubscribe, vec!["b".to_string()]);
        }
        MqttAction::Publish(_) => panic!("a subscribe command publishes nothing"),
    }
    assert_eq!(worker.on_connected().unwrap().topics, vec!["a".to_string(), "c".to_string()]);
    match worker.on_command(MqttCommand::Subscribe(Vec::new())) {
        MqttAction::Resubscribe { subscribe, unsubscribe } => {
            assert!(subscribe.is_none());
            assert_eq!(unsubscribe, vec!["a".to_string(), "c".to_string()]);
        }
        MqttAction::Publish(_) => panic!("a subscribe command publishes nothing"),
    }
    assert!(worker.on_connected().is_none());
}

#[test]
fn mqtt_worker_publishes_at_qos_one_and_tags_messages() {
    let mut worker = MqttWorker::new(3, Vec::new());
    match worker.on_command(MqttCommand::Publish("t".to_string(), b"p".to_vec())) {
        MqttAction::Publish(request) => {
            assert_eq!(request.topic, "t");
            assert_eq!(request.payload, b"p");
            assert_eq!(request.qos, 1);
        }
        MqttAction::Resubscribe { .. } => panic!("a publish command changes no subscription"),
    }
    let msg = worker.on_message("in/topic".to_string(), b"data".to_vec());
    assert_eq!(msg.source, MessageSource::Mqtt);
    assert_eq!(msg.source_id, 3);
    assert_eq!(msg.topic, "in/topic");
    assert_eq!(msg.payload, b"data");
    assert_eq!(worker.connect(&mqtt_config(true)).server_uri, "ssl://broker.example:8883");
}
