use zeromqtt::api::auth::login_response;
use zeromqtt::api::status::chart_timestamps;
use zeromqtt::api::users::{
    check_change_password, check_create_user, check_delete_user, check_name_is_free,
    check_name_is_new, check_update_user, found_user, is_blank, password_changed, user_deleted,
};
use zeromqtt::auth::{bearer_token, claims_at, new_claims, validate_credentials};
use zeromqtt::bridge::{validate_pattern, PatternError};
use zeromqtt::config::AppConfig;
use zeromqtt::db::repository::{
    column_u16, column_u32, column_u64, direction_name, endpoint_type_name, endpoints_column,
    flag_column, mapping_of, mqtt_config_of, parse_direction, parse_endpoint_type,
    parse_endpoints, parse_socket_type, pattern_error_message, socket_type_name, zmq_config_of,
};
use zeromqtt::db::{validate_mapping, MessageStatsRow, MqttConfigRow, TopicMappingRow, ZmqConfigRow};
use zeromqtt::error::AppError;
use zeromqtt::mock::MockBridgeStore;
use zeromqtt::models::{
    BridgeState, ChangePasswordRequest, ConnectionStatus, CreateMappingRequest,
    CreateMqttConfigRequest, CreateUserRequest, EndpointType, MappingDirection, MessageStats,
    MqttConfig, TopicMapping, UpdateUserRequest, UserRecord, UserResponse, ZmqConfig,
    ZmqSocketType,
};

fn request(source_topic: &str) -> CreateMappingRequest {
    CreateMappingRequest {
        source_endpoint_type: EndpointType::Zmq,
        source_endpoint_id: 5,
        target_endpoint_type: EndpointType::Mqtt,
        target_endpoint_id: 6,
        source_topic: source_topic.to_string(),
        target_topic: "out".to_string(),
        direction: MappingDirection::ZmqToMqtt,
        enabled: true,
        description: Some("d".to_string()),
    }
}

#[test]
fn well_formed_patterns_are_accepted() {
    for pattern in ["a", "a/b", "+", "#", "a/+/c", "a/#", "+/+/#", "", "a//b", "/"] {
        assert_eq!(validate_pattern(pattern), Ok(()), "{}", pattern);
    }
}

#[test]
fn hash_before_the_end_is_rejected() {
    assert_eq!(validate_pattern("a/#/b"), Err(PatternError::MisplacedMultiLevel { token: 1 }));
    assert_eq!(validate_pattern("#/a"), Err(PatternError::MisplacedMultiLevel { token: 0 }));
    assert_eq!(validate_pattern("#/#"), Err(PatternError::MisplacedMultiLevel { token: 0 }));
    assert_eq!(validate_pattern("a/b/#/"), Err(PatternError::MisplacedMultiLevel { token: 2 }));
}

#[test]
fn wildcard_inside_a_token_is_rejected() {
    assert_eq!(validate_pattern("a+b"), Err(PatternError::EmbeddedWildcard { token: 0 }));
    assert_eq!(validate_pattern("x/a+b/c"), Err(PatternError::EmbeddedWildcard { token: 1 }));
    assert_eq!(validate_pattern("a/b#"), Err(PatternError::EmbeddedWildcard { token: 1 }));
    assert_eq!(validate_pattern("a#/b"), Err(PatternError::EmbeddedWildcard { token: 0 }));
    assert_eq!(validate_pattern("++"), Err(PatternError::EmbeddedWildcard { token: 0 }));
    assert_eq!(validate_pattern("a/+#"), Err(PatternError::EmbeddedWildcard { token: 1 }));
    assert_eq!(validate_pattern("a+/#/b"), Err(PatternError::EmbeddedWildcard { token: 0 }));
}

#[test]
fn mapping_with_invalid_pattern_is_a_bad_request() {
    assert!(validate_mapping(&request("a/+/#")).is_ok());
    match validate_mapping(&request("a/#/b")) {
        Err(AppError::BadRequest(message)) => assert_eq!(
            message,
            "invalid topic pattern: '#' is only valid as the final token, found at token 1"
        ),
        other => panic!("{:?}", other),
    }
    match validate_mapping(&request("x/y/a+b")) {
        Err(AppError::BadRequest(message)) => assert_eq!(
            message,
            "invalid topic pattern: '+' and '#' must stand as whole tokens, found inside token 2"
        ),
        other => panic!("{:?}", other),
    }
    assert_eq!(
        pattern_error_message(PatternError::MisplacedMultiLevel { token: 12 }),
        "invalid topic pattern: '#' is only valid as the final token, found at token 12"
    );
}

#[test]
fn stored_names_are_read_and_written() {
    for kind in [ZmqSocketType::XPub, ZmqSocketType::XSub, ZmqSocketType::Pub, ZmqSocketType::Sub] {
        assert_eq!(parse_socket_type(socket_type_name(kind)), kind);
    }
    assert_eq!(socket_type_name(ZmqSocketType::XPub), "xpub");
    assert_eq!(socket_type_name(ZmqSocketType::XSub), "xsub");
    assert_eq!(socket_type_name(ZmqSocketType::Pub), "pub");
    assert_eq!(socket_type_name(ZmqSocketType::Sub), "sub");
    assert_eq!(parse_socket_type("XSUB"), ZmqSocketType::XPub);
    assert_eq!(parse_socket_type(""), ZmqSocketType::XPub);
    for family in [EndpointType::Mqtt, EndpointType::Zmq] {
        assert_eq!(parse_endpoint_type(endpoint_type_name(family)), family);
    }
    assert_eq!(endpoint_type_name(EndpointType::Mqtt), "mqtt");
    assert_eq!(endpoint_type_name(EndpointType::Zmq), "zmq");
    assert_eq!(parse_endpoint_type("other"), EndpointType::Mqtt);
    for direction in [
        MappingDirection::MqttToZmq,
        MappingDirection::ZmqToMqtt,
        MappingDirection::MqttToMqtt,
        MappingDirection::ZmqToZmq,
        MappingDirection::Bidirectional,
    ] {
        assert_eq!(parse_direction(direction_name(direction)), direction);
    }
    assert_eq!(direction_name(MappingDirection::MqttToZmq), "mqtt_to_zmq");
    assert_eq!(direction_name(MappingDirection::ZmqToMqtt), "zmq_to_mqtt");
    assert_eq!(direction_name(MappingDirection::MqttToMqtt), "mqtt_to_mqtt");
    assert_eq!(direction_name(MappingDirection::ZmqToZmq), "zmq_to_zmq");
    assert_eq!(direction_name(MappingDirection::Bidirectional), "bidirectional");
    assert_eq!(parse_direction("sideways"), MappingDirection::MqttToZmq);
}

#[test]
fn columns_keep_their_low_bits() {
    assert_eq!(column_u32(0), 0);
    assert_eq!(column_u32(7), 7);
    assert_eq!(column_u32(u32::MAX as i64), u32::MAX);
    assert_eq!(column_u32(u32::MAX as i64 + 1), 0);
    assert_eq!(column_u32(-1), u32::MAX);
    assert_eq!(column_u32(i64::MIN), 0);
    assert_eq!(column_u16(1883), 1883);
    assert_eq!(column_u16(65536 + 5), 5);
    assert_eq!(column_u16(-1), u16::MAX);
    assert_eq!(column_u64(0), 0);
    assert_eq!(column_u64(i64::MAX), i64::MAX as u64);
    assert_eq!(column_u64(-1), u64::MAX);
    assert_eq!(column_u64(i64::MIN), 1u64 << 63);
    assert_eq!(flag_column(true), 1);
    assert_eq!(flag_column(false), 0);
}

#[test]
fn endpoint_lists_are_joined_with_commas() {
    assert_eq!(parse_endpoints(&None), Vec::<String>::new());
    assert_eq!(parse_endpoints(&Some(String::new())), Vec::<String>::new());
    assert_eq!(
        parse_endpoints(&Some("tcp://a:1,tcp://b:2".to_string())),
        vec!["tcp://a:1".to_string(), "tcp://b:2".to_string()]
    );
    assert_eq!(
        parse_endpoints(&Some(",x,,y,".to_string())),
        vec!["x".to_string(), "y".to_string()]
    );
    assert_eq!(endpoints_column(&Vec::new()), "");
    assert_eq!(endpoints_column(&vec!["x".to_string()]), "x");
    assert_eq!(endpoints_column(&vec!["x".to_string(), "y".to_string()]), "x,y");
    let endpoints = vec!["tcp://a:1".to_string(), "ipc://b".to_string()];
    assert_eq!(parse_endpoints(&Some(endpoints_column(&endpoints))), endpoints);
}

#[test]
fn rows_become_configurations() {
    let config = MqttConfig::from(MqttConfigRow {
        id: 3,
        name: "Primary".to_string(),
        enabled: 1,
        broker_url: "h".to_string(),
        port: 8883,
        client_id: "c".to_string(),
        username: Some("u".to_string()),
        password: None,
        use_tls: 2,
        keep_alive_seconds: 30,
        clean_session: 0,
    });
    assert_eq!(config.id, Some(3));
    assert_eq!(config.name, "Primary");
    assert!(config.enabled);
    assert_eq!(config.broker_url, "h");
    assert_eq!(config.port, 8883);
    assert_eq!(config.client_id, "c");
    assert_eq!(config.username, Some("u".to_string()));
    assert_eq!(config.password, None);
    assert!(config.use_tls);
    assert_eq!(config.keep_alive_seconds, 30);
    assert!(!config.clean_session);

    let zmq = zmq_config_of(ZmqConfigRow {
        id: 9,
        name: "XSUB Proxy".to_string(),
        enabled: 0,
        socket_type: "xsub".to_string(),
        bind_endpoint: Some("tcp://*:5556".to_string()),
        connect_endpoints: Some("tcp://a:1,,tcp://b:2".to_string()),
        high_water_mark: 1000,
        reconnect_interval_ms: 250,
    });
    assert_eq!(zmq.id, Some(9));
    assert_eq!(zmq.name, "XSUB Proxy");
    assert!(!zmq.enabled);
    assert_eq!(zmq.socket_type, ZmqSocketType::XSub);
    assert_eq!(zmq.bind_endpoint, Some("tcp://*:5556".to_string()));
    assert_eq!(zmq.connect_endpoints, vec!["tcp://a:1".to_string(), "tcp://b:2".to_string()]);
    assert_eq!(zmq.high_water_mark, 1000);
    assert_eq!(zmq.reconnect_interval_ms, 250);

    let mapping = TopicMapping::from(TopicMappingRow {
        id: 11,
        source_endpoint_type: "zmq".to_string(),
        source_endpoint_id: 2,
        target_endpoint_type: "mqtt".to_string(),
        target_endpoint_id: 1,
        source_topic: "ping".to_string(),
        target_topic: "pong".to_string(),
        direction: "zmq_to_mqtt".to_string(),
        enabled: 1,
        description: None,
    });
    assert_eq!(mapping.id, 11);
    assert_eq!(mapping.source_endpoint_type, EndpointType::Zmq);
    assert_eq!(mapping.source_endpoint_id, 2);
    assert_eq!(mapping.target_endpoint_type, EndpointType::Mqtt);
    assert_eq!(mapping.target_endpoint_id, 1);
    assert_eq!(mapping.source_topic, "ping");
    assert_eq!(mapping.target_topic, "pong");
    assert_eq!(mapping.direction, MappingDirection::ZmqToMqtt);
    assert!(mapping.enabled);

    let stats = MessageStats::from(MessageStatsRow {
        mqtt_received: 1,
        mqtt_sent: 2,
        zmq_received: 3,
        zmq_sent: 4,
        error_count: -1,
        start_time: 99,
    });
    assert_eq!(
        stats,
        MessageStats {
            mqtt_received: 1,
            mqtt_sent: 2,
            zmq_received: 3,
            zmq_sent: 4,
            error_count: u64::MAX,
            queue_depth: 0,
        }
    );
    assert_eq!(MessageStats::default().mqtt_received, 0);
}

#[test]
fn requests_become_stored_values() {
    let mapping = mapping_of(8, &request("in/#"));
    assert_eq!(mapping.id, 8);
    assert_eq!(mapping.source_endpoint_type, EndpointType::Zmq);
    assert_eq!(mapping.source_endpoint_id, 5);
    assert_eq!(mapping.target_endpoint_type, EndpointType::Mqtt);
    assert_eq!(mapping.target_endpoint_id, 6);
    assert_eq!(mapping.source_topic, "in/#");
    assert_eq!(mapping.target_topic, "out");
    assert_eq!(mapping.direction, MappingDirection::ZmqToMqtt);
    assert!(mapping.enabled);
    assert_eq!(mapping.description, Some("d".to_string()));
    let config = mqtt_config_of(
        2,
        &CreateMqttConfigRequest {
            name: "n".to_string(),
            enabled: false,
            broker_url: "b".to_string(),
            port: 1,
            client_id: "c".to_string(),
            username: None,
            password: Some("p".to_string()),
            use_tls: true,
            keep_alive_seconds: 9,
            clean_session: true,
        },
    );
    assert_eq!(config.id, Some(2));
    assert_eq!(config.name, "n");
    assert!(!config.enabled);
    assert_eq!(config.password, Some("p".to_string()));
    assert_eq!(config.keep_alive_seconds, 9);
}

#[test]
fn defaults_are_as_documented() {
    let config = AppConfig::new();
    assert_eq!(config.server.host, "0.0.0.0");
    assert_eq!(config.server.port, 3000);
    assert_eq!(config.jwt.expiration_hours, 24);
    assert_eq!(config.jwt.secret, "zeromqtt-super-secret-key-change-in-production");
    assert_eq!(config.credentials.username, "zeromqtt");
    assert_eq!(config.credentials.password, "zeromqtt");
    let mqtt = MqttConfig::default();
    assert_eq!(mqtt.id, None);
    assert_eq!(mqtt.name, "Default");
    assert_eq!(mqtt.broker_url, "localhost");
    assert_eq!(mqtt.port, 1883);
    assert_eq!(mqtt.client_id, "zeromqtt-bridge");
    assert_eq!(mqtt.keep_alive_seconds, 60);
    assert!(mqtt.enabled && mqtt.clean_session && !mqtt.use_tls);
    let zmq = ZmqConfig::default();
    assert_eq!(zmq.socket_type, ZmqSocketType::XPub);
    assert_eq!(zmq.bind_endpoint, Some("tcp://*:5555".to_string()));
    assert!(zmq.connect_endpoints.is_empty());
    assert_eq!(zmq.high_water_mark, 1000);
    assert_eq!(zmq.reconnect_interval_ms, 1000);
    assert_eq!(ZmqSocketType::default(), ZmqSocketType::XPub);
}

#[test]
fn credentials_are_compared_whole() {
    let config = AppConfig::new();
    assert!(validate_credentials("zeromqtt", "zeromqtt", &config));
    assert!(!validate_credentials("zeromqtt", "zeromqtT", &config));
    assert!(!validate_credentials("zeromqt", "zeromqtt", &config));
    assert!(!validate_credentials("", "", &config));
    assert!(!validate_credentials("zeromqtt", "zeromqtt ", &config));
}

#[test]
fn claims_expire_after_the_configured_hours() {
    let claims = claims_at("alice", 1_700_000_000, 24).unwrap();
    assert_eq!(claims.sub, "alice");
    assert_eq!(claims.iat, 1_700_000_000);
    assert_eq!(claims.exp, 1_700_086_400);
    assert_eq!(claims_at("a", 10, 0).unwrap().exp, 10);
    assert_eq!(claims_at("a", 10_000, -1).unwrap().exp, 6_400);
    assert!(matches!(claims_at("a", 0, i64::MAX), Err(AppError::TokenError(_))));
    assert!(matches!(claims_at("a", i64::MAX, 1), Err(AppError::TokenError(_))));
    assert!(matches!(claims_at("a", i64::MIN, -1), Err(AppError::TokenError(_))));
    let now = new_claims("bob", &AppConfig::new()).unwrap();
    assert_eq!(now.sub, "bob");
    assert_eq!(now.exp - now.iat, 86_400);
    assert!(now.iat > 1_600_000_000);
}

#[test]
fn login_answer_is_a_bearer_token() {
    let response = login_response("tok".to_string(), 24).unwrap();
    assert_eq!(response.token, "tok");
    assert_eq!(response.token_type, "Bearer");
    assert_eq!(response.expires_in, 86_400);
    assert!(matches!(login_response("tok".to_string(), i64::MAX), Err(AppError::TokenError(_))));
}

#[test]
fn bearer_token_follows_the_prefix() {
    assert_eq!(bearer_token(Some("Bearer abc.def")).unwrap(), "abc.def");
    assert_eq!(bearer_token(Some("Bearer ")).unwrap(), "");
    assert_eq!(bearer_token(Some("Bearer  x")).unwrap(), " x");
    match bearer_token(None) {
        Err(AppError::AuthError(message)) => assert_eq!(message, "Missing authorization header"),
        other => panic!("{:?}", other),
    }
    for header in ["", "Bearer", "bearer abc", "Basic abc", "Bearerabc", " Bearer abc"] {
        match bearer_token(Some(header)) {
            Err(AppError::AuthError(message)) => {
                assert_eq!(message, "Invalid authorization header format")
            }
            other => panic!("{:?}", other),
        }
    }
}

#[test]
fn errors_answer_with_status_kind_and_message() {
    let cases = [
        (AppError::AuthError("m".to_string()), 401, "auth_error", "Authentication failed: m"),
        (AppError::TokenError("m".to_string()), 401, "token_error", "Invalid token: m"),
        (AppError::NotFound("m".to_string()), 404, "not_found", "Not found: m"),
        (AppError::BadRequest("m".to_string()), 400, "bad_request", "Bad request: m"),
        (AppError::DbError("m".to_string()), 500, "db_error", "Database error: m"),
        (AppError::Internal("m".to_string()), 500, "internal_error", "Internal server error: m"),
    ];
    for (error, status, kind, text) in cases {
        assert_eq!(error.status_code(), status);
        assert_eq!(error.kind(), kind);
        assert_eq!(error.message(), "m");
        assert_eq!(error.describe(), text);
        let (code, body) = error.response();
        assert_eq!(code, status);
        assert_eq!(body.error, kind);
        assert_eq!(body.message, "m");
    }
}

fn user(id: u32, is_default: bool) -> UserRecord {
    UserRecord {
        id,
        username: "u".to_string(),
        password_hash: "h".to_string(),
        is_default,
        created_at: 1,
        updated_at: 2,
    }
}

fn bad_request_message(result: Result<(), AppError>) -> String {
    match result {
        Err(AppError::BadRequest(message)) => message,
        other => panic!("{:?}", other),
    }
}

fn not_found_message<T: std::fmt::Debug>(result: Result<T, AppError>) -> String {
    match result {
        Err(AppError::NotFound(message)) => message,
        other => panic!("{:?}", other),
    }
}

#[test]
fn user_requests_are_checked() {
    assert!(is_blank(""));
    assert!(is_blank(" \t\n\u{a0}\u{3000}\u{2003}"));
    assert!(!is_blank(" a "));
    assert!(!is_blank("\u{200b}"));
    for c in ['\u{9}', '\u{d}', ' ', '\u{85}', '\u{1680}', '\u{2000}', '\u{200a}', '\u{2028}',
        '\u{2029}', '\u{202f}', '\u{205f}', '\u{3000}', 'a', '\u{8}', '\u{e}', '\u{200b}',
        '\u{180e}', '\u{feff}']
    {
        assert_eq!(is_blank(&c.to_string()), c.is_whitespace(), "{:?}", c);
    }
    let create = |username: &str, password: &str| {
        check_create_user(&CreateUserRequest {
            username: username.to_string(),
            password: password.to_string(),
        })
    };
    assert!(create("alice", "secret").is_ok());
    assert!(create("alice", "\u{fc}\u{fc}\u{fc}").is_ok());
    assert_eq!(bad_request_message(create("  ", "secret")), "Username cannot be empty");
    assert_eq!(bad_request_message(create("", "x")), "Username cannot be empty");
    assert_eq!(
        bad_request_message(create("alice", "12345")),
        "Password must be at least 6 characters"
    );
    assert!(check_name_is_new("alice", None).is_ok());
    assert_eq!(
        bad_request_message(check_name_is_new("alice", Some(&user(1, false)))),
        "Username 'alice' already exists"
    );
    assert!(check_update_user(&UpdateUserRequest { username: "bob".to_string() }).is_ok());
    assert_eq!(
        bad_request_message(check_update_user(&UpdateUserRequest { username: "\t".to_string() })),
        "Username cannot be empty"
    );
    assert!(check_name_is_free(1, "bob", None).is_ok());
    assert!(check_name_is_free(1, "bob", Some(&user(1, false))).is_ok());
    assert_eq!(
        bad_request_message(check_name_is_free(2, "bob", Some(&user(1, false)))),
        "Username 'bob' already taken"
    );
    let change = |new_password: &str| {
        check_change_password(&ChangePasswordRequest {
            current_password: None,
            new_password: new_password.to_string(),
        })
    };
    assert!(change("123456").is_ok());
    assert_eq!(
        bad_request_message(change("12345")),
        "New password must be at least 6 characters"
    );
    assert!(password_changed(true).is_ok());
    assert_eq!(
        bad_request_message(password_changed(false)),
        "Invalid current password or user not found"
    );
    assert!(check_delete_user(7, Some(&user(7, false))).is_ok());
    assert_eq!(
        bad_request_message(check_delete_user(7, Some(&user(7, true)))),
        "Cannot delete default user"
    );
    assert_eq!(not_found_message(check_delete_user(7, None)), "User with id 7 not found");
    assert!(user_deleted(7, true).is_ok());
    assert_eq!(not_found_message(user_deleted(4294967295, false)), "User with id 4294967295 not found");
    assert_eq!(found_user(3, Some(user(3, false))).unwrap().id, 3);
    assert_eq!(not_found_message(found_user(3, None)), "User with id 3 not found");
    let shown = UserResponse::from(user(5, true));
    assert_eq!(shown.id, 5);
    assert_eq!(shown.username, "u");
    assert!(shown.is_default);
    assert_eq!(shown.created_at, 1);
    assert_eq!(shown.updated_at, 2);
}

#[test]
fn chart_has_a_point_for_each_of_the_last_thirty_minutes() {
    let times = chart_timestamps(10_000);
    assert_eq!(times.len(), 30);
    assert_eq!(times[0], 10_000 - 29 * 60);
    assert_eq!(times[1], 10_000 - 28 * 60);
    assert_eq!(times[29], 10_000);
    let early = chart_timestamps(i64::MIN + 60);
    assert_eq!(early[0], i64::MIN);
    assert_eq!(early[27], i64::MIN);
    assert_eq!(early[28], i64::MIN);
    assert_eq!(early[29], i64::MIN + 60);
}

#[test]
fn mock_store_starts_with_three_mappings() {
    let store = MockBridgeStore::starting_at(1_000);
    let mappings = store.get_mappings();
    assert_eq!(mappings.len(), 3);
    assert_eq!(mappings[0].id, 1);
    assert_eq!(mappings[0].source_topic, "sensors/#");
    assert_eq!(mappings[0].target_topic, "zmq.sensors");
    assert_eq!(mappings[0].direction, MappingDirection::MqttToZmq);
    assert!(mappings[0].enabled);
    assert_eq!(mappings[0].description, Some("Forward all sensor data to ZeroMQ".to_string()));
    assert_eq!(mappings[1].id, 2);
    assert_eq!(mappings[1].source_topic, "commands");
    assert_eq!(mappings[1].target_topic, "mqtt/commands");
    assert_eq!(mappings[1].direction, MappingDirection::ZmqToMqtt);
    assert_eq!(mappings[1].source_endpoint_type, EndpointType::Zmq);
    assert_eq!(mappings[2].id, 3);
    assert_eq!(mappings[2].source_topic, "telemetry/+/status");
    assert_eq!(mappings[2].target_topic, "telemetry.status");
    assert_eq!(mappings[2].direction, MappingDirection::Bidirectional);
    assert!(!mappings[2].enabled);
    assert_eq!(MockBridgeStore::default_mappings().len(), 3);
    assert_eq!(store.get_mqtt_config().name, "Default");
    assert_eq!(store.get_zmq_config().socket_type, ZmqSocketType::XPub);
    let status = store.status_at(1_090, "0.1.0");
    assert_eq!(status.state, BridgeState::Running);
    assert_eq!(status.uptime_seconds, 90);
    assert_eq!(status.mqtt_status, ConnectionStatus::Connected);
    assert_eq!(status.zmq_status, ConnectionStatus::Connected);
    assert_eq!(status.version, "0.1.0");
    assert_eq!(store.status_at(900, "0.1.0").uptime_seconds, 0);
    let fresh = MockBridgeStore::new();
    assert_eq!(fresh.get_status("v").state, BridgeState::Running);
    assert!(fresh.get_status("v").uptime_seconds < 60);
    assert_eq!(MockBridgeStore::default().get_mappings().len(), 3);
}

#[test]
fn mock_store_adds_updates_and_deletes_mappings() {
    let mut store = MockBridgeStore::starting_at(0);
    let added = store.add_mapping(&request("in/+"));
    assert_eq!(added.id, 4);
    assert_eq!(added.source_topic, "in/+");
    assert_eq!(store.add_mapping(&request("in/#")).id, 5);
    let ids: Vec<u32> = store.get_mappings().iter().map(|m| m.id).collect();
    assert_eq!(ids, vec![1, 2, 3, 4, 5]);
    let updated = store.update_mapping(2, &request("changed")).unwrap();
    assert_eq!(updated.id, 2);
    assert_eq!(updated.source_topic, "changed");
    assert_eq!(store.get_mappings()[1].source_topic, "changed");
    assert_eq!(store.get_mappings()[1].target_topic, "out");
    assert_eq!(store.get_mappings().len(), 5);
    assert!(store.update_mapping(42, &request("x")).is_none());
    assert!(store.delete_mapping(3));
    let ids: Vec<u32> = store.get_mappings().iter().map(|m| m.id).collect();
    assert_eq!(ids, vec![1, 2, 4, 5]);
    assert!(!store.delete_mapping(3));
    assert_eq!(store.get_mappings().len(), 4);
    assert!(store.delete_mapping(1));
    assert!(store.delete_mapping(5));
    let ids: Vec<u32> = store.get_mappings().iter().map(|m| m.id).collect();
    assert_eq!(ids, vec![2, 4]);
    store.update_mqtt_config(MqttConfig { port: 1, ..MqttConfig::default() });
    assert_eq!(store.get_mqtt_config().port, 1);
    store.update_zmq_config(ZmqConfig { high_water_mark: 5, ..ZmqConfig::default() });
    assert_eq!(store.get_zmq_config().high_water_mark, 5);
}

#[test]
fn mock_store_statistics_grow_within_their_ranges() {
    let mut store = MockBridgeStore::starting_at(0);
    let exact = store.add_traffic(1, 2, 3, 4, 5);
    assert_eq!(
        exact,
        MessageStats {
            mqtt_received: 1,
            mqtt_sent: 2,
            zmq_received: 3,
            zmq_sent: 4,
            error_count: 0,
            queue_depth: 5,
        }
    );
    let mut before = exact;
    for _ in 0..200 {
        let after = store.get_stats();
        let grew = |from: u64, to: u64, low: u64, high: u64| from + low <= to && to < from + high;
        assert!(grew(before.mqtt_received, after.mqtt_received, 10, 50));
        assert!(grew(before.mqtt_sent, after.mqtt_sent, 5, 30));
        assert!(grew(before.zmq_received, after.zmq_received, 8, 40));
        assert!(grew(before.zmq_sent, after.zmq_sent, 10, 45));
        assert!(after.queue_depth < 100);
        assert_eq!(after.error_count, 0);
        before = after;
    }
    let top = store.add_traffic(u64::MAX, 0, 0, 0, 0);
    assert_eq!(top.mqtt_received, u64::MAX);
    assert_eq!(top.mqtt_sent, before.mqtt_sent);
}
