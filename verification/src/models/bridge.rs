//! Bridge state, endpoint configurations, topic mappings and statistics.

use vstd::prelude::*;

verus! {

/// The supervisor's state.
#[derive(Debug, Clone, Copy, PartialEq, Eq, Structural)]
pub enum BridgeState {
    Running,
    Stopped,
    Error,
    Connecting,
}

/// Liveness of one side of the bridge.
#[derive(Debug, Clone, Copy, PartialEq, Eq, Structural)]
pub enum ConnectionStatus {
    Connected,
    Disconnected,
    Connecting,
    Error,
}

/// What a status query returns.
#[derive(Debug, Clone)]
pub struct BridgeStatus {
    pub state: BridgeState,
    pub uptime_seconds: u64,
    pub mqtt_status: ConnectionStatus,
    pub zmq_status: ConnectionStatus,
    pub version: String,
}

/// One MQTT broker connection.
#[derive(Debug, Clone)]
pub struct MqttConfig {
    pub id: Option<u32>,
    pub name: String,
    pub enabled: bool,
    pub broker_url: String,
    pub port: u16,
    pub client_id: String,
    pub username: Option<String>,
    pub password: Option<String>,
    pub use_tls: bool,
    pub keep_alive_seconds: u16,
    pub clean_session: bool,
}

impl Default for MqttConfig {
    fn default() -> (config: Self)
        ensures
            config.id is None,
            config.name@ == "Default"@,
            config.enabled,
            config.broker_url@ == "localhost"@,
            config.port == 1883,
            config.client_id@ == "zeromqtt-bridge"@,
            config.username is None,
            config.password is None,
            !config.use_tls,
            config.keep_alive_seconds == 60,
            config.clean_session,
    {
        MqttConfig {
            id: None,
            name: "Default".to_string(),
            enabled: true,
            broker_url: "localhost".to_string(),
            port: 1883,
            client_id: "zeromqtt-bridge".to_string(),
            username: None,
            password: None,
            use_tls: false,
            keep_alive_seconds: 60,
            clean_session: true,
        }
    }
}

/// The fields of an MQTT broker connection that a client supplies.
#[derive(Debug, Clone)]
pub struct CreateMqttConfigRequest {
    pub name: String,
    pub enabled: bool,
    pub broker_url: String,
    pub port: u16,
    pub client_id: String,
    pub username: Option<String>,
    pub password: Option<String>,
    pub use_tls: bool,
    pub keep_alive_seconds: u16,
    pub clean_session: bool,
}

/// The kind of a ZeroMQ socket.
#[derive(Debug, Clone, Copy, PartialEq, Eq, Structural)]
pub enum ZmqSocketType {
    /// Binds and serves subscribers.
    XPub,
    /// Binds and connects to publishers.
    XSub,
    /// Plain publisher.
    Pub,
    /// Plain subscriber.
    Sub,
}

impl Default for ZmqSocketType {
    fn default() -> (kind: Self)
        ensures
            kind == ZmqSocketType::XPub,
    {
        ZmqSocketType::XPub
    }
}

/// One ZeroMQ socket.
#[derive(Debug, Clone)]
pub struct ZmqConfig {
    pub id: Option<u32>,
    pub name: String,
    pub enabled: bool,
    pub socket_type: ZmqSocketType,
    pub bind_endpoint: Option<String>,
    pub connect_endpoints: Vec<String>,
    pub high_water_mark: u32,
    pub reconnect_interval_ms: u32,
}

impl Default for ZmqConfig {
    fn default() -> (config: Self)
        ensures
            config.id is None,
            config.name@ == "Default"@,
            config.enabled,
            config.socket_type == ZmqSocketType::XPub,
            config.bind_endpoint matches Some(endpoint) && endpoint@ == "tcp://*:5555"@,
            config.connect_endpoints@.len() == 0,
            config.high_water_mark == 1000,
            config.reconnect_interval_ms == 1000,
    {
        ZmqConfig {
            id: None,
            name: "Default".to_string(),
            enabled: true,
            socket_type: ZmqSocketType::XPub,
            bind_endpoint: Some("tcp://*:5555".to_string()),
            connect_endpoints: Vec::new(),
            high_water_mark: 1000,
            reconnect_interval_ms: 1000,
        }
    }
}

/// The fields of a ZeroMQ socket that a client supplies.
#[derive(Debug, Clone)]
pub struct CreateZmqConfigRequest {
    pub name: String,
    pub enabled: bool,
    pub socket_type: ZmqSocketType,
    pub bind_endpoint: Option<String>,
    pub connect_endpoints: Vec<String>,
    pub high_water_mark: u32,
    pub reconnect_interval_ms: u32,
}

/// The family an endpoint belongs to.
#[derive(Debug, Clone, Copy, PartialEq, Eq, Structural)]
pub enum EndpointType {
    Mqtt,
    Zmq,
}

/// The direction a mapping is shown with. Advisory: routing goes by the
/// mapping's source and target endpoints alone.
#[derive(Debug, Clone, Copy, PartialEq, Eq, Structural)]
pub enum MappingDirection {
    MqttToZmq,
    ZmqToMqtt,
    MqttToMqtt,
    ZmqToZmq,
    Bidirectional,
}

/// A rule that forwards the messages of one endpoint to another, rewriting
/// the topic.
#[derive(Debug, Clone)]
pub struct TopicMapping {
    pub id: u32,
    pub source_endpoint_type: EndpointType,
    pub source_endpoint_id: u32,
    pub target_endpoint_type: EndpointType,
    pub target_endpoint_id: u32,
    /// The pattern that a source topic has to match.
    pub source_topic: String,
    /// The template of the target topic.
    pub target_topic: String,
    pub direction: MappingDirection,
    pub enabled: bool,
    pub description: Option<String>,
}

/// The fields of a mapping that a client supplies.
#[derive(Debug)]
pub struct CreateMappingRequest {
    pub source_endpoint_type: EndpointType,
    pub source_endpoint_id: u32,
    pub target_endpoint_type: EndpointType,
    pub target_endpoint_id: u32,
    pub source_topic: String,
    pub target_topic: String,
    pub direction: MappingDirection,
    pub enabled: bool,
    pub description: Option<String>,
}

/// Cumulative message counters, with the depth of the inbound queue.
#[derive(Debug, Clone, Copy, PartialEq, Eq, Structural)]
pub struct MessageStats {
    /// Messages received from MQTT brokers.
    pub mqtt_received: u64,
    /// Messages published to MQTT brokers.
    pub mqtt_sent: u64,
    /// Messages received from ZeroMQ sockets.
    pub zmq_received: u64,
    /// Messages published to ZeroMQ sockets.
    pub zmq_sent: u64,
    /// Errors counted.
    pub error_count: u64,
    /// Messages waiting in the inbound queue.
    pub queue_depth: u32,
}

impl Default for MessageStats {
    fn default() -> (stats: Self)
        ensures
            stats.mqtt_received == 0,
            stats.mqtt_sent == 0,
            stats.zmq_received == 0,
            stats.zmq_sent == 0,
            stats.error_count == 0,
            stats.queue_depth == 0,
    {
        MessageStats {
            mqtt_received: 0,
            mqtt_sent: 0,
            zmq_received: 0,
            zmq_sent: 0,
            error_count: 0,
            queue_depth: 0,
        }
    }
}

} // verus!
