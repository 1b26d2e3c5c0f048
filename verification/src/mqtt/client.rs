//! What an MQTT client connects with, subscribes to and publishes.

use crate::models::MqttConfig;
use crate::text::{
    copy_optional, copy_strings, decimal_digits, optional_view, push_decimal, string_views,
};
use vstd::prelude::*;
use vstd::string::StringExecFns;

verus! {

/// The quality of service of every subscription and of every publish of the
/// bridge: at least once.
pub const QOS: i32 = 1;

/// The first delay before a lost connection is tried again, in seconds.
pub const RECONNECT_MIN_SECONDS: u64 = 1;

/// The longest delay before a lost connection is tried again, in seconds.
pub const RECONNECT_MAX_SECONDS: u64 = 30;

/// A message received from an MQTT broker.
#[derive(Debug, Clone)]
pub struct MqttMessage {
    pub topic: String,
    pub payload: Vec<u8>,
}

/// What a client connects with.
#[derive(Debug)]
pub struct ConnectPlan {
    pub server_uri: String,
    pub client_id: String,
    pub keep_alive_seconds: u64,
    pub clean_session: bool,
    pub username: Option<String>,
    pub password: Option<String>,
    pub use_tls: bool,
    /// The first delay of the automatic reconnect, in seconds.
    pub reconnect_min_seconds: u64,
    /// The longest delay of the automatic reconnect, in seconds.
    pub reconnect_max_seconds: u64,
}

/// Topics to subscribe to, each with its quality of service.
#[derive(Debug)]
pub struct SubscribeRequest {
    pub topics: Vec<String>,
    pub qos: Vec<i32>,
}

/// A message to publish.
#[derive(Debug)]
pub struct PublishRequest {
    pub topic: String,
    pub payload: Vec<u8>,
    pub qos: i32,
}

/// The URI of the broker of an endpoint: `ssl://host:port` with TLS,
/// `tcp://host:port` without.
pub open spec fn server_uri_text(config: MqttConfig) -> Seq<char> {
    (if config.use_tls {
        "ssl://"@
    } else {
        "tcp://"@
    }) + config.broker_url@ + ":"@ + decimal_digits(config.port as nat)
}

/// Builds the URI of the broker of an endpoint.
pub fn server_uri(config: &MqttConfig) -> (uri: String)
    ensures
        uri@ == server_uri_text(*config),
{
    let mut uri = String::new();
    if config.use_tls {
        uri.append("ssl://");
    } else {
        uri.append("tcp://");
    }
    uri.append(config.broker_url.as_str());
    uri.append(":");
    push_decimal(&mut uri, config.port as u64);
    assert(uri@ =~= server_uri_text(*config));
    uri
}

/// What a client of the endpoint connects with: the endpoint's own settings,
/// and an automatic reconnect that starts at one second and stops growing at
/// thirty.
pub fn connect_plan(config: &MqttConfig) -> (plan: ConnectPlan)
    ensures
        plan.server_uri@ == server_uri_text(*config),
        plan.client_id@ == config.client_id@,
        plan.keep_alive_seconds == config.keep_alive_seconds,
        plan.clean_session == config.clean_session,
        optional_view(plan.username) == optional_view(config.username),
        optional_view(plan.password) == optional_view(config.password),
        plan.use_tls == config.use_tls,
        plan.reconnect_min_seconds == RECONNECT_MIN_SECONDS,
        plan.reconnect_max_seconds == RECONNECT_MAX_SECONDS,
{
    ConnectPlan {
        server_uri: server_uri(config),
        client_id: config.client_id.clone(),
        keep_alive_seconds: config.keep_alive_seconds as u64,
        clean_session: config.clean_session,
        username: copy_optional(&config.username),
        password: copy_optional(&config.password),
        use_tls: config.use_tls,
        reconnect_min_seconds: RECONNECT_MIN_SECONDS,
        reconnect_max_seconds: RECONNECT_MAX_SECONDS,
    }
}

/// The request that subscribes to `topics`, each at the bridge's quality of
/// service; nothing where there is no topic.
pub fn subscribe_request(topics: &[String]) -> (request: Option<SubscribeRequest>)
    ensures
        request is Some <==> topics@.len() > 0,
        request matches Some(r) ==> {
            &&& string_views(r.topics@) == string_views(topics@)
            &&& r.qos@ == Seq::new(topics@.len(), |i: int| QOS)
        },
{
    if topics.len() == 0 {
        return None;
    }
    let mut qos: Vec<i32> = Vec::new();
    let mut i: usize = 0;
    while i < topics.len()
        invariant
            i <= topics.len(),
            qos@ == Seq::new(i as nat, |k: int| QOS),
        decreases topics.len() - i,
    {
        qos.push(QOS);
        assert(qos@ =~= Seq::new((i + 1) as nat, |k: int| QOS));
        i = i + 1;
    }
    Some(SubscribeRequest { topics: copy_strings(topics), qos })
}

/// An MQTT endpoint as the bridge sees it: its configuration and whether it
/// is connected.
#[derive(Debug)]
pub struct MqttClient {
    config: MqttConfig,
    connected: bool,
}

impl MqttClient {
    /// The configuration of the endpoint.
    pub closed spec fn config(&self) -> MqttConfig {
        self.config
    }

    /// Whether the client is connected.
    pub closed spec fn connected(&self) -> bool {
        self.connected
    }

    /// A client for the endpoint, not yet connected.
    pub fn new(config: MqttConfig) -> (client: Self)
        ensures
            client.config() == config,
            !client.connected(),
    {
        Self { config, connected: false }
    }

    /// What the client connects with.
    pub fn connect(&self) -> (plan: ConnectPlan)
        ensures
            plan.server_uri@ == server_uri_text(self.config()),
            plan.client_id@ == self.config().client_id@,
            plan.keep_alive_seconds == self.config().keep_alive_seconds,
            plan.clean_session == self.config().clean_session,
            optional_view(plan.username) == optional_view(self.config().username),
            optional_view(plan.password) == optional_view(self.config().password),
            plan.use_tls == self.config().use_tls,
            plan.reconnect_min_seconds == RECONNECT_MIN_SECONDS,
            plan.reconnect_max_seconds == RECONNECT_MAX_SECONDS,
    {
        connect_plan(&self.config)
    }

    /// Notes that the connection stands or has been lost.
    pub fn set_connected(&mut self, connected: bool)
        ensures
            final(self).config() == old(self).config(),
            final(self).connected() == connected,
    {
        self.connected = connected;
    }

    /// Notes that the client has disconnected.
    pub fn disconnect(&mut self)
        ensures
            final(self).config() == old(self).config(),
            !final(self).connected(),
    {
        self.connected = false;
    }

    /// Whether the client is connected.
    pub fn is_connected(&self) -> (connected: bool)
        ensures
            connected == self.connected(),
    {
        self.connected
    }

    /// The request that subscribes to `topics`; nothing where there is no
    /// topic.
    pub fn subscribe(&self, topics: &[String]) -> (request: Option<SubscribeRequest>)
        ensures
            request is Some <==> topics@.len() > 0,
            request matches Some(r) ==> {
                &&& string_views(r.topics@) == string_views(topics@)
                &&& r.qos@ == Seq::new(topics@.len(), |i: int| QOS)
            },
    {
        subscribe_request(topics)
    }

    /// The topics to unsubscribe from; nothing where there is no topic.
    pub fn unsubscribe(&self, topics: &[String]) -> (request: Option<Vec<String>>)
        ensures
            request is Some <==> topics@.len() > 0,
            request matches Some(r) ==> string_views(r@) == string_views(topics@),
    {
        if topics.len() == 0 {
            None
        } else {
            Some(copy_strings(topics))
        }
    }

    /// The message that the client hands on for a message from the broker.
    pub fn receive(&self, topic: &str, payload: &[u8]) -> (message: MqttMessage)
        ensures
            message.topic@ == topic@,
            message.payload@ == payload@,
    {
        MqttMessage { topic: topic.to_string(), payload: vstd::slice::slice_to_vec(payload) }
    }

    /// The message to publish for `payload` under `topic`.
    pub fn publish(&self, topic: &str, payload: &[u8], qos: i32) -> (request: PublishRequest)
        ensures
            request.topic@ == topic@,
            request.payload@ == payload@,
            request.qos == qos,
    {
        PublishRequest { topic: topic.to_string(), payload: vstd::slice::slice_to_vec(payload), qos }
    }
}

} // verus!
