//! Endpoint workers: what the worker of an MQTT or ZeroMQ endpoint does with
//! what it receives and with the commands it is given.

use crate::bridge::worker::{
    difference, reconcile_subscriptions, ForwardMessage, MessageSource, MqttCommand,
    SubscriptionChange, ZmqCommand,
};
use crate::models::{MqttConfig, ZmqConfig, ZmqSocketType};
use crate::mqtt::client::{
    connect_plan, server_uri_text, subscribe_request, ConnectPlan, PublishRequest,
    SubscribeRequest, QOS, RECONNECT_MAX_SECONDS, RECONNECT_MIN_SECONDS,
};
use crate::text::{optional_view, string_views};
use crate::zeromq::client::{
    decode_frame, encode_frame, frame_of, frame_payload, frame_topic, hwm_option,
    kind_binds, kind_publishes, kind_receives, socket_plan, FrameError,
    SocketPlan, RECEIVE_TIMEOUT_MS, SEPARATOR,
};
use vstd::prelude::*;
use vstd::utf8::{decode_utf8, encode_utf8, valid_utf8};

verus! {

/// The worker of one MQTT endpoint: the id it tags its messages with, and
/// the topics it is subscribed to.
#[derive(Debug)]
pub struct MqttWorker {
    endpoint_id: u32,
    current: Vec<String>,
}

/// What an MQTT worker does for a command.
#[derive(Debug)]
pub enum MqttAction {
    /// Publish the message to the broker.
    Publish(PublishRequest),
    /// Subscribe to the added topics, if any, and unsubscribe from the
    /// removed ones.
    Resubscribe { subscribe: Option<SubscribeRequest>, unsubscribe: Vec<String> },
}

impl MqttWorker {
    /// The id of the worker's endpoint.
    pub closed spec fn endpoint_id(&self) -> u32 {
        self.endpoint_id
    }

    /// The topics that the worker is subscribed to.
    pub closed spec fn current(&self) -> Seq<Seq<char>> {
        string_views(self.current@)
    }

    /// The worker of the endpoint `endpoint_id`, subscribed to
    /// `subscribe_topics`.
    pub fn new(endpoint_id: u32, subscribe_topics: Vec<String>) -> (worker: Self)
        ensures
            worker.endpoint_id() == endpoint_id,
            worker.current() == string_views(subscribe_topics@),
    {
        Self { endpoint_id, current: subscribe_topics }
    }

    /// What the worker connects with.
    pub fn connect(&self, config: &MqttConfig) -> (plan: ConnectPlan)
        ensures
            plan.server_uri@ == server_uri_text(*config),
            plan.client_id@ == config.client_id@,
            plan.keep_alive_seconds == config.keep_alive_seconds,
            plan.clean_session == config.clean_session,
            optional_view(plan.username) == optional_view(config.username),
            optional_view(plan.password) == optional_view(config.password),
            plan.use_tls == config.use_tls,
            plan.reconnect_min_seconds == RECONNECT_MIN_SECONDS,
            plan.reconnect_max_seconds == RECONNECT_MAX_SECONDS,
    {
        connect_plan(config)
    }

    /// What the worker subscribes to whenever its connection stands: its
    /// current topics, each at the bridge's quality of service.
    pub fn on_connected(&self) -> (request: Option<SubscribeRequest>)
        ensures
            request is Some <==> self.current().len() > 0,
            request matches Some(r) ==> {
                &&& string_views(r.topics@) == self.current()
                &&& r.qos@ == Seq::new(self.current().len(), |i: int| QOS)
            },
    {
        subscribe_request(self.current.as_slice())
    }

    /// The message that goes to the router for a message from the broker.
    pub fn on_message(&self, topic: String, payload: Vec<u8>) -> (msg: ForwardMessage)
        ensures
            msg.source == MessageSource::Mqtt,
            msg.source_id == self.endpoint_id(),
            msg.topic == topic,
            msg.payload == payload,
    {
        ForwardMessage { source: MessageSource::Mqtt, source_id: self.endpoint_id, topic, payload }
    }

    /// What the worker does for a command.
    ///
    /// A publish goes to the broker at the bridge's quality of service. A new
    /// set of subscriptions is compared with the current one: the worker
    /// subscribes to what is new, unsubscribes from what is gone, and holds
    /// the new set from then on.
    pub fn on_command(&mut self, command: MqttCommand) -> (action: MqttAction)
        ensures
            final(self).endpoint_id() == old(self).endpoint_id(),
            command matches MqttCommand::Publish(topic, payload) ==> {
                &&& final(self).current() == old(self).current()
                &&& action matches MqttAction::Publish(request)
                &&& request.topic == topic
                &&& request.payload == payload
                &&& request.qos == QOS
            },
            command matches MqttCommand::Subscribe(topics) ==> {
                &&& final(self).current() == string_views(topics@)
                &&& action matches MqttAction::Resubscribe { subscribe, unsubscribe }
                &&& string_views(unsubscribe@) == difference(
                    old(self).current(),
                    string_views(topics@),
                )
                &&& (subscribe is Some <==> difference(
                    string_views(topics@),
                    old(self).current(),
                ).len() > 0)
                &&& (subscribe matches Some(r) ==> {
                    &&& string_views(r.topics@) == difference(
                        string_views(topics@),
                        old(self).current(),
                    )
                    &&& r.qos@ == Seq::new(r.topics@.len(), |i: int| QOS)
                })
            },
    {
        match command {
            MqttCommand::Publish(topic, payload) => MqttAction::Publish(
                PublishRequest { topic, payload, qos: QOS },
            ),
            MqttCommand::Subscribe(topics) => {
                let change = reconcile_subscriptions(&self.current, &topics);
                let SubscriptionChange { added, removed } = change;
                let subscribe = subscribe_request(added.as_slice());
                self.current = topics;
                MqttAction::Resubscribe { subscribe, unsubscribe: removed }
            },
        }
    }
}

/// The worker of one ZeroMQ endpoint: the id it tags its messages with, and
/// the kind of its socket.
#[derive(Debug, Clone, Copy)]
pub struct ZmqWorker {
    endpoint_id: u32,
    socket_type: ZmqSocketType,
}

/// What a ZeroMQ worker does for a command.
#[derive(Debug)]
pub enum ZmqAction {
    /// Send the frame.
    Send(Vec<u8>),
    /// Do nothing and count an error: the socket does not publish.
    Reject,
}

impl ZmqWorker {
    /// The id of the worker's endpoint.
    pub closed spec fn endpoint_id(&self) -> u32 {
        self.endpoint_id
    }

    /// The kind of the worker's socket.
    pub closed spec fn socket_type(&self) -> ZmqSocketType {
        self.socket_type
    }

    /// The worker of the endpoint `endpoint_id`, for a socket of the kind
    /// `socket_type`.
    pub fn new(endpoint_id: u32, socket_type: ZmqSocketType) -> (worker: Self)
        ensures
            worker.endpoint_id() == endpoint_id,
            worker.socket_type() == socket_type,
    {
        Self { endpoint_id, socket_type }
    }

    /// What the worker's socket is set up with.
    pub fn setup(&self, config: &ZmqConfig) -> (plan: SocketPlan)
        ensures
            plan.socket_type == config.socket_type,
            plan.send_hwm == hwm_option(config.high_water_mark),
            plan.recv_hwm == hwm_option(config.high_water_mark),
            optional_view(plan.bind) == if kind_binds(config.socket_type) {
                optional_view(config.bind_endpoint)
            } else {
                None
            },
            string_views(plan.connect@) == if kind_receives(config.socket_type) {
                string_views(config.connect_endpoints@)
            } else {
                Seq::<Seq<char>>::empty()
            },
            plan.subscribe_all == kind_receives(config.socket_type),
            plan.receives == kind_receives(config.socket_type),
            plan.publishes == kind_publishes(config.socket_type),
            plan.recv_timeout_ms == RECEIVE_TIMEOUT_MS,
    {
        socket_plan(config)
    }

    /// Whether the worker receives from its socket.
    pub fn receives(&self) -> (yes: bool)
        ensures
            yes == kind_receives(self.socket_type()),
    {
        match self.socket_type {
            ZmqSocketType::XSub => true,
            ZmqSocketType::Sub => true,
            _ => false,
        }
    }

    /// The message that goes to the router for a received frame, or why the
    /// frame is dropped and counted as an error.
    pub fn on_frame(&self, frame: &[u8]) -> (received: Result<ForwardMessage, FrameError>)
        ensures
            received is Ok <==> frame@.contains(SEPARATOR) && valid_utf8(frame_topic(frame@)),
            received matches Ok(msg) ==> {
                &&& msg.source == MessageSource::Zmq
                &&& msg.source_id == self.endpoint_id()
                &&& msg.topic@ == decode_utf8(frame_topic(frame@))
                &&& msg.payload@ == frame_payload(frame@)
            },
            received matches Err(error) ==> error == if frame@.contains(SEPARATOR) {
                FrameError::BadTopic
            } else {
                FrameError::MissingSeparator
            },
    {
        match decode_frame(frame) {
            Ok(message) => Ok(
                ForwardMessage {
                    source: MessageSource::Zmq,
                    source_id: self.endpoint_id,
                    topic: message.topic,
                    payload: message.payload,
                },
            ),
            Err(error) => Err(error),
        }
    }

    /// What the worker does for a command: it sends the frame of a publish
    /// where its socket publishes, and rejects the command where it does not.
    pub fn on_command(&self, command: ZmqCommand) -> (action: ZmqAction)
        ensures
            command matches ZmqCommand::Publish(topic, payload) && match action {
                ZmqAction::Send(frame) => kind_publishes(self.socket_type()) && frame@ == frame_of(
                    encode_utf8(topic@),
                    payload@,
                ),
                ZmqAction::Reject => !kind_publishes(self.socket_type()),
            },
    {
        match command {
            ZmqCommand::Publish(topic, payload) => match self.socket_type {
                ZmqSocketType::Sub => ZmqAction::Reject,
                _ => ZmqAction::Send(encode_frame(topic.as_str(), payload.as_slice())),
            },
        }
    }
}

} // verus!
