//! The single-frame wire format `topic || 0x20 || payload`, and what a socket
//! of each kind has to be set up with.

use crate::models::{ZmqConfig, ZmqSocketType};
use crate::text::{copy_strings, optional_view, string_views};
use vstd::prelude::*;
use vstd::slice::{slice_subrange, slice_to_vec};
use vstd::utf8::{decode_utf8, encode_utf8, valid_utf8};

verus! {

/// The byte between topic and payload: an ASCII space.
pub const SEPARATOR: u8 = 0x20;

/// How long a receive waits before the worker looks at its commands, in
/// milliseconds.
pub const RECEIVE_TIMEOUT_MS: i32 = 100;

/// A message received from a ZeroMQ socket.
#[derive(Debug, Clone)]
pub struct ZmqMessage {
    pub topic: String,
    pub payload: Vec<u8>,
}

/// Why a received frame is dropped.
#[derive(Debug, Clone, Copy, PartialEq, Eq, Structural)]
pub enum FrameError {
    /// The frame holds no separator.
    MissingSeparator,
    /// The bytes before the separator are not UTF-8.
    BadTopic,
}

/// The frame that carries `payload` under a topic with the bytes `topic`.
pub open spec fn frame_of(topic: Seq<u8>, payload: Seq<u8>) -> Seq<u8> {
    topic.push(SEPARATOR) + payload
}

/// Whether the first separator of `frame` stands at `i`.
pub open spec fn is_separator_at(frame: Seq<u8>, i: int) -> bool {
    &&& 0 <= i < frame.len()
    &&& frame[i] == SEPARATOR
    &&& forall|j: int| 0 <= j < i ==> frame[j] != SEPARATOR
}

/// Where the first separator of `frame` stands, if it has one.
pub open spec fn separator_position(frame: Seq<u8>) -> int {
    choose|i: int| is_separator_at(frame, i)
}

/// The bytes of `frame` before its first separator.
pub open spec fn frame_topic(frame: Seq<u8>) -> Seq<u8> {
    frame.take(separator_position(frame))
}

/// The bytes of `frame` after its first separator.
pub open spec fn frame_payload(frame: Seq<u8>) -> Seq<u8> {
    frame.skip(separator_position(frame) + 1)
}

/// A frame has at most one first separator.
pub proof fn lemma_separator_unique(frame: Seq<u8>, i: int, k: int)
    requires
        is_separator_at(frame, i),
        is_separator_at(frame, k),
    ensures
        i == k,
{
}

/// A frame built from a topic without a separator splits back into that
/// topic and the payload, whatever the payload holds.
pub proof fn lemma_frame_round_trip(topic: Seq<u8>, payload: Seq<u8>)
    requires
        !topic.contains(SEPARATOR),
    ensures
        frame_of(topic, payload).contains(SEPARATOR),
        frame_topic(frame_of(topic, payload)) == topic,
        frame_payload(frame_of(topic, payload)) == payload,
{
    let frame = frame_of(topic, payload);
    let at = topic.len() as int;
    assert(frame[at] == SEPARATOR);
    assert forall|j: int| 0 <= j < at implies frame[j] != SEPARATOR by {
        assert(frame[j] == topic[j]);
        assert(topic.contains(topic[j]));
    }
    assert(is_separator_at(frame, at));
    lemma_separator_unique(frame, at, separator_position(frame));
    assert(frame.take(at) =~= topic);
    assert(frame.skip(at + 1) =~= payload);
}

/// A frame built for a topic whose encoding holds no separator reads back
/// as that topic and that payload.
pub proof fn lemma_frame_reads_back(topic: Seq<char>, payload: Seq<u8>)
    requires
        !encode_utf8(topic).contains(SEPARATOR),
    ensures
        frame_of(encode_utf8(topic), payload).contains(SEPARATOR),
        valid_utf8(frame_topic(frame_of(encode_utf8(topic), payload))),
        decode_utf8(frame_topic(frame_of(encode_utf8(topic), payload))) == topic,
        frame_payload(frame_of(encode_utf8(topic), payload)) == payload,
{
    lemma_frame_round_trip(encode_utf8(topic), payload);
    vstd::utf8::encode_utf8_valid_utf8(topic);
    vstd::utf8::encode_utf8_decode_utf8(topic);
}

/// `String::from_utf8` turns bytes into a string where they are UTF-8, and
/// fails where they are not; the string then holds the characters that the
/// bytes encode.
#[verifier::external_body]
fn utf8_string(bytes: Vec<u8>) -> (decoded: Option<String>)
    ensures
        decoded is Some <==> valid_utf8(bytes@),
        decoded matches Some(s) ==> s@ == decode_utf8(bytes@),
{
    String::from_utf8(bytes).ok()
}

/// Builds the frame that carries `payload` under `topic`.
pub fn encode_frame(topic: &str, payload: &[u8]) -> (frame: Vec<u8>)
    ensures
        frame@ == frame_of(encode_utf8(topic@), payload@),
{
    let topic_bytes = topic.as_bytes();
    let mut frame: Vec<u8> = slice_to_vec(topic_bytes);
    assert(frame@ == topic_bytes@);
    frame.push(SEPARATOR);
    let mut i: usize = 0;
    while i < payload.len()
        invariant
            i <= payload.len(),
            frame@ == encode_utf8(topic@).push(SEPARATOR) + payload@.take(i as int),
        decreases payload.len() - i,
    {
        frame.push(payload[i]);
        assert(payload@.take(i + 1) == payload@.take(i as int).push(payload@[i as int]));
        i = i + 1;
    }
    assert(payload@.take(payload.len() as int) == payload@);
    frame
}

/// Splits a frame at its first separator.
pub fn split_frame(frame: &[u8]) -> (parts: Option<(Vec<u8>, Vec<u8>)>)
    ensures
        parts is Some <==> frame@.contains(SEPARATOR),
        parts matches Some((topic, payload)) ==> topic@ == frame_topic(frame@) && payload@
            == frame_payload(frame@),
{
    let mut i: usize = 0;
    while i < frame.len()
        invariant
            i <= frame.len(),
            forall|j: int| 0 <= j < i ==> frame@[j] != SEPARATOR,
        decreases frame.len() - i,
    {
        if frame[i] == SEPARATOR {
            proof {
                assert(is_separator_at(frame@, i as int));
                lemma_separator_unique(frame@, i as int, separator_position(frame@));
                assert(frame@.take(i as int) == frame@.subrange(0, i as int));
                assert(frame@.skip(i + 1) == frame@.subrange(i + 1, frame@.len() as int));
            }
            let topic = slice_to_vec(slice_subrange(frame, 0, i));
            let payload = slice_to_vec(slice_subrange(frame, i + 1, frame.len()));
            return Some((topic, payload));
        }
        i = i + 1;
    }
    None
}

/// Reads a received frame: the bytes before the first separator are the
/// topic, the bytes after it the payload.
///
/// A frame without a separator, or whose topic is not UTF-8, is refused.
pub fn decode_frame(frame: &[u8]) -> (decoded: Result<ZmqMessage, FrameError>)
    ensures
        decoded is Ok <==> frame@.contains(SEPARATOR) && valid_utf8(frame_topic(frame@)),
        decoded matches Ok(msg) ==> msg.topic@ == decode_utf8(frame_topic(frame@)) && msg.payload@
            == frame_payload(frame@),
        decoded matches Err(error) ==> error == if frame@.contains(SEPARATOR) {
            FrameError::BadTopic
        } else {
            FrameError::MissingSeparator
        },
{
    match split_frame(frame) {
        None => Err(FrameError::MissingSeparator),
        Some((topic_bytes, payload)) => match utf8_string(topic_bytes) {
            Some(topic) => Ok(ZmqMessage { topic, payload }),
            None => Err(FrameError::BadTopic),
        },
    }
}

/// What a socket is set up with.
#[derive(Debug)]
pub struct SocketPlan {
    pub socket_type: ZmqSocketType,
    /// The send high-water mark.
    pub send_hwm: i32,
    /// The receive high-water mark.
    pub recv_hwm: i32,
    /// The endpoint to bind to, if any.
    pub bind: Option<String>,
    /// The endpoints to connect to, in order.
    pub connect: Vec<String>,
    /// Whether the socket subscribes to every message.
    pub subscribe_all: bool,
    /// Whether the worker receives from the socket.
    pub receives: bool,
    /// Whether the worker accepts publish commands for the socket.
    pub publishes: bool,
    /// The receive timeout, in milliseconds.
    pub recv_timeout_ms: i32,
}

/// Whether a socket of this kind is bound where the configuration names an
/// endpoint to bind to.
pub open spec fn kind_binds(kind: ZmqSocketType) -> bool {
    kind != ZmqSocketType::Sub
}

/// Whether a socket of this kind connects to the configured endpoints,
/// subscribes to everything and is received from.
pub open spec fn kind_receives(kind: ZmqSocketType) -> bool {
    kind == ZmqSocketType::XSub || kind == ZmqSocketType::Sub
}

/// Whether a socket of this kind takes publish commands.
pub open spec fn kind_publishes(kind: ZmqSocketType) -> bool {
    kind != ZmqSocketType::Sub
}

/// Whether an endpoint can meet a peer: its socket is bound to an endpoint,
/// or connects to one at least.
pub open spec fn useful(config: ZmqConfig) -> bool {
    ||| kind_binds(config.socket_type) && config.bind_endpoint is Some
    ||| kind_receives(config.socket_type) && config.connect_endpoints@.len() > 0
}

/// The high-water mark as the socket option takes it: the low 32 bits of the
/// configured value, read as a signed number.
pub open spec fn hwm_option(high_water_mark: u32) -> int {
    if high_water_mark <= i32::MAX {
        high_water_mark as int
    } else {
        high_water_mark - 0x1_0000_0000
    }
}

/// What the socket of an endpoint is set up with.
///
/// Publishing kinds (XPUB, PUB) and XSUB bind where an endpoint to bind to
/// is configured; receiving kinds (XSUB, SUB) connect to the configured
/// endpoints, subscribe to everything and are received from; every kind but
/// SUB takes publish commands.
pub fn socket_plan(config: &ZmqConfig) -> (plan: SocketPlan)
    ensures
        plan.socket_type == config.socket_type,
        plan.send_hwm == hwm_option(config.high_water_mark),
        plan.recv_hwm == hwm_option(config.high_water_mark),
        optional_view(plan.bind) == if kind_binds(config.socket_type) {
            optional_view(config.bind_endpoint)
        } else {
            None
        },
        string_views(plan.connect@) == if kind_receives(config.socket_type) {
            string_views(config.connect_endpoints@)
        } else {
            Seq::<Seq<char>>::empty()
        },
        plan.subscribe_all == kind_receives(config.socket_type),
        plan.receives == kind_receives(config.socket_type),
        plan.publishes == kind_publishes(config.socket_type),
        plan.recv_timeout_ms == RECEIVE_TIMEOUT_MS,
{
    let hwm: i32 = if config.high_water_mark <= 0x7fff_ffff {
        config.high_water_mark as i32
    } else {
        ((config.high_water_mark - 0x8000_0000) as i32) + i32::MIN
    };
    let receives = match config.socket_type {
        ZmqSocketType::XSub => true,
        ZmqSocketType::Sub => true,
        ZmqSocketType::XPub => false,
        ZmqSocketType::Pub => false,
    };
    let not_sub = match config.socket_type {
        ZmqSocketType::Sub => false,
        _ => true,
    };
    let bind = if not_sub {
        match &config.bind_endpoint {
            Some(endpoint) => Some(endpoint.clone()),
            None => None,
        }
    } else {
        None
    };
    let connect = if receives {
        copy_strings(config.connect_endpoints.as_slice())
    } else {
        let none: Vec<String> = Vec::new();
        assert(string_views(none@) =~= Seq::<Seq<char>>::empty());
        none
    };
    SocketPlan {
        socket_type: config.socket_type,
        send_hwm: hwm,
        recv_hwm: hwm,
        bind,
        connect,
        subscribe_all: receives,
        receives,
        publishes: not_sub,
        recv_timeout_ms: RECEIVE_TIMEOUT_MS,
    }
}

/// Whether an endpoint can meet a peer.
pub fn is_useful(config: &ZmqConfig) -> (yes: bool)
    ensures
        yes == useful(*config),
{
    match config.socket_type {
        ZmqSocketType::XPub => config.bind_endpoint.is_some(),
        ZmqSocketType::Pub => config.bind_endpoint.is_some(),
        ZmqSocketType::XSub => config.bind_endpoint.is_some() || config.connect_endpoints.len() > 0,
        ZmqSocketType::Sub => config.connect_endpoints.len() > 0,
    }
}

/// A ZeroMQ endpoint as the bridge sees it: its configuration and whether
/// its receiver runs.
#[derive(Debug)]
pub struct ZmqClient {
    config: ZmqConfig,
    running: bool,
}

impl ZmqClient {
    /// The configuration of the endpoint.
    pub closed spec fn config(&self) -> ZmqConfig {
        self.config
    }

    /// Whether the receiver runs.
    pub closed spec fn running(&self) -> bool {
        self.running
    }

    /// A client for the endpoint, with no receiver running.
    pub fn new(config: ZmqConfig) -> (client: Self)
        ensures
            client.config() == config,
            !client.running(),
    {
        Self { config, running: false }
    }

    /// What the socket of this endpoint is set up with.
    pub fn init_socket(&self) -> (plan: SocketPlan)
        ensures
            plan.socket_type == self.config().socket_type,
            plan.send_hwm == hwm_option(self.config().high_water_mark),
            plan.recv_hwm == hwm_option(self.config().high_water_mark),
            optional_view(plan.bind) == if kind_binds(self.config().socket_type) {
                optional_view(self.config().bind_endpoint)
            } else {
                None
            },
            string_views(plan.connect@) == if kind_receives(self.config().socket_type) {
                string_views(self.config().connect_endpoints@)
            } else {
                Seq::<Seq<char>>::empty()
            },
            plan.subscribe_all == kind_receives(self.config().socket_type),
            plan.receives == kind_receives(self.config().socket_type),
            plan.publishes == kind_publishes(self.config().socket_type),
            plan.recv_timeout_ms == RECEIVE_TIMEOUT_MS,
    {
        socket_plan(&self.config)
    }

    /// The frame to send for a publish command, or nothing where a socket of
    /// this kind does not publish.
    pub fn publish(&self, topic: &str, payload: &[u8]) -> (frame: Option<Vec<u8>>)
        ensures
            frame is Some <==> kind_publishes(self.config().socket_type),
            frame matches Some(bytes) ==> bytes@ == frame_of(encode_utf8(topic@), payload@),
    {
        match self.config.socket_type {
            ZmqSocketType::Sub => None,
            _ => Some(encode_frame(topic, payload)),
        }
    }

    /// Starts the receiver where a socket of this kind receives; says whether
    /// it runs afterwards.
    pub fn start_receiver(&mut self) -> (started: bool)
        ensures
            final(self).config() == old(self).config(),
            started == kind_receives(old(self).config().socket_type),
            final(self).running() == (old(self).running() || started),
    {
        match self.config.socket_type {
            ZmqSocketType::XSub => {
                self.running = true;
                true
            },
            ZmqSocketType::Sub => {
                self.running = true;
                true
            },
            _ => false,
        }
    }

    /// Stops the receiver.
    pub fn stop(&mut self)
        ensures
            final(self).config() == old(self).config(),
            !final(self).running(),
    {
        self.running = false;
    }

    /// Whether the receiver runs.
    pub fn is_running(&self) -> (running: bool)
        ensures
            running == self.running(),
    {
        self.running
    }
}

} // verus!
