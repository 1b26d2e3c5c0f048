//! Rows of the store and their conversion from and to the data model.

use crate::bridge::topic_mapper::{
    is_first_defect, pattern_well_formed, validate_pattern, PatternError,
};
use crate::error::AppError;
use crate::models::{
    CreateMappingRequest, CreateMqttConfigRequest, CreateZmqConfigRequest, EndpointType,
    MappingDirection, MessageStats, MqttConfig, TopicMapping, ZmqConfig, ZmqSocketType,
};
use crate::text::{
    chars_of, copy_optional, copy_strings, decimal_digits, join_strings, join_with,
    push_decimal, split_chars, split_on, str_eq, string_of, string_views, views_of,
};
use vstd::prelude::*;
use vstd::string::StringExecFns;

verus! {

/// A row of the table of MQTT endpoints.
#[derive(Debug)]
pub struct MqttConfigRow {
    pub id: i64,
    pub name: String,
    pub enabled: i64,
    pub broker_url: String,
    pub port: i64,
    pub client_id: String,
    pub username: Option<String>,
    pub password: Option<String>,
    pub use_tls: i64,
    pub keep_alive_seconds: i64,
    pub clean_session: i64,
}

/// A row of the table of ZeroMQ endpoints.
#[derive(Debug)]
pub struct ZmqConfigRow {
    pub id: i64,
    pub name: String,
    pub enabled: i64,
    pub socket_type: String,
    pub bind_endpoint: Option<String>,
    /// The endpoints to connect to, joined with commas.
    pub connect_endpoints: Option<String>,
    pub high_water_mark: i64,
    pub reconnect_interval_ms: i64,
}

/// A row of the table of mappings.
#[derive(Debug)]
pub struct TopicMappingRow {
    pub id: i64,
    pub source_endpoint_type: String,
    pub source_endpoint_id: i64,
    pub target_endpoint_type: String,
    pub target_endpoint_id: i64,
    pub source_topic: String,
    pub target_topic: String,
    pub direction: String,
    pub enabled: i64,
    pub description: Option<String>,
}

/// The single row of the table of statistics.
#[derive(Debug, Clone, Copy)]
pub struct MessageStatsRow {
    pub mqtt_received: i64,
    pub mqtt_sent: i64,
    pub zmq_received: i64,
    pub zmq_sent: i64,
    pub error_count: i64,
    pub start_time: i64,
}

/// The low 32 bits of a column, as an unsigned number.
pub open spec fn low_u32(column: i64) -> u32 {
    (column & 0xffff_ffff) as u32
}

/// The low 16 bits of a column, as an unsigned number.
pub open spec fn low_u16(column: i64) -> u16 {
    (column & 0xffff) as u16
}

/// The 64 bits of a column, as an unsigned number.
pub open spec fn unsigned(column: i64) -> u64 {
    if column >= 0 {
        column as u64
    } else {
        (column + 0x1_0000_0000_0000_0000) as u64
    }
}

/// The low 32 bits of a column.
pub fn column_u32(column: i64) -> (value: u32)
    ensures
        value == low_u32(column),
{
    let low = column & 0xffff_ffff;
    assert(0 <= low <= 0xffff_ffff) by (bit_vector)
        requires
            low == column & 0xffff_ffff,
    ;
    low as u32
}

/// The low 16 bits of a column.
pub fn column_u16(column: i64) -> (value: u16)
    ensures
        value == low_u16(column),
{
    let low = column & 0xffff;
    assert(0 <= low <= 0xffff) by (bit_vector)
        requires
            low == column & 0xffff,
    ;
    low as u16
}

/// The 64 bits of a column, as an unsigned number.
pub fn column_u64(column: i64) -> (value: u64)
    ensures
        value == unsigned(column),
{
    if column >= 0 {
        column as u64
    } else {
        (column as i128 + 0x1_0000_0000_0000_0000) as u64
    }
}

/// The column that stores a flag: one for set, zero for clear.
pub fn flag_column(flag: bool) -> (column: i64)
    ensures
        column == if flag {
            1i64
        } else {
            0i64
        },
{
    if flag {
        1
    } else {
        0
    }
}

/// The kind of socket that a stored name stands for; an unknown name stands
/// for XPUB.
pub open spec fn socket_type_named(name: Seq<char>) -> ZmqSocketType {
    if name == "xsub"@ {
        ZmqSocketType::XSub
    } else if name == "pub"@ {
        ZmqSocketType::Pub
    } else if name == "sub"@ {
        ZmqSocketType::Sub
    } else {
        ZmqSocketType::XPub
    }
}

/// The name that a kind of socket is stored under.
pub open spec fn socket_type_text(kind: ZmqSocketType) -> Seq<char> {
    match kind {
        ZmqSocketType::XPub => "xpub"@,
        ZmqSocketType::XSub => "xsub"@,
        ZmqSocketType::Pub => "pub"@,
        ZmqSocketType::Sub => "sub"@,
    }
}

/// The family of endpoints that a stored name stands for; an unknown name
/// stands for MQTT.
pub open spec fn endpoint_type_named(name: Seq<char>) -> EndpointType {
    if name == "zmq"@ {
        EndpointType::Zmq
    } else {
        EndpointType::Mqtt
    }
}

/// The name that a family of endpoints is stored under.
pub open spec fn endpoint_type_text(family: EndpointType) -> Seq<char> {
    match family {
        EndpointType::Mqtt => "mqtt"@,
        EndpointType::Zmq => "zmq"@,
    }
}

/// The direction that a stored name stands for; an unknown name stands for
/// MQTT to ZeroMQ.
pub open spec fn direction_named(name: Seq<char>) -> MappingDirection {
    if name == "zmq_to_mqtt"@ {
        MappingDirection::ZmqToMqtt
    } else if name == "mqtt_to_mqtt"@ {
        MappingDirection::MqttToMqtt
    } else if name == "zmq_to_zmq"@ {
        MappingDirection::ZmqToZmq
    } else if name == "bidirectional"@ {
        MappingDirection::Bidirectional
    } else {
        MappingDirection::MqttToZmq
    }
}

/// The name that a direction is stored under.
pub open spec fn direction_text(direction: MappingDirection) -> Seq<char> {
    match direction {
        MappingDirection::MqttToZmq => "mqtt_to_zmq"@,
        MappingDirection::ZmqToMqtt => "zmq_to_mqtt"@,
        MappingDirection::MqttToMqtt => "mqtt_to_mqtt"@,
        MappingDirection::ZmqToZmq => "zmq_to_zmq"@,
        MappingDirection::Bidirectional => "bidirectional"@,
    }
}

/// Reads the stored name of a kind of socket.
pub fn parse_socket_type(name: &str) -> (kind: ZmqSocketType)
    ensures
        kind == socket_type_named(name@),
{
    if str_eq(name, "xsub") {
        ZmqSocketType::XSub
    } else if str_eq(name, "pub") {
        ZmqSocketType::Pub
    } else if str_eq(name, "sub") {
        ZmqSocketType::Sub
    } else {
        ZmqSocketType::XPub
    }
}

/// The name that a kind of socket is stored under.
pub fn socket_type_name(kind: ZmqSocketType) -> (name: &'static str)
    ensures
        name@ == socket_type_text(kind),
{
    match kind {
        ZmqSocketType::XPub => "xpub",
        ZmqSocketType::XSub => "xsub",
        ZmqSocketType::Pub => "pub",
        ZmqSocketType::Sub => "sub",
    }
}

/// Reads the stored name of a family of endpoints.
pub fn parse_endpoint_type(name: &str) -> (family: EndpointType)
    ensures
        family == endpoint_type_named(name@),
{
    if str_eq(name, "zmq") {
        EndpointType::Zmq
    } else {
        EndpointType::Mqtt
    }
}

/// The name that a family of endpoints is stored under.
pub fn endpoint_type_name(family: EndpointType) -> (name: &'static str)
    ensures
        name@ == endpoint_type_text(family),
{
    match family {
        EndpointType::Mqtt => "mqtt",
        EndpointType::Zmq => "zmq",
    }
}

/// Reads the stored name of a direction.
pub fn parse_direction(name: &str) -> (direction: MappingDirection)
    ensures
        direction == direction_named(name@),
{
    if str_eq(name, "zmq_to_mqtt") {
        MappingDirection::ZmqToMqtt
    } else if str_eq(name, "mqtt_to_mqtt") {
        MappingDirection::MqttToMqtt
    } else if str_eq(name, "zmq_to_zmq") {
        MappingDirection::ZmqToZmq
    } else if str_eq(name, "bidirectional") {
        MappingDirection::Bidirectional
    } else {
        MappingDirection::MqttToZmq
    }
}

/// The name that a direction is stored under.
pub fn direction_name(direction: MappingDirection) -> (name: &'static str)
    ensures
        name@ == direction_text(direction),
{
    match direction {
        MappingDirection::MqttToZmq => "mqtt_to_zmq",
        MappingDirection::ZmqToMqtt => "zmq_to_mqtt",
        MappingDirection::MqttToMqtt => "mqtt_to_mqtt",
        MappingDirection::ZmqToZmq => "zmq_to_zmq",
        MappingDirection::Bidirectional => "bidirectional",
    }
}

/// The segments of `parts` that are not empty, in order.
pub open spec fn nonempty_segments(parts: Seq<Seq<char>>) -> Seq<Seq<char>>
    decreases parts.len(),
{
    if parts.len() == 0 {
        Seq::<Seq<char>>::empty()
    } else {
        let earlier = nonempty_segments(parts.drop_last());
        if parts.last().len() > 0 {
            earlier.push(parts.last())
        } else {
            earlier
        }
    }
}

/// The endpoints that a stored column lists: its segments between commas
/// that are not empty; none for a column without a value.
pub open spec fn endpoints_listed(column: Option<String>) -> Seq<Seq<char>> {
    match column {
        Some(text) => nonempty_segments(split_on(text@, ',')),
        None => Seq::<Seq<char>>::empty(),
    }
}

/// Segments that are all non-empty are their own non-empty segments.
pub proof fn lemma_nonempty_segments_kept(parts: Seq<Seq<char>>)
    requires
        forall|i: int| 0 <= i < parts.len() ==> (#[trigger] parts[i]).len() > 0,
    ensures
        nonempty_segments(parts) == parts,
    decreases parts.len(),
{
    if parts.len() > 0 {
        assert forall|i: int| 0 <= i < parts.drop_last().len() implies (
        #[trigger] parts.drop_last()[i]).len() > 0 by {
            assert(parts.drop_last()[i] == parts[i]);
        }
        lemma_nonempty_segments_kept(parts.drop_last());
        assert(parts[parts.len() - 1].len() > 0);
        assert(parts.drop_last().push(parts.last()) == parts);
    } else {
        assert(nonempty_segments(parts) =~= parts);
    }
}

/// A list of endpoints that is written to its column and read again is the
/// same list, where no endpoint is empty or holds a comma.
pub proof fn lemma_endpoints_read_back(endpoints: Seq<Seq<char>>)
    requires
        forall|i: int|
            0 <= i < endpoints.len() ==> (#[trigger] endpoints[i]).len() > 0
                && !endpoints[i].contains(','),
    ensures
        nonempty_segments(split_on(join_with(endpoints, ','), ',')) == endpoints,
{
    if endpoints.len() == 0 {
        let nothing = Seq::<char>::empty();
        assert(join_with(endpoints, ',') == nothing);
        assert(split_on(nothing, ',') == seq![nothing]);
        assert(seq![nothing].drop_last() =~= Seq::<Seq<char>>::empty());
        reveal_with_fuel(nonempty_segments, 2);
        assert(nonempty_segments(seq![nothing]) =~= endpoints);
    } else {
        crate::text::lemma_split_join(endpoints, ',');
        lemma_nonempty_segments_kept(endpoints);
    }
}

/// Reads the stored list of the endpoints to connect to.
pub fn parse_endpoints(column: &Option<String>) -> (endpoints: Vec<String>)
    ensures
        string_views(endpoints@) == endpoints_listed(*column),
{
    let mut endpoints: Vec<String> = Vec::new();
    match column {
        None => {
            assert(string_views(endpoints@) =~= Seq::<Seq<char>>::empty());
        },
        Some(text) => {
            let chars = chars_of(text.as_str());
            let parts = split_chars(&chars, ',');
            let mut i: usize = 0;
            assert(views_of(parts@).take(0) =~= Seq::<Seq<char>>::empty());
            assert(string_views(endpoints@) =~= Seq::<Seq<char>>::empty());
            while i < parts.len()
                invariant
                    i <= parts.len(),
                    string_views(endpoints@) == nonempty_segments(views_of(parts@).take(i as int)),
                decreases parts.len() - i,
            {
                assert(views_of(parts@).take(i + 1).drop_last() == views_of(parts@).take(i as int));
                assert(views_of(parts@).take(i + 1).last() == parts@[i as int]@);
                if parts[i].len() > 0 {
                    let ghost earlier = string_views(endpoints@);
                    endpoints.push(string_of(&parts[i]));
                    assert(string_views(endpoints@) == earlier.push(parts@[i as int]@));
                }
                i = i + 1;
            }
            assert(views_of(parts@).take(parts.len() as int) == views_of(parts@));
        },
    }
    endpoints
}

/// The column that stores a list of endpoints: the endpoints joined with
/// commas.
pub fn endpoints_column(endpoints: &Vec<String>) -> (column: String)
    ensures
        column@ == join_with(string_views(endpoints@), ','),
{
    join_strings(endpoints, ',')
}

impl From<MqttConfigRow> for MqttConfig {
    fn from(row: MqttConfigRow) -> (config: MqttConfig) {
        MqttConfig {
            id: Some(column_u32(row.id)),
            name: row.name,
            enabled: row.enabled != 0,
            broker_url: row.broker_url,
            port: column_u16(row.port),
            client_id: row.client_id,
            username: row.username,
            password: row.password,
            use_tls: row.use_tls != 0,
            keep_alive_seconds: column_u16(row.keep_alive_seconds),
            clean_session: row.clean_session != 0,
        }
    }
}

impl vstd::std_specs::convert::FromSpecImpl<MqttConfigRow> for MqttConfig {
    open spec fn obeys_from_spec() -> bool {
        true
    }

    open spec fn from_spec(row: MqttConfigRow) -> MqttConfig {
        MqttConfig {
            id: Some(low_u32(row.id)),
            name: row.name,
            enabled: row.enabled != 0,
            broker_url: row.broker_url,
            port: low_u16(row.port),
            client_id: row.client_id,
            username: row.username,
            password: row.password,
            use_tls: row.use_tls != 0,
            keep_alive_seconds: low_u16(row.keep_alive_seconds),
            clean_session: row.clean_session != 0,
        }
    }
}

/// Reads a row of the table of ZeroMQ endpoints.
pub fn zmq_config_of(row: ZmqConfigRow) -> (config: ZmqConfig)
    ensures
        config.id == Some(low_u32(row.id)),
        config.name == row.name,
        config.enabled == (row.enabled != 0),
        config.socket_type == socket_type_named(row.socket_type@),
        config.bind_endpoint == row.bind_endpoint,
        string_views(config.connect_endpoints@) == endpoints_listed(row.connect_endpoints),
        config.high_water_mark == low_u32(row.high_water_mark),
        config.reconnect_interval_ms == low_u32(row.reconnect_interval_ms),
{
    let socket_type = parse_socket_type(row.socket_type.as_str());
    let connect_endpoints = parse_endpoints(&row.connect_endpoints);
    ZmqConfig {
        id: Some(column_u32(row.id)),
        name: row.name,
        enabled: row.enabled != 0,
        socket_type,
        bind_endpoint: row.bind_endpoint,
        connect_endpoints,
        high_water_mark: column_u32(row.high_water_mark),
        reconnect_interval_ms: column_u32(row.reconnect_interval_ms),
    }
}

impl From<TopicMappingRow> for TopicMapping {
    fn from(row: TopicMappingRow) -> (mapping: TopicMapping) {
        let direction = parse_direction(row.direction.as_str());
        let source_endpoint_type = parse_endpoint_type(row.source_endpoint_type.as_str());
        let target_endpoint_type = parse_endpoint_type(row.target_endpoint_type.as_str());
        TopicMapping {
            id: column_u32(row.id),
            source_endpoint_type,
            source_endpoint_id: column_u32(row.source_endpoint_id),
            target_endpoint_type,
            target_endpoint_id: column_u32(row.target_endpoint_id),
            source_topic: row.source_topic,
            target_topic: row.target_topic,
            direction,
            enabled: row.enabled != 0,
            description: row.description,
        }
    }
}

impl vstd::std_specs::convert::FromSpecImpl<TopicMappingRow> for TopicMapping {
    open spec fn obeys_from_spec() -> bool {
        true
    }

    open spec fn from_spec(row: TopicMappingRow) -> TopicMapping {
        TopicMapping {
            id: low_u32(row.id),
            source_endpoint_type: endpoint_type_named(row.source_endpoint_type@),
            source_endpoint_id: low_u32(row.source_endpoint_id),
            target_endpoint_type: endpoint_type_named(row.target_endpoint_type@),
            target_endpoint_id: low_u32(row.target_endpoint_id),
            source_topic: row.source_topic,
            target_topic: row.target_topic,
            direction: direction_named(row.direction@),
            enabled: row.enabled != 0,
            description: row.description,
        }
    }
}

impl From<MessageStatsRow> for MessageStats {
    fn from(row: MessageStatsRow) -> (stats: MessageStats) {
        MessageStats {
            mqtt_received: column_u64(row.mqtt_received),
            mqtt_sent: column_u64(row.mqtt_sent),
            zmq_received: column_u64(row.zmq_received),
            zmq_sent: column_u64(row.zmq_sent),
            error_count: column_u64(row.error_count),
            queue_depth: 0,
        }
    }
}

impl vstd::std_specs::convert::FromSpecImpl<MessageStatsRow> for MessageStats {
    open spec fn obeys_from_spec() -> bool {
        true
    }

    open spec fn from_spec(row: MessageStatsRow) -> MessageStats {
        MessageStats {
            mqtt_received: unsigned(row.mqtt_received),
            mqtt_sent: unsigned(row.mqtt_sent),
            zmq_received: unsigned(row.zmq_received),
            zmq_sent: unsigned(row.zmq_sent),
            error_count: unsigned(row.error_count),
            queue_depth: 0,
        }
    }
}

/// What a refused pattern is answered with.
pub open spec fn pattern_error_text(error: PatternError) -> Seq<char> {
    match error {
        PatternError::MisplacedMultiLevel { token } => "invalid topic pattern: '#' is only valid as the final token, found at token "@
            + decimal_digits(token as nat),
        PatternError::EmbeddedWildcard { token } => "invalid topic pattern: '+' and '#' must stand as whole tokens, found inside token "@
            + decimal_digits(token as nat),
    }
}

/// The message that a refused pattern is answered with.
pub fn pattern_error_message(error: PatternError) -> (message: String)
    ensures
        message@ == pattern_error_text(error),
{
    let mut message = String::new();
    match error {
        PatternError::MisplacedMultiLevel { token } => {
            message.append(
                "invalid topic pattern: '#' is only valid as the final token, found at token ",
            );
            push_decimal(&mut message, token as u64);
        },
        PatternError::EmbeddedWildcard { token } => {
            message.append(
                "invalid topic pattern: '+' and '#' must stand as whole tokens, found inside token ",
            );
            push_decimal(&mut message, token as u64);
        },
    }
    assert(message@ =~= pattern_error_text(error));
    message
}

/// Checks a mapping before it is stored: its source pattern has to be well
/// formed. A mapping that is refused never reaches the router.
pub fn validate_mapping(req: &CreateMappingRequest) -> (checked: Result<(), AppError>)
    ensures
        checked is Ok <==> pattern_well_formed(req.source_topic@),
        checked matches Err(error) ==> {
            &&& error matches AppError::BadRequest(message)
            &&& exists|defect: PatternError|
                is_first_defect(req.source_topic@, defect) && message@ == #[trigger] pattern_error_text(
                    defect,
                )
        },
{
    match validate_pattern(req.source_topic.as_str()) {
        Ok(()) => Ok(()),
        Err(error) => Err(AppError::BadRequest(pattern_error_message(error))),
    }
}

/// The mapping that is stored under `id` for a request.
pub fn mapping_of(id: u32, req: &CreateMappingRequest) -> (mapping: TopicMapping)
    ensures
        mapping == (TopicMapping {
            id,
            source_endpoint_type: req.source_endpoint_type,
            source_endpoint_id: req.source_endpoint_id,
            target_endpoint_type: req.target_endpoint_type,
            target_endpoint_id: req.target_endpoint_id,
            source_topic: req.source_topic,
            target_topic: req.target_topic,
            direction: req.direction,
            enabled: req.enabled,
            description: req.description,
        }),
{
    TopicMapping {
        id,
        source_endpoint_type: req.source_endpoint_type,
        source_endpoint_id: req.source_endpoint_id,
        target_endpoint_type: req.target_endpoint_type,
        target_endpoint_id: req.target_endpoint_id,
        source_topic: req.source_topic.clone(),
        target_topic: req.target_topic.clone(),
        direction: req.direction,
        enabled: req.enabled,
        description: copy_optional(&req.description),
    }
}

/// The MQTT endpoint that is stored under `id` for a request.
pub fn mqtt_config_of(id: u32, req: &CreateMqttConfigRequest) -> (config: MqttConfig)
    ensures
        config == (MqttConfig {
            id: Some(id),
            name: req.name,
            enabled: req.enabled,
            broker_url: req.broker_url,
            port: req.port,
            client_id: req.client_id,
            username: req.username,
            password: req.password,
            use_tls: req.use_tls,
            keep_alive_seconds: req.keep_alive_seconds,
            clean_session: req.clean_session,
        }),
{
    MqttConfig {
        id: Some(id),
        name: req.name.clone(),
        enabled: req.enabled,
        broker_url: req.broker_url.clone(),
        port: req.port,
        client_id: req.client_id.clone(),
        username: copy_optional(&req.username),
        password: copy_optional(&req.password),
        use_tls: req.use_tls,
        keep_alive_seconds: req.keep_alive_seconds,
        clean_session: req.clean_session,
    }
}

/// The ZeroMQ endpoint that is stored under `id` for a request.
pub fn zmq_config_for(id: u32, req: &CreateZmqConfigRequest) -> (config: ZmqConfig)
    ensures
        config.id == Some(id),
        config.name == req.name,
        config.enabled == req.enabled,
        config.socket_type == req.socket_type,
        config.bind_endpoint == req.bind_endpoint,
        string_views(config.connect_endpoints@) == string_views(req.connect_endpoints@),
        config.high_water_mark == req.high_water_mark,
        config.reconnect_interval_ms == req.reconnect_interval_ms,
{
    let connect_endpoints = copy_strings(req.connect_endpoints.as_slice());
    ZmqConfig {
        id: Some(id),
        name: req.name.clone(),
        enabled: req.enabled,
        socket_type: req.socket_type,
        bind_endpoint: copy_optional(&req.bind_endpoint),
        connect_endpoints,
        high_water_mark: req.high_water_mark,
        reconnect_interval_ms: req.reconnect_interval_ms,
    }
}

} // verus!
