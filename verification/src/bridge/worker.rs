//! The worker set and the router: which workers to spawn, what a worker
//! subscribes to, and where a message goes.

use crate::bridge::topic_mapper::{
    match_tokens, pattern_matches, rewrite_chars, rewritten_topic, topic_tokens,
};
use crate::models::{EndpointType, MqttConfig, TopicMapping, ZmqConfig};
use crate::text::{chars_of, split_chars, string_of, string_views, views_of};
use vstd::prelude::*;
use vstd::slice::slice_to_vec;

verus! {

/// The family of the endpoint a message came from.
#[derive(Debug, Clone, Copy, PartialEq, Eq, Structural)]
pub enum MessageSource {
    Mqtt,
    Zmq,
}

/// A message on its way from a source worker to the router.
#[derive(Debug, Clone)]
pub struct ForwardMessage {
    pub source: MessageSource,
    pub source_id: u32,
    pub topic: String,
    pub payload: Vec<u8>,
}

/// A command for an MQTT worker.
#[derive(Debug, Clone)]
pub enum MqttCommand {
    /// Publish the payload under the topic.
    Publish(String, Vec<u8>),
    /// Replace the set of subscribed topics.
    Subscribe(Vec<String>),
}

/// A command for a ZeroMQ worker.
#[derive(Debug, Clone)]
pub enum ZmqCommand {
    /// Publish the payload under the topic.
    Publish(String, Vec<u8>),
}

/// A publish command bound for the worker of one endpoint.
#[derive(Debug, Clone)]
pub struct Dispatch {
    pub target_type: EndpointType,
    pub target_id: u32,
    pub topic: String,
    pub payload: Vec<u8>,
}

/// What a [`Dispatch`] holds, as plain values.
pub ghost struct DispatchView {
    pub target_type: EndpointType,
    pub target_id: u32,
    pub topic: Seq<char>,
    pub payload: Seq<u8>,
}

impl View for Dispatch {
    type V = DispatchView;

    open spec fn view(&self) -> DispatchView {
        DispatchView {
            target_type: self.target_type,
            target_id: self.target_id,
            topic: self.topic@,
            payload: self.payload@,
        }
    }
}

/// The views of a sequence of dispatches.
pub open spec fn dispatch_views(dispatches: Seq<Dispatch>) -> Seq<DispatchView> {
    Seq::new(dispatches.len(), |i: int| dispatches[i]@)
}

/// What routing one message comes to.
#[derive(Debug)]
pub struct RouteOutcome {
    /// The publish commands to send, in the order of the mappings.
    pub dispatches: Vec<Dispatch>,
    /// How many matching mappings name a target without a worker.
    pub unknown_targets: usize,
}

impl RouteOutcome {
    /// Whether anything is to be sent, so that a forwarding latency is to be
    /// recorded.
    pub fn dispatched(&self) -> (any: bool)
        ensures
            any == (self.dispatches@.len() > 0),
    {
        self.dispatches.len() > 0
    }
}

/// The endpoint family that a message source stands for.
pub open spec fn source_endpoint_type(source: MessageSource) -> EndpointType {
    match source {
        MessageSource::Mqtt => EndpointType::Mqtt,
        MessageSource::Zmq => EndpointType::Zmq,
    }
}

/// Whether a mapping fires for a message: it is enabled, its source endpoint
/// is the message's, and the message's topic matches its pattern.
pub open spec fn mapping_fires(mapping: TopicMapping, msg: ForwardMessage) -> bool {
    &&& mapping.enabled
    &&& mapping.source_endpoint_type == source_endpoint_type(msg.source)
    &&& mapping.source_endpoint_id == msg.source_id
    &&& pattern_matches(mapping.source_topic@, msg.topic@)
}

/// Whether a worker stands for the mapping's target endpoint.
pub open spec fn target_known(mapping: TopicMapping, mqtt_targets: Seq<u32>, zmq_targets: Seq<u32>)
    -> bool {
    match mapping.target_endpoint_type {
        EndpointType::Mqtt => mqtt_targets.contains(mapping.target_endpoint_id),
        EndpointType::Zmq => zmq_targets.contains(mapping.target_endpoint_id),
    }
}

/// The publish command that a firing mapping gives for a message: the
/// rewritten topic and the payload as it came, for the mapping's target.
pub open spec fn dispatch_of(mapping: TopicMapping, msg: ForwardMessage) -> DispatchView {
    DispatchView {
        target_type: mapping.target_endpoint_type,
        target_id: mapping.target_endpoint_id,
        topic: rewritten_topic(mapping.source_topic@, mapping.target_topic@, msg.topic@),
        payload: msg.payload@,
    }
}

/// The publish commands for a message: one for each firing mapping whose
/// target has a worker, in the order of the mappings.
pub open spec fn routed(
    mappings: Seq<TopicMapping>,
    msg: ForwardMessage,
    mqtt_targets: Seq<u32>,
    zmq_targets: Seq<u32>,
) -> Seq<DispatchView>
    decreases mappings.len(),
{
    if mappings.len() == 0 {
        Seq::<DispatchView>::empty()
    } else {
        let earlier = routed(mappings.drop_last(), msg, mqtt_targets, zmq_targets);
        if mapping_fires(mappings.last(), msg) && target_known(
            mappings.last(),
            mqtt_targets,
            zmq_targets,
        ) {
            earlier.push(dispatch_of(mappings.last(), msg))
        } else {
            earlier
        }
    }
}

/// How many mappings fire for a message.
pub open spec fn firing_count(mappings: Seq<TopicMapping>, msg: ForwardMessage) -> nat
    decreases mappings.len(),
{
    if mappings.len() == 0 {
        0
    } else {
        firing_count(mappings.drop_last(), msg) + if mapping_fires(mappings.last(), msg) {
            1nat
        } else {
            0nat
        }
    }
}

/// How many firing mappings name a target without a worker.
pub open spec fn unknown_target_count(
    mappings: Seq<TopicMapping>,
    msg: ForwardMessage,
    mqtt_targets: Seq<u32>,
    zmq_targets: Seq<u32>,
) -> nat
    decreases mappings.len(),
{
    if mappings.len() == 0 {
        0
    } else {
        unknown_target_count(mappings.drop_last(), msg, mqtt_targets, zmq_targets) + if mapping_fires(
            mappings.last(),
            msg,
        ) && !target_known(mappings.last(), mqtt_targets, zmq_targets) {
            1nat
        } else {
            0nat
        }
    }
}

/// Whether `topic` matches `pattern`, as the router tests it.
pub fn matches_topic_pattern(pattern: &str, topic: &str) -> (matched: bool)
    ensures
        matched == pattern_matches(pattern@, topic@),
{
    crate::bridge::topic_mapper::matches_topic_pattern(pattern, topic)
}

/// The target topic for the source topic `source`, which came in under
/// `pattern`, over the template `target`, as the router computes it.
pub fn apply_mapping(pattern: &str, target: &str, source: &str) -> (rewritten: String)
    ensures
        rewritten@ == rewritten_topic(pattern@, target@, source@),
{
    crate::bridge::topic_mapper::apply_topic_mapping(pattern, target, source)
}

/// Whether `id` is among `ids`.
pub fn contains_id(ids: &Vec<u32>, id: u32) -> (found: bool)
    ensures
        found == ids@.contains(id),
{
    let mut i: usize = 0;
    while i < ids.len()
        invariant
            i <= ids.len(),
            forall|j: int| 0 <= j < i ==> ids@[j] != id,
        decreases ids.len() - i,
    {
        if ids[i] == id {
            return true;
        }
        i = i + 1;
    }
    false
}

/// Routes one message over a snapshot of the mappings.
///
/// Every enabled mapping of the message's source endpoint whose pattern the
/// topic matches fires, none taking precedence. A firing mapping gives one
/// publish command for its target, with the rewritten topic and the payload
/// unchanged, or counts as an unknown target where no worker stands for it.
pub fn route_message(
    msg: &ForwardMessage,
    mappings: &Vec<TopicMapping>,
    mqtt_targets: &Vec<u32>,
    zmq_targets: &Vec<u32>,
) -> (outcome: RouteOutcome)
    ensures
        dispatch_views(outcome.dispatches@) == routed(
            mappings@,
            *msg,
            mqtt_targets@,
            zmq_targets@,
        ),
        outcome.unknown_targets == unknown_target_count(
            mappings@,
            *msg,
            mqtt_targets@,
            zmq_targets@,
        ),
{
    let topic_chars = chars_of(msg.topic.as_str());
    let topic_parts = split_chars(&topic_chars, '/');
    let mut dispatches: Vec<Dispatch> = Vec::new();
    let mut unknown_targets: usize = 0;
    let mut i: usize = 0;
    while i < mappings.len()
        invariant
            i <= mappings.len(),
            topic_chars@ == msg.topic@,
            views_of(topic_parts@) == topic_tokens(msg.topic@),
            dispatch_views(dispatches@) == routed(
                mappings@.take(i as int),
                *msg,
                mqtt_targets@,
                zmq_targets@,
            ),
            unknown_targets == unknown_target_count(
                mappings@.take(i as int),
                *msg,
                mqtt_targets@,
                zmq_targets@,
            ),
            unknown_targets <= i,
        decreases mappings.len() - i,
    {
        let mapping = &mappings[i];
        assert(mappings@.take(i + 1).drop_last() == mappings@.take(i as int));
        assert(mappings@.take(i + 1).last() == *mapping);
        let from_here = mapping.enabled && mapping.source_endpoint_id == msg.source_id
            && match msg.source {
            MessageSource::Mqtt => mapping.source_endpoint_type == EndpointType::Mqtt,
            MessageSource::Zmq => mapping.source_endpoint_type == EndpointType::Zmq,
        };
        if from_here {
            let pattern_chars = chars_of(mapping.source_topic.as_str());
            let pattern_parts = split_chars(&pattern_chars, '/');
            if match_tokens(&pattern_parts, &topic_parts) {
                let known = match mapping.target_endpoint_type {
                    EndpointType::Mqtt => contains_id(mqtt_targets, mapping.target_endpoint_id),
                    EndpointType::Zmq => contains_id(zmq_targets, mapping.target_endpoint_id),
                };
                if known {
                    let template_chars = chars_of(mapping.target_topic.as_str());
                    let target = rewrite_chars(&pattern_chars, &template_chars, &topic_chars);
                    let ghost earlier = dispatch_views(dispatches@);
                    dispatches.push(
                        Dispatch {
                            target_type: mapping.target_endpoint_type,
                            target_id: mapping.target_endpoint_id,
                            topic: string_of(&target),
                            payload: slice_to_vec(msg.payload.as_slice()),
                        },
                    );
                    assert(dispatch_views(dispatches@) == earlier.push(dispatch_of(*mapping, *msg)));
                } else {
                    unknown_targets = unknown_targets + 1;
                }
            }
        }
        i = i + 1;
    }
    assert(mappings@.take(mappings.len() as int) == mappings@);
    RouteOutcome { dispatches, unknown_targets }
}

/// Whether a mapping makes the MQTT endpoint `endpoint_id` a source.
pub open spec fn subscribes(mapping: TopicMapping, endpoint_id: u32) -> bool {
    &&& mapping.enabled
    &&& mapping.source_endpoint_type == EndpointType::Mqtt
    &&& mapping.source_endpoint_id == endpoint_id
}

/// The topics that the worker of the MQTT endpoint `endpoint_id` subscribes
/// to: the source patterns of the enabled mappings of that endpoint, each
/// once, in the order of its first mapping.
pub open spec fn subscription_topics(mappings: Seq<TopicMapping>, endpoint_id: u32) -> Seq<
    Seq<char>,
>
    decreases mappings.len(),
{
    if mappings.len() == 0 {
        Seq::<Seq<char>>::empty()
    } else {
        let earlier = subscription_topics(mappings.drop_last(), endpoint_id);
        let topic = mappings.last().source_topic@;
        if subscribes(mappings.last(), endpoint_id) && !earlier.contains(topic) {
            earlier.push(topic)
        } else {
            earlier
        }
    }
}

/// Whether `topic` is among `topics`.
pub fn contains_topic(topics: &Vec<String>, topic: &String) -> (found: bool)
    ensures
        found == string_views(topics@).contains(topic@),
{
    let mut i: usize = 0;
    while i < topics.len()
        invariant
            i <= topics.len(),
            forall|j: int| 0 <= j < i ==> string_views(topics@)[j] != topic@,
        decreases topics.len() - i,
    {
        if topics[i] == *topic {
            assert(string_views(topics@)[i as int] == topic@);
            return true;
        }
        i = i + 1;
    }
    false
}

/// Computes the topics that the worker of an MQTT endpoint subscribes to.
pub fn subscribe_topics_for(mappings: &Vec<TopicMapping>, endpoint_id: u32) -> (topics: Vec<String>)
    ensures
        string_views(topics@) == subscription_topics(mappings@, endpoint_id),
{
    let mut topics: Vec<String> = Vec::new();
    let mut i: usize = 0;
    while i < mappings.len()
        invariant
            i <= mappings.len(),
            string_views(topics@) == subscription_topics(mappings@.take(i as int), endpoint_id),
        decreases mappings.len() - i,
    {
        let mapping = &mappings[i];
        assert(mappings@.take(i + 1).drop_last() == mappings@.take(i as int));
        if mapping.enabled && mapping.source_endpoint_type == EndpointType::Mqtt
            && mapping.source_endpoint_id == endpoint_id && !contains_topic(
            &topics,
            &mapping.source_topic,
        ) {
            let ghost earlier = string_views(topics@);
            topics.push(mapping.source_topic.clone());
            assert(string_views(topics@) == earlier.push(mapping.source_topic@));
        }
        i = i + 1;
    }
    assert(mappings@.take(mappings.len() as int) == mappings@);
    topics
}

/// The items of `a` that are not in `b`, in the order of `a`.
pub open spec fn difference(a: Seq<Seq<char>>, b: Seq<Seq<char>>) -> Seq<Seq<char>>
    decreases a.len(),
{
    if a.len() == 0 {
        Seq::<Seq<char>>::empty()
    } else {
        let earlier = difference(a.drop_last(), b);
        if b.contains(a.last()) {
            earlier
        } else {
            earlier.push(a.last())
        }
    }
}

fn topics_without(a: &Vec<String>, b: &Vec<String>) -> (rest: Vec<String>)
    ensures
        string_views(rest@) == difference(string_views(a@), string_views(b@)),
{
    let mut rest: Vec<String> = Vec::new();
    let mut i: usize = 0;
    while i < a.len()
        invariant
            i <= a.len(),
            string_views(rest@) == difference(string_views(a@).take(i as int), string_views(b@)),
        decreases a.len() - i,
    {
        assert(string_views(a@).take(i + 1).drop_last() == string_views(a@).take(i as int));
        assert(string_views(a@).take(i + 1).last() == a@[i as int]@);
        if !contains_topic(b, &a[i]) {
            let ghost earlier = string_views(rest@);
            rest.push(a[i].clone());
            assert(string_views(rest@) == earlier.push(a@[i as int]@));
        }
        i = i + 1;
    }
    assert(string_views(a@).take(a.len() as int) == string_views(a@));
    rest
}

/// What a worker has to do to move from one set of subscriptions to another.
#[derive(Debug)]
pub struct SubscriptionChange {
    /// Topics to subscribe to: those of the new set that are not in the
    /// current one.
    pub added: Vec<String>,
    /// Topics to unsubscribe from: those of the current set that are not in
    /// the new one.
    pub removed: Vec<String>,
}

/// Compares the current subscriptions of a worker with the ones it is to
/// have.
pub fn reconcile_subscriptions(current: &Vec<String>, new: &Vec<String>) -> (change:
    SubscriptionChange)
    ensures
        string_views(change.added@) == difference(string_views(new@), string_views(current@)),
        string_views(change.removed@) == difference(string_views(current@), string_views(new@)),
{
    SubscriptionChange { added: topics_without(new, current), removed: topics_without(current, new) }
}

/// The order to start the worker of one MQTT endpoint.
#[derive(Debug)]
pub struct MqttSpawn {
    /// The position of the endpoint's configuration in the list given.
    pub config_index: usize,
    /// The id under which the router reaches the worker.
    pub endpoint_id: u32,
    /// The topics to subscribe to once connected.
    pub subscribe_topics: Vec<String>,
}

/// The order to start the worker of one ZeroMQ endpoint.
#[derive(Debug)]
pub struct ZmqSpawn {
    /// The position of the endpoint's configuration in the list given.
    pub config_index: usize,
    /// The id under which the router reaches the worker.
    pub endpoint_id: u32,
}

/// The workers to start, in the order of their configurations.
#[derive(Debug)]
pub struct SpawnPlan {
    pub mqtt: Vec<MqttSpawn>,
    pub zmq: Vec<ZmqSpawn>,
}

/// What an [`MqttSpawn`] holds, as plain values.
pub ghost struct MqttSpawnView {
    pub config_index: int,
    pub endpoint_id: u32,
    pub subscribe_topics: Seq<Seq<char>>,
}

/// What a [`ZmqSpawn`] holds, as plain values.
pub ghost struct ZmqSpawnView {
    pub config_index: int,
    pub endpoint_id: u32,
}

impl View for MqttSpawn {
    type V = MqttSpawnView;

    open spec fn view(&self) -> MqttSpawnView {
        MqttSpawnView {
            config_index: self.config_index as int,
            endpoint_id: self.endpoint_id,
            subscribe_topics: string_views(self.subscribe_topics@),
        }
    }
}

impl View for ZmqSpawn {
    type V = ZmqSpawnView;

    open spec fn view(&self) -> ZmqSpawnView {
        ZmqSpawnView { config_index: self.config_index as int, endpoint_id: self.endpoint_id }
    }
}

/// The views of a sequence of MQTT spawn orders.
pub open spec fn mqtt_spawn_views(spawns: Seq<MqttSpawn>) -> Seq<MqttSpawnView> {
    Seq::new(spawns.len(), |i: int| spawns[i]@)
}

/// The views of a sequence of ZeroMQ spawn orders.
pub open spec fn zmq_spawn_views(spawns: Seq<ZmqSpawn>) -> Seq<ZmqSpawnView> {
    Seq::new(spawns.len(), |i: int| spawns[i]@)
}

/// The id that stands for an endpoint: the configuration's own, or 0 where it
/// has none.
pub open spec fn endpoint_id_of(id: Option<u32>) -> u32 {
    match id {
        Some(id) => id,
        None => 0,
    }
}

/// The spawn orders for the enabled MQTT endpoints among `configs`.
pub open spec fn mqtt_spawns(configs: Seq<MqttConfig>, mappings: Seq<TopicMapping>) -> Seq<
    MqttSpawnView,
>
    decreases configs.len(),
{
    if configs.len() == 0 {
        Seq::<MqttSpawnView>::empty()
    } else {
        let earlier = mqtt_spawns(configs.drop_last(), mappings);
        if configs.last().enabled {
            earlier.push(
                MqttSpawnView {
                    config_index: configs.len() - 1,
                    endpoint_id: endpoint_id_of(configs.last().id),
                    subscribe_topics: subscription_topics(
                        mappings,
                        endpoint_id_of(configs.last().id),
                    ),
                },
            )
        } else {
            earlier
        }
    }
}

/// The spawn orders for the enabled ZeroMQ endpoints among `configs`.
pub open spec fn zmq_spawns(configs: Seq<ZmqConfig>) -> Seq<ZmqSpawnView>
    decreases configs.len(),
{
    if configs.len() == 0 {
        Seq::<ZmqSpawnView>::empty()
    } else {
        let earlier = zmq_spawns(configs.drop_last());
        if configs.last().enabled {
            earlier.push(
                ZmqSpawnView {
                    config_index: configs.len() - 1,
                    endpoint_id: endpoint_id_of(configs.last().id),
                },
            )
        } else {
            earlier
        }
    }
}

/// The ids under which the workers of the enabled MQTT endpoints are
/// reached.
pub open spec fn mqtt_target_ids(configs: Seq<MqttConfig>) -> Seq<u32>
    decreases configs.len(),
{
    if configs.len() == 0 {
        Seq::<u32>::empty()
    } else {
        let earlier = mqtt_target_ids(configs.drop_last());
        let id = endpoint_id_of(configs.last().id);
        if configs.last().enabled && !earlier.contains(id) {
            earlier.push(id)
        } else {
            earlier
        }
    }
}

/// The ids under which the workers of the enabled ZeroMQ endpoints are
/// reached.
pub open spec fn zmq_target_ids(configs: Seq<ZmqConfig>) -> Seq<u32>
    decreases configs.len(),
{
    if configs.len() == 0 {
        Seq::<u32>::empty()
    } else {
        let earlier = zmq_target_ids(configs.drop_last());
        let id = endpoint_id_of(configs.last().id);
        if configs.last().enabled && !earlier.contains(id) {
            earlier.push(id)
        } else {
            earlier
        }
    }
}

/// A new set of subscriptions for the worker of one MQTT endpoint.
#[derive(Debug)]
pub struct SubscriptionUpdate {
    pub endpoint_id: u32,
    pub topics: Vec<String>,
}

/// What a [`SubscriptionUpdate`] holds, as plain values.
pub ghost struct SubscriptionUpdateView {
    pub endpoint_id: u32,
    pub topics: Seq<Seq<char>>,
}

impl View for SubscriptionUpdate {
    type V = SubscriptionUpdateView;

    open spec fn view(&self) -> SubscriptionUpdateView {
        SubscriptionUpdateView {
            endpoint_id: self.endpoint_id,
            topics: string_views(self.topics@),
        }
    }
}

/// The views of a sequence of subscription updates.
pub open spec fn update_views(updates: Seq<SubscriptionUpdate>) -> Seq<SubscriptionUpdateView> {
    Seq::new(updates.len(), |i: int| updates[i]@)
}

/// The subscription updates that a set of mappings asks for: one for each
/// MQTT worker, in the order of the workers.
pub open spec fn subscription_updates(targets: Seq<u32>, mappings: Seq<TopicMapping>) -> Seq<
    SubscriptionUpdateView,
> {
    Seq::new(
        targets.len(),
        |i: int|
            SubscriptionUpdateView {
                endpoint_id: targets[i],
                topics: subscription_topics(mappings, targets[i]),
            },
    )
}

/// The workers to start for a configuration, with the ids under which the
/// router reaches them.
#[derive(Debug)]
pub struct WorkerSet {
    pub plan: SpawnPlan,
    pub mqtt_targets: Vec<u32>,
    pub zmq_targets: Vec<u32>,
}

/// Plans one worker for each enabled endpoint, each MQTT worker with the
/// topics that `mappings` gives it.
pub fn plan_workers(
    mqtt_configs: &Vec<MqttConfig>,
    zmq_configs: &Vec<ZmqConfig>,
    mappings: &Vec<TopicMapping>,
) -> (workers: WorkerSet)
    ensures
        workers.mqtt_targets@ == mqtt_target_ids(mqtt_configs@),
        workers.zmq_targets@ == zmq_target_ids(zmq_configs@),
        mqtt_spawn_views(workers.plan.mqtt@) == mqtt_spawns(mqtt_configs@, mappings@),
        zmq_spawn_views(workers.plan.zmq@) == zmq_spawns(zmq_configs@),
{
    let mut mqtt: Vec<MqttSpawn> = Vec::new();
    let mut zmq: Vec<ZmqSpawn> = Vec::new();
    let mut mqtt_targets: Vec<u32> = Vec::new();
    let mut i: usize = 0;
    while i < mqtt_configs.len()
        invariant
            i <= mqtt_configs.len(),
            mqtt_targets@ == mqtt_target_ids(mqtt_configs@.take(i as int)),
            mqtt_spawn_views(mqtt@) == mqtt_spawns(mqtt_configs@.take(i as int), mappings@),
        decreases mqtt_configs.len() - i,
    {
        let config = &mqtt_configs[i];
        assert(mqtt_configs@.take(i + 1).drop_last() == mqtt_configs@.take(i as int));
        if config.enabled {
            let endpoint_id = match config.id {
                Some(id) => id,
                None => 0,
            };
            if !contains_id(&mqtt_targets, endpoint_id) {
                mqtt_targets.push(endpoint_id);
            }
            let ghost earlier = mqtt_spawn_views(mqtt@);
            let spawn = MqttSpawn {
                config_index: i,
                endpoint_id,
                subscribe_topics: subscribe_topics_for(mappings, endpoint_id),
            };
            mqtt.push(spawn);
            assert(mqtt_spawn_views(mqtt@) == earlier.push(mqtt@.last()@));
        }
        i = i + 1;
    }
    assert(mqtt_configs@.take(mqtt_configs.len() as int) == mqtt_configs@);
    let mut zmq_targets: Vec<u32> = Vec::new();
    let mut k: usize = 0;
    while k < zmq_configs.len()
        invariant
            k <= zmq_configs.len(),
            zmq_targets@ == zmq_target_ids(zmq_configs@.take(k as int)),
            zmq_spawn_views(zmq@) == zmq_spawns(zmq_configs@.take(k as int)),
        decreases zmq_configs.len() - k,
    {
        let config = &zmq_configs[k];
        assert(zmq_configs@.take(k + 1).drop_last() == zmq_configs@.take(k as int));
        if config.enabled {
            let endpoint_id = match config.id {
                Some(id) => id,
                None => 0,
            };
            if !contains_id(&zmq_targets, endpoint_id) {
                zmq_targets.push(endpoint_id);
            }
            let ghost earlier = zmq_spawn_views(zmq@);
            zmq.push(ZmqSpawn { config_index: k, endpoint_id });
            assert(zmq_spawn_views(zmq@) == earlier.push(zmq@.last()@));
        }
        k = k + 1;
    }
    assert(zmq_configs@.take(zmq_configs.len() as int) == zmq_configs@);
    WorkerSet { plan: SpawnPlan { mqtt, zmq }, mqtt_targets, zmq_targets }
}

/// Plans the new subscriptions of the MQTT workers `targets` under
/// `mappings`: one update for each worker, whether or not its set is empty.
pub fn plan_subscriptions(targets: &Vec<u32>, mappings: &Vec<TopicMapping>) -> (updates: Vec<
    SubscriptionUpdate,
>)
    ensures
        update_views(updates@) == subscription_updates(targets@, mappings@),
{
    let mut updates: Vec<SubscriptionUpdate> = Vec::new();
    let mut i: usize = 0;
    while i < targets.len()
        invariant
            i <= targets.len(),
            update_views(updates@) == subscription_updates(targets@.take(i as int), mappings@),
        decreases targets.len() - i,
    {
        let endpoint_id = targets[i];
        let update = SubscriptionUpdate {
            endpoint_id,
            topics: subscribe_topics_for(mappings, endpoint_id),
        };
        let ghost earlier = update_views(updates@);
        updates.push(update);
        assert(update_views(updates@) == earlier.push(updates@.last()@));
        assert(subscription_updates(targets@.take(i + 1), mappings@) == subscription_updates(
            targets@.take(i as int),
            mappings@,
        ).push(
            SubscriptionUpdateView {
                endpoint_id,
                topics: subscription_topics(mappings@, endpoint_id),
            },
        ));
        i = i + 1;
    }
    assert(targets@.take(targets.len() as int) == targets@);
    updates
}

/// The set of endpoint workers: whether it runs, and the ids under which the
/// router reaches the workers of each family.
#[derive(Debug)]
pub struct BridgeWorker {
    running: bool,
    mqtt_targets: Vec<u32>,
    zmq_targets: Vec<u32>,
}

impl BridgeWorker {
    /// Whether the workers run.
    pub closed spec fn running(&self) -> bool {
        self.running
    }

    /// The ids of the MQTT workers.
    pub closed spec fn mqtt_targets(&self) -> Seq<u32> {
        self.mqtt_targets@
    }

    /// The ids of the ZeroMQ workers.
    pub closed spec fn zmq_targets(&self) -> Seq<u32> {
        self.zmq_targets@
    }

    /// A worker set that does not run and holds no worker.
    pub fn new() -> (worker: Self)
        ensures
            !worker.running(),
            worker.mqtt_targets().len() == 0,
            worker.zmq_targets().len() == 0,
    {
        Self { running: false, mqtt_targets: Vec::new(), zmq_targets: Vec::new() }
    }

    /// Starts one worker for each enabled endpoint.
    ///
    /// Where the set runs already, nothing changes and nothing is to be
    /// started. Otherwise the set runs from now on, holds the ids of the
    /// enabled endpoints, and the plan names the workers to start, each MQTT
    /// worker with the topics that `mappings` gives it.
    pub fn start_extended(
        &mut self,
        mqtt_configs: &Vec<MqttConfig>,
        zmq_configs: &Vec<ZmqConfig>,
        mappings: &Vec<TopicMapping>,
    ) -> (plan: SpawnPlan)
        ensures
            old(self).running() ==> {
                &&& *final(self) == *old(self)
                &&& plan.mqtt@.len() == 0
                &&& plan.zmq@.len() == 0
            },
            !old(self).running() ==> {
                &&& final(self).running()
                &&& final(self).mqtt_targets() == mqtt_target_ids(mqtt_configs@)
                &&& final(self).zmq_targets() == zmq_target_ids(zmq_configs@)
                &&& mqtt_spawn_views(plan.mqtt@) == mqtt_spawns(mqtt_configs@, mappings@)
                &&& zmq_spawn_views(plan.zmq@) == zmq_spawns(zmq_configs@)
            },
    {
        if self.running {
            return SpawnPlan { mqtt: Vec::new(), zmq: Vec::new() };
        }
        let workers = plan_workers(mqtt_configs, zmq_configs, mappings);
        self.running = true;
        self.mqtt_targets = workers.mqtt_targets;
        self.zmq_targets = workers.zmq_targets;
        workers.plan
    }

    /// The new subscriptions of every MQTT worker under `mappings`.
    pub fn update_subscriptions(&self, mappings: &Vec<TopicMapping>) -> (updates: Vec<
        SubscriptionUpdate,
    >)
        ensures
            update_views(updates@) == subscription_updates(self.mqtt_targets(), mappings@),
    {
        plan_subscriptions(&self.mqtt_targets, mappings)
    }

    /// Routes one message to the workers of this set.
    pub fn route(&self, msg: &ForwardMessage, mappings: &Vec<TopicMapping>) -> (outcome:
        RouteOutcome)
        ensures
            dispatch_views(outcome.dispatches@) == routed(
                mappings@,
                *msg,
                self.mqtt_targets(),
                self.zmq_targets(),
            ),
            outcome.unknown_targets == unknown_target_count(
                mappings@,
                *msg,
                self.mqtt_targets(),
                self.zmq_targets(),
            ),
    {
        route_message(msg, mappings, &self.mqtt_targets, &self.zmq_targets)
    }

    /// Stops the workers: the set no longer runs and holds no worker.
    pub fn stop(&mut self)
        ensures
            !final(self).running(),
            final(self).mqtt_targets().len() == 0,
            final(self).zmq_targets().len() == 0,
    {
        self.running = false;
        self.mqtt_targets = Vec::new();
        self.zmq_targets = Vec::new();
    }

    /// Whether the workers run.
    pub fn is_running(&self) -> (running: bool)
        ensures
            running == self.running(),
    {
        self.running
    }
}

impl Default for BridgeWorker {
    fn default() -> (worker: Self)
        ensures
            !worker.running(),
            worker.mqtt_targets().len() == 0,
            worker.zmq_targets().len() == 0,
    {
        Self::new()
    }
}

} // verus!
