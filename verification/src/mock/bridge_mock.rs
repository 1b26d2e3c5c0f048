//! An in-memory store that stands for a running bridge: fixed
//! configurations, a list of mappings, and statistics that grow by chance.

use crate::clock::unix_now;
use crate::db::repository::mapping_of;
use crate::models::{
    BridgeState, BridgeStatus, ConnectionStatus, CreateMappingRequest, EndpointType,
    MappingDirection, MessageStats, MqttConfig, TopicMapping, ZmqConfig,
};
use crate::telemetry::metrics::advanced;
use rand::Rng;
use vstd::prelude::*;

verus! {

/// The id that the first mapping added to a new store gets.
pub const FIRST_FREE_MAPPING_ID: u32 = 4;

/// `rand::Rng::gen_range` on the thread's generator picks a number of the
/// half-open range from `low` to `high`; which one is left to chance. The
/// range must not be empty.
#[verifier::external_body]
fn random_in(low: u64, high: u64) -> (n: u64)
    requires
        low < high,
    ensures
        low <= n < high,
{
    rand::thread_rng().gen_range(low..high)
}

/// A store with simulated data.
#[derive(Debug)]
pub struct MockBridgeStore {
    mqtt_config: MqttConfig,
    zmq_config: ZmqConfig,
    mappings: Vec<TopicMapping>,
    message_stats: MessageStats,
    next_mapping_id: u32,
    uptime_start: i64,
}

/// What a [`MockBridgeStore`] holds, as plain values.
pub ghost struct MockStoreView {
    pub mqtt_config: MqttConfig,
    pub zmq_config: ZmqConfig,
    pub mappings: Seq<TopicMapping>,
    pub stats: MessageStats,
    pub next_mapping_id: u32,
    pub uptime_start: i64,
}

impl View for MockBridgeStore {
    type V = MockStoreView;

    closed spec fn view(&self) -> MockStoreView {
        MockStoreView {
            mqtt_config: self.mqtt_config,
            zmq_config: self.zmq_config,
            mappings: self.mappings@,
            stats: self.message_stats,
            next_mapping_id: self.next_mapping_id,
            uptime_start: self.uptime_start,
        }
    }
}

/// Whether `mappings` are the three mappings that a new store holds.
pub open spec fn are_default_mappings(mappings: Seq<TopicMapping>) -> bool {
    &&& mappings.len() == 3
    &&& mappings[0].id == 1
    &&& mappings[0].source_endpoint_type == EndpointType::Mqtt
    &&& mappings[0].source_endpoint_id == 1
    &&& mappings[0].target_endpoint_type == EndpointType::Zmq
    &&& mappings[0].target_endpoint_id == 1
    &&& mappings[0].source_topic@ == "sensors/#"@
    &&& mappings[0].target_topic@ == "zmq.sensors"@
    &&& mappings[0].direction == MappingDirection::MqttToZmq
    &&& mappings[0].enabled
    &&& mappings[0].description matches Some(text) && text@
        == "Forward all sensor data to ZeroMQ"@
    &&& mappings[1].id == 2
    &&& mappings[1].source_endpoint_type == EndpointType::Zmq
    &&& mappings[1].source_endpoint_id == 1
    &&& mappings[1].target_endpoint_type == EndpointType::Mqtt
    &&& mappings[1].target_endpoint_id == 1
    &&& mappings[1].source_topic@ == "commands"@
    &&& mappings[1].target_topic@ == "mqtt/commands"@
    &&& mappings[1].direction == MappingDirection::ZmqToMqtt
    &&& mappings[1].enabled
    &&& mappings[1].description matches Some(text) && text@
        == "Forward commands from ZeroMQ to MQTT"@
    &&& mappings[2].id == 3
    &&& mappings[2].source_endpoint_type == EndpointType::Mqtt
    &&& mappings[2].source_endpoint_id == 1
    &&& mappings[2].target_endpoint_type == EndpointType::Zmq
    &&& mappings[2].target_endpoint_id == 1
    &&& mappings[2].source_topic@ == "telemetry/+/status"@
    &&& mappings[2].target_topic@ == "telemetry.status"@
    &&& mappings[2].direction == MappingDirection::Bidirectional
    &&& !mappings[2].enabled
    &&& mappings[2].description matches Some(text) && text@ == "Bidirectional telemetry sync"@
}

/// The mappings without those of the id `id`, in order.
pub open spec fn without_id(mappings: Seq<TopicMapping>, id: u32) -> Seq<TopicMapping>
    decreases mappings.len(),
{
    if mappings.len() == 0 {
        Seq::<TopicMapping>::empty()
    } else {
        let earlier = without_id(mappings.drop_last(), id);
        if mappings.last().id == id {
            earlier
        } else {
            earlier.push(mappings.last())
        }
    }
}

/// Whether a mapping of the id `id` is among `mappings`.
pub open spec fn has_id(mappings: Seq<TopicMapping>, id: u32) -> bool {
    exists|i: int| 0 <= i < mappings.len() && (#[trigger] mappings[i]).id == id
}

/// Whether the first mapping of the id `id` stands at `i`.
pub open spec fn first_with_id_at(mappings: Seq<TopicMapping>, id: u32, i: int) -> bool {
    &&& 0 <= i < mappings.len()
    &&& mappings[i].id == id
    &&& forall|j: int| 0 <= j < i ==> (#[trigger] mappings[j]).id != id
}

/// The mapping that a request describes, under the id `id`.
pub open spec fn requested(id: u32, req: CreateMappingRequest) -> TopicMapping {
    TopicMapping {
        id,
        source_endpoint_type: req.source_endpoint_type,
        source_endpoint_id: req.source_endpoint_id,
        target_endpoint_type: req.target_endpoint_type,
        target_endpoint_id: req.target_endpoint_id,
        source_topic: req.source_topic,
        target_topic: req.target_topic,
        direction: req.direction,
        enabled: req.enabled,
        description: req.description,
    }
}

/// The seconds from `start` to `now`, and zero where `now` is earlier.
pub open spec fn elapsed_since(start: i64, now: i64) -> u64 {
    if now >= start {
        (now - start) as u64
    } else {
        0
    }
}

/// Statistics after simulated traffic: every counter has grown by its
/// amount, and the queue is as deep as given.
pub open spec fn with_traffic(
    stats: MessageStats,
    mqtt_received: u64,
    mqtt_sent: u64,
    zmq_received: u64,
    zmq_sent: u64,
    queue_depth: u32,
) -> MessageStats {
    MessageStats {
        mqtt_received: advanced(stats.mqtt_received, mqtt_received as nat),
        mqtt_sent: advanced(stats.mqtt_sent, mqtt_sent as nat),
        zmq_received: advanced(stats.zmq_received, zmq_received as nat),
        zmq_sent: advanced(stats.zmq_sent, zmq_sent as nat),
        error_count: stats.error_count,
        queue_depth,
    }
}

impl MockBridgeStore {
    /// The three mappings that a new store holds.
    pub fn default_mappings() -> (mappings: Vec<TopicMapping>)
        ensures
            are_default_mappings(mappings@),
    {
        let mut mappings: Vec<TopicMapping> = Vec::new();
        mappings.push(
            TopicMapping {
                id: 1,
                source_endpoint_type: EndpointType::Mqtt,
                source_endpoint_id: 1,
                target_endpoint_type: EndpointType::Zmq,
                target_endpoint_id: 1,
                source_topic: "sensors/#".to_string(),
                target_topic: "zmq.sensors".to_string(),
                direction: MappingDirection::MqttToZmq,
                enabled: true,
                description: Some("Forward all sensor data to ZeroMQ".to_string()),
            },
        );
        mappings.push(
            TopicMapping {
                id: 2,
                source_endpoint_type: EndpointType::Zmq,
                source_endpoint_id: 1,
                target_endpoint_type: EndpointType::Mqtt,
                target_endpoint_id: 1,
                source_topic: "commands".to_string(),
                target_topic: "mqtt/commands".to_string(),
                direction: MappingDirection::ZmqToMqtt,
                enabled: true,
                description: Some("Forward commands from ZeroMQ to MQTT".to_string()),
            },
        );
        mappings.push(
            TopicMapping {
                id: 3,
                source_endpoint_type: EndpointType::Mqtt,
                source_endpoint_id: 1,
                target_endpoint_type: EndpointType::Zmq,
                target_endpoint_id: 1,
                source_topic: "telemetry/+/status".to_string(),
                target_topic: "telemetry.status".to_string(),
                direction: MappingDirection::Bidirectional,
                enabled: false,
                description: Some("Bidirectional telemetry sync".to_string()),
            },
        );
        mappings
    }

    /// A store that starts at the time `now`, with the default
    /// configurations and mappings and with every counter at zero.
    pub fn starting_at(now: i64) -> (store: Self)
        ensures
            are_default_mappings(store@.mappings),
            store@.next_mapping_id == FIRST_FREE_MAPPING_ID,
            store@.uptime_start == now,
            store@.stats == (MessageStats {
                mqtt_received: 0,
                mqtt_sent: 0,
                zmq_received: 0,
                zmq_sent: 0,
                error_count: 0,
                queue_depth: 0,
            }),
    {
        Self {
            mqtt_config: MqttConfig::default(),
            zmq_config: ZmqConfig::default(),
            mappings: Self::default_mappings(),
            message_stats: MessageStats::default(),
            next_mapping_id: FIRST_FREE_MAPPING_ID,
            uptime_start: now,
        }
    }

    /// A store that starts now, by the system clock.
    pub fn new() -> (store: Self)
        ensures
            are_default_mappings(store@.mappings),
            store@.next_mapping_id == FIRST_FREE_MAPPING_ID,
            store@.stats == (MessageStats {
                mqtt_received: 0,
                mqtt_sent: 0,
                zmq_received: 0,
                zmq_sent: 0,
                error_count: 0,
                queue_depth: 0,
            }),
    {
        Self::starting_at(unix_now())
    }

    /// The status at the time `now`: running and connected, up since the
    /// store started.
    pub fn status_at(&self, now: i64, version: &str) -> (status: BridgeStatus)
        ensures
            status.state == BridgeState::Running,
            status.uptime_seconds == elapsed_since(self@.uptime_start, now),
            status.mqtt_status == ConnectionStatus::Connected,
            status.zmq_status == ConnectionStatus::Connected,
            status.version@ == version@,
    {
        let uptime: u64 = if now >= self.uptime_start {
            (now as i128 - self.uptime_start as i128) as u64
        } else {
            0
        };
        BridgeStatus {
            state: BridgeState::Running,
            uptime_seconds: uptime,
            mqtt_status: ConnectionStatus::Connected,
            zmq_status: ConnectionStatus::Connected,
            version: version.to_string(),
        }
    }

    /// The status now, by the system clock.
    pub fn get_status(&self, version: &str) -> (status: BridgeStatus)
        ensures
            status.state == BridgeState::Running,
            status.mqtt_status == ConnectionStatus::Connected,
            status.zmq_status == ConnectionStatus::Connected,
            status.version@ == version@,
    {
        self.status_at(unix_now(), version)
    }

    /// Adds simulated traffic to the statistics and returns them.
    pub fn add_traffic(
        &mut self,
        mqtt_received: u64,
        mqtt_sent: u64,
        zmq_received: u64,
        zmq_sent: u64,
        queue_depth: u32,
    ) -> (stats: MessageStats)
        ensures
            stats == with_traffic(
                old(self)@.stats,
                mqtt_received,
                mqtt_sent,
                zmq_received,
                zmq_sent,
                queue_depth,
            ),
            final(self)@ == (MockStoreView { stats, ..old(self)@ }),
    {
        let stats = MessageStats {
            mqtt_received: self.message_stats.mqtt_received.saturating_add(mqtt_received),
            mqtt_sent: self.message_stats.mqtt_sent.saturating_add(mqtt_sent),
            zmq_received: self.message_stats.zmq_received.saturating_add(zmq_received),
            zmq_sent: self.message_stats.zmq_sent.saturating_add(zmq_sent),
            error_count: self.message_stats.error_count,
            queue_depth,
        };
        self.message_stats = stats;
        stats
    }

    /// Simulates traffic since the last query and returns the statistics:
    /// every counter of messages has grown by a number drawn by chance, ten
    /// to forty-nine received from MQTT, five to twenty-nine sent to it,
    /// eight to thirty-nine received from ZeroMQ, ten to forty-four sent to
    /// it; the queue is less than a hundred deep.
    pub fn get_stats(&mut self) -> (stats: MessageStats)
        ensures
            exists|a: u64, b: u64, c: u64, d: u64, q: u32|
                {
                    &&& 10 <= a < 50
                    &&& 5 <= b < 30
                    &&& 8 <= c < 40
                    &&& 10 <= d < 45
                    &&& q < 100
                    &&& stats == #[trigger] with_traffic(old(self)@.stats, a, b, c, d, q)
                },
            final(self)@ == (MockStoreView { stats, ..old(self)@ }),
    {
        let a = random_in(10, 50);
        let b = random_in(5, 30);
        let c = random_in(8, 40);
        let d = random_in(10, 45);
        let q = random_in(0, 100) as u32;
        self.add_traffic(a, b, c, d, q)
    }

    /// The configuration of the MQTT endpoint.
    pub fn get_mqtt_config(&self) -> (config: &MqttConfig)
        ensures
            *config == self@.mqtt_config,
    {
        &self.mqtt_config
    }

    /// Replaces the configuration of the MQTT endpoint.
    pub fn update_mqtt_config(&mut self, config: MqttConfig)
        ensures
            final(self)@ == (MockStoreView { mqtt_config: config, ..old(self)@ }),
    {
        self.mqtt_config = config;
    }

    /// The configuration of the ZeroMQ endpoint.
    pub fn get_zmq_config(&self) -> (config: &ZmqConfig)
        ensures
            *config == self@.zmq_config,
    {
        &self.zmq_config
    }

    /// Replaces the configuration of the ZeroMQ endpoint.
    pub fn update_zmq_config(&mut self, config: ZmqConfig)
        ensures
            final(self)@ == (MockStoreView { zmq_config: config, ..old(self)@ }),
    {
        self.zmq_config = config;
    }

    /// The mappings, in the order in which they were added.
    pub fn get_mappings(&self) -> (mappings: &Vec<TopicMapping>)
        ensures
            mappings@ == self@.mappings,
    {
        &self.mappings
    }

    /// Adds the mapping that `req` describes under the next free id, and
    /// returns it.
    pub fn add_mapping(&mut self, req: &CreateMappingRequest) -> (mapping: TopicMapping)
        ensures
            mapping == requested(old(self)@.next_mapping_id, *req),
            final(self)@ == (MockStoreView {
                mappings: old(self)@.mappings.push(mapping),
                next_mapping_id: if old(self)@.next_mapping_id == u32::MAX {
                    0u32
                } else {
                    (old(self)@.next_mapping_id + 1) as u32
                },
                ..old(self)@
            }),
    {
        let id = self.next_mapping_id;
        self.next_mapping_id = if id == u32::MAX {
            0
        } else {
            id + 1
        };
        self.mappings.push(mapping_of(id, req));
        mapping_of(id, req)
    }

    /// Removes the mappings of the id `id`; says whether there was one.
    pub fn delete_mapping(&mut self, id: u32) -> (deleted: bool)
        ensures
            deleted == has_id(old(self)@.mappings, id),
            final(self)@ == (MockStoreView {
                mappings: without_id(old(self)@.mappings, id),
                ..old(self)@
            }),
    {
        let ghost all = self.mappings@;
        let mut kept: Vec<TopicMapping> = Vec::new();
        let mut deleted = false;
        let ghost mut taken: int = 0;
        assert(all.subrange(0, all.len() as int) == all);
        while self.mappings.len() > 0
            invariant
                0 <= taken,
                taken + self.mappings@.len() == all.len(),
                self.mappings@ == all.subrange(0, all.len() - taken),
                without_id(all, id) == without_id(self.mappings@, id) + kept@.reverse(),
                deleted == has_id(all.subrange(all.len() - taken, all.len() as int), id),
                self@ == (MockStoreView { mappings: self.mappings@, ..old(self)@ }),
            decreases self.mappings@.len(),
        {
            let ghost rest = self.mappings@;
            let ghost seen = all.subrange(all.len() - taken, all.len() as int);
            let last = self.mappings.pop().unwrap();
            proof {
                assert(self.mappings@ == rest.drop_last());
                assert(kept@.push(last).reverse() == seq![last] + kept@.reverse());
                assert(without_id(rest.drop_last(), id).push(last) + kept@.reverse() == without_id(
                    rest.drop_last(),
                    id,
                ) + (seq![last] + kept@.reverse()));
                let seen_more = all.subrange(all.len() - taken - 1, all.len() as int);
                assert(seen_more[0] == last);
                assert forall|i: int| 0 <= i < seen.len() implies seen[i] == seen_more[i + 1] by {}
                if has_id(seen, id) {
                    let i = choose|i: int| 0 <= i < seen.len() && (#[trigger] seen[i]).id == id;
                    assert(seen_more[i + 1].id == id);
                }
                if has_id(seen_more, id) && last.id != id {
                    let i = choose|i: int|
                        0 <= i < seen_more.len() && (#[trigger] seen_more[i]).id == id;
                    assert(seen[i - 1].id == id);
                }
            }
            if last.id == id {
                deleted = true;
            } else {
                kept.push(last);
            }
            proof {
                taken = taken + 1;
            }
        }
        assert(without_id(self.mappings@, id) =~= Seq::<TopicMapping>::empty());
        assert(all.subrange(all.len() - taken, all.len() as int) == all);
        let ghost target = kept@.reverse();
        assert(without_id(all, id) =~= target);
        while kept.len() > 0
            invariant
                self.mappings@ + kept@.reverse() == target,
                self@ == (MockStoreView { mappings: self.mappings@, ..old(self)@ }),
            decreases kept@.len(),
        {
            let ghost before = kept@;
            let ghost moved = self.mappings@;
            let next = kept.pop().unwrap();
            assert(before.reverse() == seq![next] + kept@.reverse());
            self.mappings.push(next);
            assert(moved.push(next) + kept@.reverse() == moved + (seq![next] + kept@.reverse()));
        }
        assert(self.mappings@ + Seq::<TopicMapping>::empty() == self.mappings@);
        assert(kept@.reverse() =~= Seq::<TopicMapping>::empty());
        deleted
    }

    /// Replaces the first mapping of the id `id` by the mapping that `req`
    /// describes, and returns it; nothing changes where there is none.
    pub fn update_mapping(&mut self, id: u32, req: &CreateMappingRequest) -> (updated: Option<
        TopicMapping,
    >)
        ensures
            updated is Some <==> has_id(old(self)@.mappings, id),
            updated matches Some(mapping) ==> {
                &&& mapping == requested(id, *req)
                &&& exists|i: int|
                    first_with_id_at(old(self)@.mappings, id, i) && final(self)@ == (MockStoreView {
                        mappings: old(self)@.mappings.update(i, mapping),
                        ..old(self)@
                    })
            },
            updated is None ==> final(self)@ == old(self)@,
    {
        let mut i: usize = 0;
        while i < self.mappings.len()
            invariant
                i <= self.mappings.len(),
                self@ == old(self)@,
                forall|j: int| 0 <= j < i ==> (#[trigger] self.mappings@[j]).id != id,
            decreases self.mappings.len() - i,
        {
            if self.mappings[i].id == id {
                let ghost before = self.mappings@;
                assert(first_with_id_at(before, id, i as int));
                self.mappings.remove(i);
                self.mappings.insert(i, mapping_of(id, req));
                assert(self.mappings@ =~= before.update(i as int, requested(id, *req)));
                return Some(mapping_of(id, req));
            }
            i = i + 1;
        }
        None
    }
}

impl Default for MockBridgeStore {
    fn default() -> (store: Self)
        ensures
            are_default_mappings(store@.mappings),
            store@.next_mapping_id == FIRST_FREE_MAPPING_ID,
    {
        Self::new()
    }
}

} // verus!
