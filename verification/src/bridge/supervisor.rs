//! The supervisor: the bridge's state, the snapshot of the mappings that the
//! router reads, and the workers that stand for the endpoints.

use crate::bridge::worker::{
    dispatch_views, mqtt_spawn_views, mqtt_spawns, mqtt_target_ids, plan_subscriptions,
    plan_workers, route_message, routed, subscription_updates, unknown_target_count,
    update_views, zmq_spawn_views, zmq_spawns, zmq_target_ids, DispatchView, ForwardMessage,
    RouteOutcome, SpawnPlan, SubscriptionUpdate,
};
use crate::clock::unix_now;
use crate::models::{
    BridgeState, BridgeStatus, ConnectionStatus, MqttConfig, TopicMapping, ZmqConfig,
};
use vstd::prelude::*;

verus! {

/// The least time between the stop and the start of a restart, in
/// milliseconds, for addresses to be free again.
pub const RESTART_DELAY_MS: u64 = 500;

/// Why a start is refused.
#[derive(Debug, Clone, Copy, PartialEq, Eq, Structural)]
pub enum StartError {
    /// The bridge is not stopped; it is in the state given.
    NotStopped(BridgeState),
    /// No start is under way; the bridge is in the state given.
    NotConnecting(BridgeState),
}

/// What a restart asks for: to wait, then to start the workers.
#[derive(Debug)]
pub struct RestartPlan {
    /// How long to wait before the workers are started, in milliseconds.
    pub delay_ms: u64,
    /// The workers to start.
    pub spawn: SpawnPlan,
}

/// What the supervisor holds, as plain values.
pub ghost struct CoreView {
    /// The state of the bridge.
    pub state: BridgeState,
    /// The snapshot of the mappings that the router reads.
    pub mappings: Seq<TopicMapping>,
    /// The ids of the MQTT workers.
    pub mqtt_targets: Seq<u32>,
    /// The ids of the ZeroMQ workers.
    pub zmq_targets: Seq<u32>,
}

/// Whether no worker exists.
pub open spec fn without_workers(core: CoreView) -> bool {
    core.mqtt_targets.len() == 0 && core.zmq_targets.len() == 0
}

/// Workers exist only while the bridge runs.
pub open spec fn consistent(core: CoreView) -> bool {
    core.state != BridgeState::Running ==> without_workers(core)
}

/// The supervisor after the begin of a start: a stopped bridge is
/// connecting; any other bridge refuses.
pub open spec fn after_begin_start(core: CoreView) -> Result<CoreView, StartError> {
    if core.state == BridgeState::Stopped {
        Ok(CoreView { state: BridgeState::Connecting, ..core })
    } else {
        Err(StartError::NotStopped(core.state))
    }
}

/// The supervisor after the end of a start: a connecting bridge runs, with
/// the mappings given as its snapshot and one worker for each enabled
/// endpoint; any other bridge refuses.
pub open spec fn after_finish_start(
    core: CoreView,
    mqtt_configs: Seq<MqttConfig>,
    zmq_configs: Seq<ZmqConfig>,
    mappings: Seq<TopicMapping>,
) -> Result<CoreView, StartError> {
    if core.state == BridgeState::Connecting {
        Ok(
            CoreView {
                state: BridgeState::Running,
                mappings,
                mqtt_targets: mqtt_target_ids(mqtt_configs),
                zmq_targets: zmq_target_ids(zmq_configs),
            },
        )
    } else {
        Err(StartError::NotConnecting(core.state))
    }
}

/// The supervisor after a whole start.
pub open spec fn after_start(
    core: CoreView,
    mqtt_configs: Seq<MqttConfig>,
    zmq_configs: Seq<ZmqConfig>,
    mappings: Seq<TopicMapping>,
) -> Result<CoreView, StartError> {
    match after_begin_start(core) {
        Ok(connecting) => after_finish_start(connecting, mqtt_configs, zmq_configs, mappings),
        Err(error) => Err(error),
    }
}

/// The supervisor after a start was given up: a connecting bridge is in
/// error; any other bridge is as it was.
pub open spec fn after_fail_start(core: CoreView) -> CoreView {
    if core.state == BridgeState::Connecting {
        CoreView { state: BridgeState::Error, ..core }
    } else {
        core
    }
}

/// The supervisor after a stop: stopped, without workers, with the snapshot
/// it had.
pub open spec fn after_stop(core: CoreView) -> CoreView {
    CoreView {
        state: BridgeState::Stopped,
        mappings: core.mappings,
        mqtt_targets: Seq::empty(),
        zmq_targets: Seq::empty(),
    }
}

/// The supervisor after a failure: in error, without workers, with the
/// snapshot it had.
pub open spec fn after_failure(core: CoreView) -> CoreView {
    CoreView {
        state: BridgeState::Error,
        mappings: core.mappings,
        mqtt_targets: Seq::empty(),
        zmq_targets: Seq::empty(),
    }
}

/// The supervisor after a reload: the mappings given are its snapshot,
/// whole; nothing else changes.
pub open spec fn after_reload(core: CoreView, mappings: Seq<TopicMapping>) -> CoreView {
    CoreView { mappings, ..core }
}

/// The publish commands that the supervisor's router gives for a message.
pub open spec fn routed_by(core: CoreView, msg: ForwardMessage) -> Seq<DispatchView> {
    routed(core.mappings, msg, core.mqtt_targets, core.zmq_targets)
}

/// The seconds from `start_time` to `now`, as an unsigned 64-bit number: a
/// start in the future counts from two to the sixty-fourth down.
pub open spec fn seconds_between(start_time: i64, now: i64) -> u64 {
    if now >= start_time {
        (now - start_time) as u64
    } else {
        (now - start_time + 0x1_0000_0000_0000_0000) as u64
    }
}

/// The uptime that a status shows: the seconds since the start for a running
/// bridge whose start was recorded, zero otherwise.
pub open spec fn uptime_of(state: BridgeState, start_time: i64, now: i64) -> u64 {
    if start_time > 0 && state == BridgeState::Running {
        seconds_between(start_time, now)
    } else {
        0
    }
}

/// The liveness that a status shows for both families of endpoints.
pub open spec fn liveness_of(state: BridgeState) -> ConnectionStatus {
    match state {
        BridgeState::Running => ConnectionStatus::Connected,
        BridgeState::Connecting => ConnectionStatus::Connecting,
        BridgeState::Error => ConnectionStatus::Error,
        BridgeState::Stopped => ConnectionStatus::Disconnected,
    }
}

/// The supervisor of the bridge.
#[derive(Debug)]
pub struct BridgeCore {
    state: BridgeState,
    mappings_cache: Vec<TopicMapping>,
    mqtt_targets: Vec<u32>,
    zmq_targets: Vec<u32>,
}

impl View for BridgeCore {
    type V = CoreView;

    closed spec fn view(&self) -> CoreView {
        CoreView {
            state: self.state,
            mappings: self.mappings_cache@,
            mqtt_targets: self.mqtt_targets@,
            zmq_targets: self.zmq_targets@,
        }
    }
}

impl BridgeCore {
    /// A stopped bridge without mappings and without workers.
    pub fn new() -> (core: Self)
        ensures
            core@ == (CoreView {
                state: BridgeState::Stopped,
                mappings: Seq::empty(),
                mqtt_targets: Seq::empty(),
                zmq_targets: Seq::empty(),
            }),
    {
        Self {
            state: BridgeState::Stopped,
            mappings_cache: Vec::new(),
            mqtt_targets: Vec::new(),
            zmq_targets: Vec::new(),
        }
    }

    /// The state of the bridge.
    pub fn current_state(&self) -> (state: BridgeState)
        ensures
            state == self@.state,
    {
        self.state
    }

    /// The status of the bridge at the time `now`, for a start recorded at
    /// `start_time`, both in seconds since the epoch.
    pub fn status_at(&self, start_time: i64, now: i64, version: &str) -> (status: BridgeStatus)
        ensures
            status.state == self@.state,
            status.uptime_seconds == uptime_of(self@.state, start_time, now),
            status.mqtt_status == liveness_of(self@.state),
            status.zmq_status == liveness_of(self@.state),
            status.version@ == version@,
    {
        let running = match self.state {
            BridgeState::Running => true,
            _ => false,
        };
        let uptime: u64 = if start_time > 0 && running {
            let elapsed: i128 = now as i128 - start_time as i128;
            if elapsed >= 0 {
                elapsed as u64
            } else {
                (elapsed + 0x1_0000_0000_0000_0000) as u64
            }
        } else {
            0
        };
        let liveness = match self.state {
            BridgeState::Running => ConnectionStatus::Connected,
            BridgeState::Connecting => ConnectionStatus::Connecting,
            BridgeState::Error => ConnectionStatus::Error,
            BridgeState::Stopped => ConnectionStatus::Disconnected,
        };
        BridgeStatus {
            state: self.state,
            uptime_seconds: uptime,
            mqtt_status: liveness,
            zmq_status: liveness,
            version: version.to_string(),
        }
    }

    /// The status of the bridge now, by the system clock, for a start
    /// recorded at `start_time`.
    pub fn get_status(&self, start_time: i64, version: &str) -> (status: BridgeStatus)
        ensures
            status.state == self@.state,
            status.mqtt_status == liveness_of(self@.state),
            status.zmq_status == liveness_of(self@.state),
            status.version@ == version@,
            exists|now: i64| status.uptime_seconds == uptime_of(self@.state, start_time, now),
    {
        let now = unix_now();
        let status = self.status_at(start_time, now, version);
        assert(status.uptime_seconds == uptime_of(self@.state, start_time, now));
        status
    }

    /// Begins a start: a stopped bridge is connecting from now on, and its
    /// configuration is to be loaded. Any other bridge refuses and stays as
    /// it is.
    pub fn begin_start(&mut self) -> (begun: Result<(), StartError>)
        ensures
            match after_begin_start(old(self)@) {
                Ok(core) => begun is Ok && final(self)@ == core,
                Err(error) => begun == Err::<(), StartError>(error) && final(self)@ == old(self)@,
            },
    {
        match self.state {
            BridgeState::Stopped => {
                self.state = BridgeState::Connecting;
                Ok(())
            },
            _ => Err(StartError::NotStopped(self.state)),
        }
    }

    /// Completes a start with the configuration that was loaded: the
    /// mappings become the router's snapshot, one worker is to be started for
    /// each enabled endpoint, the cumulative statistics are to be reset, and
    /// the bridge runs. A bridge that is not connecting refuses and stays as
    /// it is.
    pub fn finish_start(
        &mut self,
        mqtt_configs: &Vec<MqttConfig>,
        zmq_configs: &Vec<ZmqConfig>,
        mappings: Vec<TopicMapping>,
    ) -> (started: Result<SpawnPlan, StartError>)
        ensures
            match after_finish_start(old(self)@, mqtt_configs@, zmq_configs@, mappings@) {
                Ok(core) => {
                    &&& final(self)@ == core
                    &&& started matches Ok(plan)
                    &&& mqtt_spawn_views(plan.mqtt@) == mqtt_spawns(mqtt_configs@, mappings@)
                    &&& zmq_spawn_views(plan.zmq@) == zmq_spawns(zmq_configs@)
                },
                Err(error) => {
                    &&& final(self)@ == old(self)@
                    &&& started matches Err(refusal)
                    &&& refusal == error
                },
            },
    {
        match self.state {
            BridgeState::Connecting => {
                let workers = plan_workers(mqtt_configs, zmq_configs, &mappings);
                self.mappings_cache = mappings;
                self.mqtt_targets = workers.mqtt_targets;
                self.zmq_targets = workers.zmq_targets;
                self.state = BridgeState::Running;
                Ok(workers.plan)
            },
            _ => Err(StartError::NotConnecting(self.state)),
        }
    }

    /// Gives up a start whose configuration could not be loaded or whose
    /// workers could not be started: a connecting bridge is in error from now
    /// on. Any other bridge stays as it is.
    pub fn fail_start(&mut self)
        ensures
            final(self)@ == after_fail_start(old(self)@),
    {
        match self.state {
            BridgeState::Connecting => {
                self.state = BridgeState::Error;
            },
            _ => {},
        }
    }

    /// Starts a stopped bridge with the configuration given: the mappings
    /// become the router's snapshot, one worker is to be started for each
    /// enabled endpoint, the cumulative statistics are to be reset, and the
    /// bridge runs. A bridge that is not stopped refuses and stays as it is.
    pub fn start(
        &mut self,
        mqtt_configs: &Vec<MqttConfig>,
        zmq_configs: &Vec<ZmqConfig>,
        mappings: Vec<TopicMapping>,
    ) -> (started: Result<SpawnPlan, StartError>)
        ensures
            match after_start(old(self)@, mqtt_configs@, zmq_configs@, mappings@) {
                Ok(core) => {
                    &&& final(self)@ == core
                    &&& started matches Ok(plan)
                    &&& mqtt_spawn_views(plan.mqtt@) == mqtt_spawns(mqtt_configs@, mappings@)
                    &&& zmq_spawn_views(plan.zmq@) == zmq_spawns(zmq_configs@)
                },
                Err(error) => {
                    &&& final(self)@ == old(self)@
                    &&& started matches Err(refusal)
                    &&& refusal == error
                },
            },
    {
        match self.begin_start() {
            Ok(()) => self.finish_start(mqtt_configs, zmq_configs, mappings),
            Err(error) => Err(error),
        }
    }

    /// Stops the bridge, whatever its state: every worker is to be told to
    /// stop and joined, no worker is left, and the bridge is stopped. The
    /// snapshot of the mappings stays.
    pub fn stop(&mut self)
        ensures
            final(self)@ == after_stop(old(self)@),
    {
        self.mqtt_targets = Vec::new();
        self.zmq_targets = Vec::new();
        self.state = BridgeState::Stopped;
    }

    /// Notes a failure that the bridge does not survive: its workers are to
    /// be stopped, and it is in error until it is stopped.
    pub fn fail(&mut self)
        ensures
            final(self)@ == after_failure(old(self)@),
    {
        self.mqtt_targets = Vec::new();
        self.zmq_targets = Vec::new();
        self.state = BridgeState::Error;
    }

    /// Restarts the bridge with the configuration given: stops it, whatever
    /// its state, and starts it; the workers of the plan are to be started
    /// once the delay has passed.
    pub fn restart(
        &mut self,
        mqtt_configs: &Vec<MqttConfig>,
        zmq_configs: &Vec<ZmqConfig>,
        mappings: Vec<TopicMapping>,
    ) -> (plan: RestartPlan)
        ensures
            Ok::<CoreView, StartError>(final(self)@) == after_start(
                after_stop(old(self)@),
                mqtt_configs@,
                zmq_configs@,
                mappings@,
            ),
            plan.delay_ms == RESTART_DELAY_MS,
            mqtt_spawn_views(plan.spawn.mqtt@) == mqtt_spawns(mqtt_configs@, mappings@),
            zmq_spawn_views(plan.spawn.zmq@) == zmq_spawns(zmq_configs@),
    {
        self.stop();
        let workers = plan_workers(mqtt_configs, zmq_configs, &mappings);
        self.mappings_cache = mappings;
        self.mqtt_targets = workers.mqtt_targets;
        self.zmq_targets = workers.zmq_targets;
        self.state = BridgeState::Running;
        RestartPlan { delay_ms: RESTART_DELAY_MS, spawn: workers.plan }
    }

    /// Replaces the snapshot of the mappings, whole, and gives every MQTT
    /// worker its new set of subscriptions. ZeroMQ workers are left alone.
    pub fn reload_mappings(&mut self, mappings: Vec<TopicMapping>) -> (updates: Vec<
        SubscriptionUpdate,
    >)
        ensures
            final(self)@ == after_reload(old(self)@, mappings@),
            update_views(updates@) == subscription_updates(old(self)@.mqtt_targets, mappings@),
    {
        self.mappings_cache = mappings;
        plan_subscriptions(&self.mqtt_targets, &self.mappings_cache)
    }

    /// Routes one message over the current snapshot of the mappings.
    pub fn route(&self, msg: &ForwardMessage) -> (outcome: RouteOutcome)
        ensures
            dispatch_views(outcome.dispatches@) == routed_by(self@, *msg),
            outcome.unknown_targets == unknown_target_count(
                self@.mappings,
                *msg,
                self@.mqtt_targets,
                self@.zmq_targets,
            ),
    {
        route_message(msg, &self.mappings_cache, &self.mqtt_targets, &self.zmq_targets)
    }
}

/// After a stop no worker is left, whatever the bridge was doing, and the
/// next start is accepted and leaves the bridge running.
pub proof fn lemma_start_after_stop(
    core: CoreView,
    mqtt_configs: Seq<MqttConfig>,
    zmq_configs: Seq<ZmqConfig>,
    mappings: Seq<TopicMapping>,
)
    ensures
        after_stop(core).state == BridgeState::Stopped,
        without_workers(after_stop(core)),
        after_start(after_stop(core), mqtt_configs, zmq_configs, mappings) matches Ok(running)
            && running.state == BridgeState::Running,
{
}

/// Stopping a stopped bridge changes nothing.
pub proof fn lemma_stop_is_idempotent(core: CoreView)
    ensures
        after_stop(after_stop(core)) == after_stop(core),
{
}

/// A start is accepted from the stopped state and from no other.
pub proof fn lemma_start_only_from_stopped(
    core: CoreView,
    mqtt_configs: Seq<MqttConfig>,
    zmq_configs: Seq<ZmqConfig>,
    mappings: Seq<TopicMapping>,
)
    ensures
        after_start(core, mqtt_configs, zmq_configs, mappings) is Ok <==> core.state
            == BridgeState::Stopped,
{
}

/// After a reload, a message is routed over the new mappings alone: what the
/// snapshot held before has no part in it.
pub proof fn lemma_route_after_reload(
    core: CoreView,
    other: CoreView,
    mappings: Seq<TopicMapping>,
    msg: ForwardMessage,
)
    requires
        other.mqtt_targets == core.mqtt_targets,
        other.zmq_targets == core.zmq_targets,
    ensures
        routed_by(after_reload(core, mappings), msg) == routed(
            mappings,
            msg,
            core.mqtt_targets,
            core.zmq_targets,
        ),
        routed_by(after_reload(core, mappings), msg) == routed_by(
            after_reload(other, mappings),
            msg,
        ),
{
}

/// Whether the bridge may pass from one state to another: from stopped to
/// connecting, from connecting to running, and from any state to stopped or
/// to error.
pub open spec fn may_follow(from: BridgeState, to: BridgeState) -> bool {
    ||| from == to
    ||| from == BridgeState::Stopped && to == BridgeState::Connecting
    ||| from == BridgeState::Connecting && to == BridgeState::Running
    ||| to == BridgeState::Stopped
    ||| to == BridgeState::Error
}

/// No operation of the supervisor takes the bridge from one state to
/// another but along the allowed ways: it runs only after it was
/// connecting, and connects only after it was stopped.
pub proof fn lemma_operations_follow_the_states(
    core: CoreView,
    mqtt_configs: Seq<MqttConfig>,
    zmq_configs: Seq<ZmqConfig>,
    mappings: Seq<TopicMapping>,
)
    ensures
        after_begin_start(core) matches Ok(next) ==> may_follow(core.state, next.state),
        after_finish_start(core, mqtt_configs, zmq_configs, mappings) matches Ok(next)
            ==> may_follow(core.state, next.state),
        may_follow(core.state, after_fail_start(core).state),
        may_follow(core.state, after_stop(core).state),
        may_follow(core.state, after_failure(core).state),
        may_follow(core.state, after_reload(core, mappings).state),
{
}

/// Every operation of the supervisor keeps workers to the running state.
pub proof fn lemma_operations_keep_consistency(
    core: CoreView,
    mqtt_configs: Seq<MqttConfig>,
    zmq_configs: Seq<ZmqConfig>,
    mappings: Seq<TopicMapping>,
)
    requires
        consistent(core),
    ensures
        after_begin_start(core) matches Ok(next) ==> consistent(next),
        after_finish_start(core, mqtt_configs, zmq_configs, mappings) matches Ok(next)
            ==> consistent(next),
        consistent(after_fail_start(core)),
        consistent(after_stop(core)),
        consistent(after_failure(core)),
        consistent(after_reload(core, mappings)),
{
}

} // verus!
