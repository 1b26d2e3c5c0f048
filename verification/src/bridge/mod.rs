//! The dispatch engine: topic patterns, routing, workers and the supervisor.

pub mod endpoint;
pub mod laws;
pub mod supervisor;
pub mod topic_mapper;
pub mod worker;

pub use endpoint::{MqttAction, MqttWorker, ZmqAction, ZmqWorker};
pub use supervisor::{BridgeCore, RestartPlan, StartError, RESTART_DELAY_MS};
pub use topic_mapper::{
    apply_topic_mapping, matches_topic_pattern, validate_pattern, PatternError, TopicMapper,
};
pub use worker::{
    route_message, BridgeWorker, Dispatch, ForwardMessage, MessageSource, MqttCommand,
    RouteOutcome, SpawnPlan, SubscriptionUpdate, ZmqCommand,
};
