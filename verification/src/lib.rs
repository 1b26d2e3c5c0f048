//! A runtime-reconfigurable bridge between MQTT brokers and ZeroMQ sockets.
//!
//! The crate holds the bridge's decision logic: topic patterns and rewriting,
//! the routing of a message over the active mappings, subscription
//! reconciliation, ZeroMQ framing, the supervisor's state machine and the
//! telemetry counters. Sockets, brokers, storage and HTTP are left to callers.

pub mod api;
pub mod auth;
pub mod bridge;
mod clock;
pub mod config;
pub mod db;
pub mod error;
pub mod mock;
pub mod models;
pub mod mqtt;
pub mod telemetry;
pub mod text;
pub mod zeromq;
