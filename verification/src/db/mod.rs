//! The persisted layout: rows, the names that stand for enums, and what is
//! checked before a mapping is stored.

pub mod repository;

pub use repository::{
    validate_mapping, MessageStatsRow, MqttConfigRow, TopicMappingRow, ZmqConfigRow,
};
