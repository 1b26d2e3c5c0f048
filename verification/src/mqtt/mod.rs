//! MQTT endpoints: connection options, subscriptions and publishes.

pub mod client;

pub use client::{ConnectPlan, MqttClient, MqttMessage, PublishRequest, SubscribeRequest};
