//! A store with simulated data, for development.

pub mod bridge_mock;

pub use bridge_mock::MockBridgeStore;
