//! Data model: configurations, mappings, status and authentication payloads.

pub mod auth;
pub mod bridge;

pub use auth::{
    ChangePasswordRequest, Claims, CreateUserRequest, LoginRequest, LoginResponse, MeResponse,
    UpdateUserRequest, User, UserRecord, UserResponse,
};
pub use bridge::{
    BridgeState, BridgeStatus, ConnectionStatus, CreateMappingRequest, CreateMqttConfigRequest,
    CreateZmqConfigRequest, EndpointType, MappingDirection, MessageStats, MqttConfig,
    TopicMapping, ZmqConfig, ZmqSocketType,
};
