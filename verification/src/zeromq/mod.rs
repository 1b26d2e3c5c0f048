//! ZeroMQ endpoints: wire framing and socket setup.

pub mod client;

pub use client::{
    decode_frame, encode_frame, is_useful, socket_plan, FrameError, SocketPlan, ZmqClient,
    ZmqMessage,
};
