//! The rules behind the management interface: what a request has to meet,
//! and what it is answered with.

pub mod auth;
pub mod status;
pub mod users;
