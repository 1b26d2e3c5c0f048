//! Authentication: credentials, token claims and the bearer header.

pub mod jwt;
pub mod middleware;

pub use jwt::{claims_at, new_claims, validate_credentials};
pub use middleware::{bearer_token, AuthUser};
