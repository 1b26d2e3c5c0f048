//! Authentication payloads and user records.

use vstd::prelude::*;

verus! {

/// Credentials presented at login.
#[derive(Debug)]
pub struct LoginRequest {
    pub username: String,
    pub password: String,
}

/// A freshly issued session token.
#[derive(Debug)]
pub struct LoginResponse {
    pub token: String,
    pub token_type: String,
    pub expires_in: i64,
}

/// The claims carried by a session token.
#[derive(Debug)]
pub struct Claims {
    /// Subject: the user's name.
    pub sub: String,
    /// Expiry, in seconds since the epoch.
    pub exp: i64,
    /// Time of issue, in seconds since the epoch.
    pub iat: i64,
}

/// An authenticated user.
#[derive(Debug, Clone)]
pub struct User {
    pub username: String,
}

/// The answer to "who am I".
#[derive(Debug)]
pub struct MeResponse {
    pub username: String,
}

/// A user as stored.
#[derive(Debug, Clone)]
pub struct UserRecord {
    pub id: u32,
    pub username: String,
    pub password_hash: String,
    pub is_default: bool,
    pub created_at: i64,
    pub updated_at: i64,
}

/// A user as shown to clients: the stored record without its password hash.
#[derive(Debug, Clone)]
pub struct UserResponse {
    pub id: u32,
    pub username: String,
    pub is_default: bool,
    pub created_at: i64,
    pub updated_at: i64,
}

impl From<UserRecord> for UserResponse {
    fn from(user: UserRecord) -> (shown: UserResponse) {
        UserResponse {
            id: user.id,
            username: user.username,
            is_default: user.is_default,
            created_at: user.created_at,
            updated_at: user.updated_at,
        }
    }
}

impl vstd::std_specs::convert::FromSpecImpl<UserRecord> for UserResponse {
    open spec fn obeys_from_spec() -> bool {
        true
    }

    open spec fn from_spec(user: UserRecord) -> UserResponse {
        UserResponse {
            id: user.id,
            username: user.username,
            is_default: user.is_default,
            created_at: user.created_at,
            updated_at: user.updated_at,
        }
    }
}

/// A request to create a user.
#[derive(Debug)]
pub struct CreateUserRequest {
    pub username: String,
    pub password: String,
}

/// A request to rename a user.
#[derive(Debug)]
pub struct UpdateUserRequest {
    pub username: String,
}

/// A request to change a user's password.
#[derive(Debug)]
pub struct ChangePasswordRequest {
    pub current_password: Option<String>,
    pub new_password: String,
}

} // verus!
