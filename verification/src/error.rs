//! The errors that management operations answer with.

use vstd::prelude::*;
use vstd::string::StringExecFns;

verus! {

/// Why a management operation failed, with a message for the caller.
#[derive(Debug)]
pub enum AppError {
    /// The caller is not authenticated.
    AuthError(String),
    /// The session token is not acceptable.
    TokenError(String),
    /// What was asked for does not exist.
    NotFound(String),
    /// The request is not acceptable.
    BadRequest(String),
    /// The store failed.
    DbError(String),
    /// Anything else.
    Internal(String),
}

/// The body of an error answer.
#[derive(Debug)]
pub struct ErrorResponse {
    pub error: String,
    pub message: String,
}

/// The message that an error carries.
pub open spec fn message_of(error: AppError) -> Seq<char> {
    match error {
        AppError::AuthError(msg) => msg@,
        AppError::TokenError(msg) => msg@,
        AppError::NotFound(msg) => msg@,
        AppError::BadRequest(msg) => msg@,
        AppError::DbError(msg) => msg@,
        AppError::Internal(msg) => msg@,
    }
}

/// The HTTP status that answers an error.
pub open spec fn status_of(error: AppError) -> u16 {
    match error {
        AppError::AuthError(_) => 401,
        AppError::TokenError(_) => 401,
        AppError::NotFound(_) => 404,
        AppError::BadRequest(_) => 400,
        AppError::DbError(_) => 500,
        AppError::Internal(_) => 500,
    }
}

/// The name of the kind of an error, as the answer's body shows it.
pub open spec fn kind_of(error: AppError) -> Seq<char> {
    match error {
        AppError::AuthError(_) => "auth_error"@,
        AppError::TokenError(_) => "token_error"@,
        AppError::NotFound(_) => "not_found"@,
        AppError::BadRequest(_) => "bad_request"@,
        AppError::DbError(_) => "db_error"@,
        AppError::Internal(_) => "internal_error"@,
    }
}

/// What an error reads as: what went wrong, a colon, and the message.
pub open spec fn text_of(error: AppError) -> Seq<char> {
    (match error {
        AppError::AuthError(_) => "Authentication failed: "@,
        AppError::TokenError(_) => "Invalid token: "@,
        AppError::NotFound(_) => "Not found: "@,
        AppError::BadRequest(_) => "Bad request: "@,
        AppError::DbError(_) => "Database error: "@,
        AppError::Internal(_) => "Internal server error: "@,
    }) + message_of(error)
}

impl AppError {
    /// The message that the error carries.
    pub fn message(&self) -> (msg: String)
        ensures
            msg@ == message_of(*self),
    {
        match self {
            AppError::AuthError(msg) => msg.clone(),
            AppError::TokenError(msg) => msg.clone(),
            AppError::NotFound(msg) => msg.clone(),
            AppError::BadRequest(msg) => msg.clone(),
            AppError::DbError(msg) => msg.clone(),
            AppError::Internal(msg) => msg.clone(),
        }
    }

    /// The HTTP status that answers the error.
    pub fn status_code(&self) -> (status: u16)
        ensures
            status == status_of(*self),
    {
        match self {
            AppError::AuthError(_) => 401,
            AppError::TokenError(_) => 401,
            AppError::NotFound(_) => 404,
            AppError::BadRequest(_) => 400,
            AppError::DbError(_) => 500,
            AppError::Internal(_) => 500,
        }
    }

    /// The name of the error's kind.
    pub fn kind(&self) -> (name: &'static str)
        ensures
            name@ == kind_of(*self),
    {
        match self {
            AppError::AuthError(_) => "auth_error",
            AppError::TokenError(_) => "token_error",
            AppError::NotFound(_) => "not_found",
            AppError::BadRequest(_) => "bad_request",
            AppError::DbError(_) => "db_error",
            AppError::Internal(_) => "internal_error",
        }
    }

    /// The answer to the error: the status and the body.
    pub fn response(&self) -> (answer: (u16, ErrorResponse))
        ensures
            answer.0 == status_of(*self),
            answer.1.error@ == kind_of(*self),
            answer.1.message@ == message_of(*self),
    {
        (self.status_code(), ErrorResponse { error: self.kind().to_string(), message: self.message() })
    }

    /// What the error reads as.
    pub fn describe(&self) -> (text: String)
        ensures
            text@ == text_of(*self),
    {
        let mut text = String::new();
        match self {
            AppError::AuthError(_) => {
                text.append("Authentication failed: ");
            },
            AppError::TokenError(_) => {
                text.append("Invalid token: ");
            },
            AppError::NotFound(_) => {
                text.append("Not found: ");
            },
            AppError::BadRequest(_) => {
                text.append("Bad request: ");
            },
            AppError::DbError(_) => {
                text.append("Database error: ");
            },
            AppError::Internal(_) => {
                text.append("Internal server error: ");
            },
        }
        let message = self.message();
        text.append(message.as_str());
        assert(text@ =~= text_of(*self));
        text
    }
}

} // verus!
