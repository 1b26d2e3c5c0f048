//! The answer to a login.

use crate::auth::jwt::{EXPIRY_OUT_OF_RANGE, SECONDS_PER_HOUR};
use crate::error::AppError;
use crate::models::LoginResponse;
use vstd::prelude::*;

verus! {

/// The answer to a login that succeeded: the token, as a bearer token, with
/// its lifetime in seconds. Fails where the lifetime is out of range.
pub fn login_response(token: String, expiration_hours: i64) -> (answer: Result<
    LoginResponse,
    AppError,
>)
    ensures
        answer is Ok <==> i64::MIN <= expiration_hours * SECONDS_PER_HOUR <= i64::MAX,
        answer matches Ok(response) ==> {
            &&& response.token == token
            &&& response.token_type@ == "Bearer"@
            &&& response.expires_in == expiration_hours * SECONDS_PER_HOUR
        },
        answer matches Err(error) ==> {
            &&& error matches AppError::TokenError(message)
            &&& message@ == EXPIRY_OUT_OF_RANGE@
        },
{
    match expiration_hours.checked_mul(SECONDS_PER_HOUR) {
        Some(expires_in) => Ok(
            LoginResponse { token, token_type: "Bearer".to_string(), expires_in },
        ),
        None => Err(AppError::TokenError(EXPIRY_OUT_OF_RANGE.to_string())),
    }
}

} // verus!
