//! Credentials and the claims of a session token.

use crate::clock::unix_now;
use crate::config::AppConfig;
use crate::error::AppError;
use crate::models::Claims;
use vstd::prelude::*;

verus! {

/// What a token whose expiry does not fit is refused with.
pub const EXPIRY_OUT_OF_RANGE: &'static str = "Failed to encode token: expiry out of range";

/// The seconds in an hour.
pub const SECONDS_PER_HOUR: i64 = 3600;

/// Whether the credentials are those of the configuration's built-in user.
pub fn validate_credentials(username: &str, password: &str, config: &AppConfig) -> (valid: bool)
    ensures
        valid == (username@ == config.credentials.username@ && password@
            == config.credentials.password@),
{
    crate::text::str_eq(username, config.credentials.username.as_str()) && crate::text::str_eq(
        password,
        config.credentials.password.as_str(),
    )
}

/// When a token issued at `now` for `expiration_hours` hours expires, in
/// seconds since the epoch.
pub open spec fn expiry_of(now: i64, expiration_hours: i64) -> int {
    now + expiration_hours * SECONDS_PER_HOUR
}

/// Whether the expiry of a token fits the claims.
pub open spec fn expiry_fits(now: i64, expiration_hours: i64) -> bool {
    &&& i64::MIN <= expiration_hours * SECONDS_PER_HOUR <= i64::MAX
    &&& i64::MIN <= expiry_of(now, expiration_hours) <= i64::MAX
}

/// The claims of a token issued to `username` at `now` for
/// `expiration_hours` hours. Fails where the expiry is out of range.
pub fn claims_at(username: &str, now: i64, expiration_hours: i64) -> (claims: Result<
    Claims,
    AppError,
>)
    ensures
        claims is Ok <==> expiry_fits(now, expiration_hours),
        claims matches Ok(c) ==> c.sub@ == username@ && c.iat == now && c.exp == expiry_of(
            now,
            expiration_hours,
        ),
        claims matches Err(error) ==> {
            &&& error matches AppError::TokenError(message)
            &&& message@ == EXPIRY_OUT_OF_RANGE@
        },
{
    let lifetime = match expiration_hours.checked_mul(SECONDS_PER_HOUR) {
        Some(seconds) => seconds,
        None => {
            return Err(AppError::TokenError(EXPIRY_OUT_OF_RANGE.to_string()));
        },
    };
    match now.checked_add(lifetime) {
        Some(exp) => Ok(Claims { sub: username.to_string(), exp, iat: now }),
        None => Err(AppError::TokenError(EXPIRY_OUT_OF_RANGE.to_string())),
    }
}

/// The claims of a token issued to `username` now, by the system clock, for
/// as long as the configuration says.
pub fn new_claims(username: &str, config: &AppConfig) -> (claims: Result<Claims, AppError>)
    ensures
        claims matches Ok(c) ==> c.sub@ == username@ && expiry_fits(
            c.iat,
            config.jwt.expiration_hours,
        ) && c.exp == expiry_of(c.iat, config.jwt.expiration_hours),
        claims matches Err(error) ==> error is TokenError,
{
    claims_at(username, unix_now(), config.jwt.expiration_hours)
}

} // verus!
