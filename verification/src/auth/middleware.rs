//! The bearer token of a request.

use crate::error::AppError;
use crate::models::User;
use crate::text::{chars_of, string_of};
use vstd::prelude::*;

verus! {

/// The user that a request was authenticated as.
#[derive(Debug, Clone)]
pub struct AuthUser(pub User);

/// What stands before the token in an authorization header.
pub open spec fn bearer_prefix() -> Seq<char> {
    "Bearer "@
}

/// Whether `text` begins with `prefix`.
pub open spec fn begins_with(text: Seq<char>, prefix: Seq<char>) -> bool {
    prefix.len() <= text.len() && text.take(prefix.len() as int) == prefix
}

/// The token of an authorization header: what follows `Bearer `.
///
/// Fails where the header is missing or does not begin with `Bearer `.
#[verifier::loop_isolation(false)]
pub fn bearer_token(header: Option<&str>) -> (token: Result<String, AppError>)
    ensures
        token is Ok <==> (header matches Some(text) && begins_with(text@, bearer_prefix())),
        token matches Ok(t) ==> (header matches Some(text) && t@ == text@.skip(
            bearer_prefix().len() as int,
        )),
        token matches Err(error) ==> {
            &&& error matches AppError::AuthError(message)
            &&& message@ == if header is None {
                "Missing authorization header"@
            } else {
                "Invalid authorization header format"@
            }
        },
{
    let text = match header {
        Some(text) => text,
        None => {
            return Err(AppError::AuthError("Missing authorization header".to_string()));
        },
    };
    let chars = chars_of(text);
    let prefix = chars_of("Bearer ");
    let mut i: usize = 0;
    if chars.len() < prefix.len() {
        return Err(AppError::AuthError("Invalid authorization header format".to_string()));
    }
    while i < prefix.len()
        invariant
            i <= prefix.len(),
            prefix.len() <= chars.len(),
            chars@.take(i as int) == prefix@.take(i as int),
        decreases prefix.len() - i,
    {
        if chars[i] != prefix[i] {
            assert(chars@.take(prefix.len() as int)[i as int] != prefix@[i as int]);
            return Err(AppError::AuthError("Invalid authorization header format".to_string()));
        }
        assert(chars@.take(i + 1) == chars@.take(i as int).push(chars@[i as int]));
        assert(prefix@.take(i + 1) == prefix@.take(i as int).push(prefix@[i as int]));
        i = i + 1;
    }
    assert(prefix@.take(prefix.len() as int) == prefix@);
    let mut rest: Vec<char> = Vec::new();
    let mut k: usize = prefix.len();
    while k < chars.len()
        invariant
            prefix.len() <= k <= chars.len(),
            rest@ == chars@.subrange(prefix.len() as int, k as int),
        decreases chars.len() - k,
    {
        rest.push(chars[k]);
        assert(chars@.subrange(prefix.len() as int, k + 1) == chars@.subrange(
            prefix.len() as int,
            k as int,
        ).push(chars@[k as int]));
        k = k + 1;
    }
    assert(chars@.subrange(prefix.len() as int, chars.len() as int) == chars@.skip(
        prefix.len() as int,
    ));
    Ok(string_of(&rest))
}

} // verus!
