//! What the requests of user management have to meet.

use crate::error::AppError;
use crate::models::{
    ChangePasswordRequest, CreateUserRequest, UpdateUserRequest, UserRecord,
};
use crate::text::{chars_of, decimal_digits, push_decimal};
use vstd::prelude::*;
use vstd::string::StringExecFns;
use vstd::utf8::encode_utf8;

verus! {

/// The least length of a password, in bytes.
pub const MIN_PASSWORD_BYTES: usize = 6;

/// Whether a character is white space.
pub open spec fn is_white_space(c: char) -> bool {
    let n = c as u32;
    ||| 0x09 <= n <= 0x0d
    ||| n == 0x20
    ||| n == 0x85
    ||| n == 0xa0
    ||| n == 0x1680
    ||| 0x2000 <= n <= 0x200a
    ||| n == 0x2028
    ||| n == 0x2029
    ||| n == 0x202f
    ||| n == 0x205f
    ||| n == 0x3000
}

/// Whether a text holds nothing but white space.
pub open spec fn is_blank_text(text: Seq<char>) -> bool {
    forall|i: int| 0 <= i < text.len() ==> is_white_space(#[trigger] text[i])
}

/// Whether a password is too short.
pub open spec fn too_short(password: Seq<char>) -> bool {
    encode_utf8(password).len() < MIN_PASSWORD_BYTES
}

fn white_space(c: char) -> (yes: bool)
    ensures
        yes == is_white_space(c),
{
    let n = c as u32;
    (0x09 <= n && n <= 0x0d) || n == 0x20 || n == 0x85 || n == 0xa0 || n == 0x1680 || (0x2000
        <= n && n <= 0x200a) || n == 0x2028 || n == 0x2029 || n == 0x202f || n == 0x205f || n
        == 0x3000
}

/// Whether a text holds nothing but white space.
pub fn is_blank(text: &str) -> (blank: bool)
    ensures
        blank == is_blank_text(text@),
{
    let chars = chars_of(text);
    let mut i: usize = 0;
    while i < chars.len()
        invariant
            i <= chars.len(),
            chars@ == text@,
            forall|j: int| 0 <= j < i ==> is_white_space(#[trigger] chars@[j]),
        decreases chars.len() - i,
    {
        if !white_space(chars[i]) {
            assert(!is_white_space(text@[i as int]));
            return false;
        }
        i = i + 1;
    }
    true
}

fn bad_request(message: &str) -> (error: AppError)
    ensures
        error matches AppError::BadRequest(text) && text@ == message@,
{
    AppError::BadRequest(message.to_string())
}

/// What a user that is not there is answered with.
pub open spec fn user_not_found_text(id: u32) -> Seq<char> {
    "User with id "@ + decimal_digits(id as nat) + " not found"@
}

fn user_not_found(id: u32) -> (error: AppError)
    ensures
        error matches AppError::NotFound(text) && text@ == user_not_found_text(id),
{
    let mut message = String::new();
    message.append("User with id ");
    push_decimal(&mut message, id as u64);
    message.append(" not found");
    assert(message@ =~= user_not_found_text(id));
    AppError::NotFound(message)
}

/// Checks a request to create a user before the store is asked: the name
/// must not be blank, and the password must have six bytes at least.
pub fn check_create_user(req: &CreateUserRequest) -> (checked: Result<(), AppError>)
    ensures
        checked is Ok <==> !is_blank_text(req.username@) && !too_short(req.password@),
        checked matches Err(error) ==> {
            &&& error matches AppError::BadRequest(message)
            &&& message@ == if is_blank_text(req.username@) {
                "Username cannot be empty"@
            } else {
                "Password must be at least 6 characters"@
            }
        },
{
    if is_blank(req.username.as_str()) {
        return Err(bad_request("Username cannot be empty"));
    }
    if req.password.as_str().as_bytes().len() < MIN_PASSWORD_BYTES {
        return Err(bad_request("Password must be at least 6 characters"));
    }
    Ok(())
}

/// What a name that is in use is answered with, `ending` saying how.
pub open spec fn name_in_use_text(username: Seq<char>, ending: Seq<char>) -> Seq<char> {
    "Username '"@ + username + "' "@ + ending
}

fn name_in_use(username: &str, ending: &str) -> (error: AppError)
    ensures
        error matches AppError::BadRequest(text) && text@ == name_in_use_text(
            username@,
            ending@,
        ),
{
    let mut message = String::new();
    message.append("Username '");
    message.append(username);
    message.append("' ");
    message.append(ending);
    AppError::BadRequest(message)
}

/// Decides on a request to create a user once the store has been asked for
/// the name: the name must not be in use.
pub fn check_name_is_new(username: &str, existing: Option<&UserRecord>) -> (checked: Result<
    (),
    AppError,
>)
    ensures
        checked is Ok <==> existing is None,
        checked matches Err(error) ==> {
            &&& error matches AppError::BadRequest(message)
            &&& message@ == name_in_use_text(username@, "already exists"@)
        },
{
    match existing {
        Some(_) => Err(name_in_use(username, "already exists")),
        None => Ok(()),
    }
}

/// Checks a request to rename a user before the store is asked: the name
/// must not be blank.
pub fn check_update_user(req: &UpdateUserRequest) -> (checked: Result<(), AppError>)
    ensures
        checked is Ok <==> !is_blank_text(req.username@),
        checked matches Err(error) ==> {
            &&& error matches AppError::BadRequest(message)
            &&& message@ == "Username cannot be empty"@
        },
{
    if is_blank(req.username.as_str()) {
        Err(bad_request("Username cannot be empty"))
    } else {
        Ok(())
    }
}

/// Decides on a request to rename the user `id` once the store has been
/// asked for the name: no other user may have it.
pub fn check_name_is_free(id: u32, username: &str, existing: Option<&UserRecord>) -> (checked:
    Result<(), AppError>)
    ensures
        checked is Ok <==> (existing matches Some(user) ==> user.id == id),
        checked matches Err(error) ==> {
            &&& error matches AppError::BadRequest(message)
            &&& message@ == name_in_use_text(username@, "already taken"@)
        },
{
    match existing {
        Some(user) => {
            if user.id != id {
                Err(name_in_use(username, "already taken"))
            } else {
                Ok(())
            }
        },
        None => Ok(()),
    }
}

/// Answers a request about the user `id` once the store has been asked for
/// it: the user has to be there.
pub fn found_user(id: u32, user: Option<UserRecord>) -> (found: Result<UserRecord, AppError>)
    ensures
        found is Ok <==> user is Some,
        found matches Ok(record) ==> user == Some(record),
        found matches Err(error) ==> {
            &&& error matches AppError::NotFound(message)
            &&& message@ == user_not_found_text(id)
        },
{
    match user {
        Some(record) => Ok(record),
        None => Err(user_not_found(id)),
    }
}

/// Checks a request to change a password before the store is asked: the new
/// password must have six bytes at least.
pub fn check_change_password(req: &ChangePasswordRequest) -> (checked: Result<(), AppError>)
    ensures
        checked is Ok <==> !too_short(req.new_password@),
        checked matches Err(error) ==> {
            &&& error matches AppError::BadRequest(message)
            &&& message@ == "New password must be at least 6 characters"@
        },
{
    if req.new_password.as_str().as_bytes().len() < MIN_PASSWORD_BYTES {
        Err(bad_request("New password must be at least 6 characters"))
    } else {
        Ok(())
    }
}

/// Answers a request to change a password once the store has tried.
pub fn password_changed(success: bool) -> (answered: Result<(), AppError>)
    ensures
        answered is Ok <==> success,
        answered matches Err(error) ==> {
            &&& error matches AppError::BadRequest(message)
            &&& message@ == "Invalid current password or user not found"@
        },
{
    if success {
        Ok(())
    } else {
        Err(bad_request("Invalid current password or user not found"))
    }
}

/// Decides on a request to delete the user `id` once the store has been
/// asked for it: the user has to be there, and the built-in user stays.
pub fn check_delete_user(id: u32, user: Option<&UserRecord>) -> (checked: Result<(), AppError>)
    ensures
        checked is Ok <==> (user matches Some(record) && !record.is_default),
        checked matches Err(error) ==> match user {
            Some(_) => {
                &&& error matches AppError::BadRequest(message)
                &&& message@ == "Cannot delete default user"@
            },
            None => {
                &&& error matches AppError::NotFound(message)
                &&& message@ == user_not_found_text(id)
            },
        },
{
    match user {
        Some(record) => {
            if record.is_default {
                Err(bad_request("Cannot delete default user"))
            } else {
                Ok(())
            }
        },
        None => Err(user_not_found(id)),
    }
}

/// Answers a request to delete the user `id` once the store has tried.
pub fn user_deleted(id: u32, deleted: bool) -> (answered: Result<(), AppError>)
    ensures
        answered is Ok <==> deleted,
        answered matches Err(error) ==> {
            &&& error matches AppError::NotFound(message)
            &&& message@ == user_not_found_text(id)
        },
{
    if deleted {
        Ok(())
    } else {
        Err(user_not_found(id))
    }
}

} // verus!
