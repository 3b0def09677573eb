//! Credentials: what a login must hold, how a password is checked against
//! the cache and the store, and where a request carries its token.

use vstd::prelude::*;
use vstd::string::*;
use crate::dtos::LoginRequest;
use crate::error::{AppError, ErrorKind};
use crate::text::{joined, starts_with, str_eq, substring, trim, trimmed_of};

verus! {

/// What stands before the token in the header that carries it.
pub open spec fn bearer_prefix() -> Seq<char> {
    "Bearer "@
}

/// The token of a request, from its `Authorization` header: what follows
/// `Bearer `. A request without such a header is unauthorized.
pub fn bearer_token(header: Option<&str>) -> (r: Result<String, AppError>)
    ensures
        match header {
            Some(value) if bearer_prefix().is_prefix_of(value@) => r matches Ok(token) && token@
                == value@.subrange(bearer_prefix().len() as int, value@.len() as int),
            _ => r matches Err(e) && e.is_failure(ErrorKind::Unauthorized, "can not get token"@),
        },
{
    match header {
        Some(value) => {
            if starts_with(value, "Bearer ") {
                proof {
                    reveal_strlit("Bearer ");
                }
                Ok(substring(value, 7, value.unicode_len()))
            } else {
                Err(AppError::Unauthorized(String::from_str("can not get token")))
            }
        },
        None => Err(AppError::Unauthorized(String::from_str("can not get token"))),
    }
}

/// The key under which a user is cached.
pub fn user_cache_key(username: &str) -> (key: String)
    ensures
        key@ == "user:"@ + username@,
{
    joined("user:", username)
}

/// A field of a login without the white space around it; `trimmed` is the
/// field without that white space. A blank field is a bad request with the
/// given reason.
pub fn present_field(trimmed: String, blank_reason: &str) -> (r: Result<String, AppError>)
    ensures
        r is Ok <==> trimmed@.len() > 0,
        r matches Ok(text) ==> text == trimmed,
        r matches Err(e) ==> e.is_failure(ErrorKind::BadRequest, blank_reason@),
{
    if trimmed.as_str().unicode_len() == 0 {
        Err(AppError::BadRequest(String::from_str(blank_reason)))
    } else {
        Ok(trimmed)
    }
}

/// Why a login cannot be checked, if it cannot: a field is missing or blank.
pub open spec fn credentials_failure(request: LoginRequest) -> Option<Seq<char>> {
    match request.identity {
        None => Some("Username is required"@),
        Some(identity) => if trimmed_of(identity@).len() == 0 {
            Some("Username cannot be empty"@)
        } else {
            match request.password {
                None => Some("Password is required"@),
                Some(password) => if trimmed_of(password@).len() == 0 {
                    Some("Password cannot be empty"@)
                } else {
                    None
                },
            }
        },
    }
}

impl LoginRequest {
    /// The user name and the password of a login, each without the white
    /// space around it. A field that is missing or blank is a bad request.
    pub fn credentials(&self) -> (r: Result<(String, String), AppError>)
        ensures
            match credentials_failure(*self) {
                Some(reason) => r matches Err(e) && e.is_failure(ErrorKind::BadRequest, reason),
                None => r matches Ok(pair) && pair.0@ == trimmed_of(self.identity->0@) && pair.1@
                    == trimmed_of(self.password->0@),
            },
    {
        let username = match &self.identity {
            Some(identity) => match present_field(
                trim(identity.as_str()),
                "Username cannot be empty",
            ) {
                Ok(name) => name,
                Err(e) => {
                    return Err(e);
                },
            },
            None => {
                return Err(AppError::BadRequest(String::from_str("Username is required")));
            },
        };
        let password = match &self.password {
            Some(password) => match present_field(
                trim(password.as_str()),
                "Password cannot be empty",
            ) {
                Ok(password) => password,
                Err(e) => {
                    return Err(e);
                },
            },
            None => {
                return Err(AppError::BadRequest(String::from_str("Password is required")));
            },
        };
        Ok((username, password))
    }
}

/// What looking a user up gave, in the cache or in the store.
#[derive(Debug, Clone, PartialEq, Eq)]
pub enum UserLookup {
    /// The user, with the password on record.
    Found { password: String },
    /// There is no such user.
    Missing,
    /// The lookup itself failed.
    Failed { error: AppError },
}

/// What follows from looking a user up in the cache.
#[derive(Debug, Clone, PartialEq, Eq)]
pub enum CacheVerdict {
    /// The password is the one on record.
    Accepted,
    /// The user is not cached: the store has to be asked.
    AskStore,
    /// The login is refused.
    Refused { error: AppError },
}

/// Checks a password against the cache: a cached user decides the login, a
/// user that is not cached sends it on to the store, and a lookup that
/// failed for another reason refuses it with that failure.
pub fn check_cached_password(cached: UserLookup, password: &str) -> (verdict: CacheVerdict)
    ensures
        match cached {
            UserLookup::Found { password: stored } => if stored@ == password@ {
                verdict is Accepted
            } else {
                verdict matches CacheVerdict::Refused { error } && error.is_failure(
                    ErrorKind::Unauthorized,
                    "Invalid username or password"@,
                )
            },
            UserLookup::Missing => verdict is AskStore,
            UserLookup::Failed { error } => if error.kind_spec() == ErrorKind::NotFound {
                verdict is AskStore
            } else {
                verdict == (CacheVerdict::Refused { error })
            },
        },
{
    match cached {
        UserLookup::Found { password: stored } => {
            if str_eq(stored.as_str(), password) {
                CacheVerdict::Accepted
            } else {
                CacheVerdict::Refused {
                    error: AppError::Unauthorized(String::from_str("Invalid username or password")),
                }
            }
        },
        UserLookup::Missing => CacheVerdict::AskStore,
        UserLookup::Failed { error } => match error.kind() {
            ErrorKind::NotFound => CacheVerdict::AskStore,
            _ => CacheVerdict::Refused { error },
        },
    }
}

/// Checks a password against the store: only a stored user with that
/// password is let in; anything else is unauthorized.
pub fn check_stored_password(stored: &UserLookup, password: &str) -> (r: Result<(), AppError>)
    ensures
        r is Ok <==> (stored matches UserLookup::Found { password: on_record } && on_record@
            == password@),
        r matches Err(e) ==> e.is_failure(
            ErrorKind::Unauthorized,
            "Invalid username or password"@,
        ),
{
    match stored {
        UserLookup::Found { password: on_record } => {
            if str_eq(on_record.as_str(), password) {
                Ok(())
            } else {
                Err(AppError::Unauthorized(String::from_str("Invalid username or password")))
            }
        },
        _ => Err(AppError::Unauthorized(String::from_str("Invalid username or password"))),
    }
}

/// Checks a password against the cache alone: only a cached user with that
/// password is let in. A user that is not cached is unauthorized; a lookup
/// that failed for another reason refuses the login with that failure.
pub fn check_cache_only_password(cached: UserLookup, password: &str) -> (r: Result<(), AppError>)
    ensures
        r is Ok <==> (cached matches UserLookup::Found { password: stored } && stored@
            == password@),
        r matches Err(e) ==> (match cached {
            UserLookup::Failed { error } => if error.kind_spec() == ErrorKind::NotFound {
                e.is_failure(ErrorKind::Unauthorized, "Invalid username or password"@)
            } else {
                e == error
            },
            _ => e.is_failure(ErrorKind::Unauthorized, "Invalid username or password"@),
        }),
{
    match check_cached_password(cached, password) {
        CacheVerdict::Accepted => Ok(()),
        CacheVerdict::AskStore => Err(
            AppError::Unauthorized(String::from_str("Invalid username or password")),
        ),
        CacheVerdict::Refused { error } => Err(error),
    }
}

/// The answer to a login whose password was checked: the token where the
/// password was right and a token could be made, else the failure.
pub fn login_outcome(password_ok: bool, token: Option<String>) -> (r: Result<String, AppError>)
    ensures
        match (password_ok, token) {
            (true, Some(t)) => r == Ok::<String, AppError>(t),
            (true, None) => r matches Err(e) && e.is_failure(
                ErrorKind::InternalServerError,
                "Failed to generate token"@,
            ),
            (false, _) => r matches Err(e) && e.is_failure(
                ErrorKind::Unauthorized,
                "validate user password not success"@,
            ),
        },
{
    if !password_ok {
        return Err(
            AppError::Unauthorized(String::from_str("validate user password not success")),
        );
    }
    match token {
        Some(t) => Ok(t),
        None => Err(AppError::InternalServerError(String::from_str("Failed to generate token"))),
    }
}

/// Lets a registration through unless the user name is taken.
pub fn username_available(taken: bool) -> (r: Result<(), AppError>)
    ensures
        r is Ok <==> !taken,
        r matches Err(e) ==> e.is_failure(ErrorKind::BadRequest, "Username already exists"@),
{
    if taken {
        Err(AppError::BadRequest(String::from_str("Username already exists")))
    } else {
        Ok(())
    }
}

/// What a lookup by user name found, or that there is no such user; `label`
/// stands before the name in the reason.
pub fn found_or_missing<T>(found: Option<T>, label: &str, username: &str) -> (r: Result<
    T,
    AppError,
>)
    ensures
        r is Ok <==> found is Some,
        r matches Ok(value) ==> found == Some(value),
        r matches Err(e) ==> e.is_failure(ErrorKind::NotFound, label@ + username@),
{
    match found {
        Some(value) => Ok(value),
        None => Err(AppError::with_detail(ErrorKind::NotFound, label, username)),
    }
}

/// Whether an update by user name changed a row: none changed means that
/// there is no such user.
pub fn updated_or_missing(rows_affected: u64, username: &str) -> (r: Result<(), AppError>)
    ensures
        r is Ok <==> rows_affected > 0,
        r matches Err(e) ==> e.is_failure(
            ErrorKind::NotFound,
            "User not found: "@ + username@,
        ),
{
    if rows_affected == 0 {
        Err(AppError::with_detail(ErrorKind::NotFound, "User not found: ", username))
    } else {
        Ok(())
    }
}

} // verus!
