//! The claims of a session token and the ways a token can be refused.

use vstd::prelude::*;
use vstd::string::*;
use crate::clock::{count_seconds, now_seconds};

verus! {

/// For how many seconds a token is valid.
pub const TOKEN_LIFETIME_SECONDS: u64 = 86400;

/// The claims of a session token.
#[derive(Debug, Clone, PartialEq, Eq)]
pub struct Claims {
    /// The user that the token was issued to.
    pub sub: String,
    /// When the token expires, in seconds since the epoch.
    pub exp: u64,
    /// When the token was issued, in seconds since the epoch.
    pub iat: u64,
}

/// Why a token's signature or form was refused, as far as refusals are told apart.
#[derive(Clone, Copy, Debug, PartialEq, Eq, Structural)]
pub enum TokenFault {
    ExpiredSignature,
    InvalidSignature,
    InvalidToken,
    /// Any other refusal.
    Other,
}

/// Why a token was refused.
#[derive(Debug, Clone, PartialEq, Eq)]
pub enum TokenError {
    Expired,
    InvalidSignature,
    InvalidToken,
    /// The token claims to have been issued in the future.
    TooEarly,
    /// Any other refusal, with its text.
    Other(String),
}

impl TokenError {
    /// The refusal that stands for a fault of checking the token; `text` is
    /// the fault's text, kept where the fault is none of the known ones.
    pub fn from_fault(fault: TokenFault, text: String) -> (e: TokenError)
        ensures
            match fault {
                TokenFault::ExpiredSignature => e is Expired,
                TokenFault::InvalidSignature => e is InvalidSignature,
                TokenFault::InvalidToken => e is InvalidToken,
                TokenFault::Other => e == TokenError::Other(text),
            },
    {
        match fault {
            TokenFault::ExpiredSignature => TokenError::Expired,
            TokenFault::InvalidSignature => TokenError::InvalidSignature,
            TokenFault::InvalidToken => TokenError::InvalidToken,
            TokenFault::Other => TokenError::Other(text),
        }
    }
}

/// A time that leaves room for the lifetime of a token behind it.
fn now_cap(now: u64) -> (capped: u64)
    ensures
        capped + TOKEN_LIFETIME_SECONDS <= u64::MAX,
        now + TOKEN_LIFETIME_SECONDS <= u64::MAX ==> capped == now,
{
    if now > u64::MAX - TOKEN_LIFETIME_SECONDS {
        u64::MAX - TOKEN_LIFETIME_SECONDS
    } else {
        now
    }
}

impl Claims {
    /// The claims of a token issued to `user_id` at `now`: valid from then,
    /// for a day.
    pub fn issue(user_id: &str, now: u64) -> (claims: Claims)
        requires
            now + TOKEN_LIFETIME_SECONDS <= u64::MAX,
        ensures
            claims.sub@ == user_id@,
            claims.iat == now,
            claims.exp == now + TOKEN_LIFETIME_SECONDS,
    {
        Claims { sub: String::from_str(user_id), iat: now, exp: now + TOKEN_LIFETIME_SECONDS }
    }

    /// The claims of a token issued to `user_id` at the time of the call:
    /// valid from then, for a day.
    pub fn for_user(user_id: &str) -> (claims: Claims)
        ensures
            claims.sub@ == user_id@,
            claims.exp == claims.iat + TOKEN_LIFETIME_SECONDS,
    {
        let now = count_seconds(now_seconds());
        Claims::issue(user_id, now_cap(now))
    }

    /// Accepts the claims of a token whose signature and expiry were checked,
    /// unless it was issued after the time of the call. Claims issued at the
    /// epoch are accepted whatever the clock reads.
    pub fn check_now(self) -> (r: Result<Claims, TokenError>)
        ensures
            self.iat == 0 ==> r is Ok,
            r matches Ok(claims) ==> claims == self,
            r matches Err(e) ==> e is TooEarly && self.iat > 0,
    {
        let now = count_seconds(now_seconds());
        self.check_issued(now)
    }

    /// Accepts the claims of a token whose signature and expiry were checked,
    /// unless it was issued after `now`.
    pub fn check_issued(self, now: u64) -> (r: Result<Claims, TokenError>)
        ensures
            r is Ok <==> self.iat <= now,
            r matches Ok(claims) ==> claims == self,
            r matches Err(e) ==> e is TooEarly,
    {
        if self.iat > now {
            Err(TokenError::TooEarly)
        } else {
            Ok(self)
        }
    }
}

} // verus!
