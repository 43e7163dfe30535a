//! Basic-auth verification: decode the authorization payload, read it as
//! "username:password", and look the pair up in the configuration.
//!
//! Fetching the header off the request is the transport layer's business; it
//! hands the raw header value over and gets the authenticated user or the
//! reason for refusal back.

use base64::Engine;
use vstd::prelude::*;
use vstd::string::StrSliceExecFns;

verus! {

use crate::config::{Config, User, user_matches};
use crate::util::{find_char_from, index_of_from};

/// Why a request could not be authenticated.
#[derive(Debug, Clone, Copy, PartialEq, Eq, Structural)]
pub enum AuthError {
    /// No authorization header was supplied.
    MissingAuthorizationHeader,
    /// The header did not decode to colon-separated credentials.
    BadCredentials,
    /// No configured user carries the supplied credentials.
    UserNotFound,
}

/// What the standard-alphabet base64 decoder yields for this text — a
/// function of the characters alone — or nothing, for text that is not
/// valid base64.
pub uninterp spec fn base64_decoded(s: Seq<char>) -> Option<Seq<u8>>;

/// Relies on base64's Engine::decode with the STANDARD engine: the decoded
/// bytes, or a decode error for invalid input.
#[verifier::external_body]
fn base64_decode(s: &str) -> (r: Option<Vec<u8>>)
    ensures
        match r {
            Some(v) => base64_decoded(s@) == Some(v@),
            None => base64_decoded(s@) is None,
        },
{
    base64::engine::general_purpose::STANDARD.decode(s).ok()
}

/// The text lossy UTF-8 conversion yields for these bytes — invalid
/// sequences replaced with the replacement character; a function of the
/// bytes alone.
pub uninterp spec fn lossy_utf8(bytes: Seq<u8>) -> Seq<char>;

/// Relies on String::from_utf8_lossy: the bytes read as UTF-8 text, invalid
/// sequences replaced.
#[verifier::external_body]
fn utf8_lossy(bytes: &Vec<u8>) -> (r: String)
    ensures
        r@ == lossy_utf8(bytes@),
{
    String::from_utf8_lossy(bytes).into_owned()
}

/// The credentials a decoded payload carries: the text before the first
/// colon as the username, and the text from there to the second colon — or
/// to the end — as the password. Nothing when no colon is present, the
/// password being missing then.
pub open spec fn credentials_of(s: Seq<char>) -> Option<(Seq<char>, Seq<char>)> {
    match index_of_from(s, ':', 0) {
        None => None,
        Some(i) => Some(
            (
                s.subrange(0, i),
                match index_of_from(s, ':', i + 1) {
                    None => s.subrange(i + 1, s.len() as int),
                    Some(j) => s.subrange(i + 1, j),
                },
            ),
        ),
    }
}

/// Split a decoded authorization payload into username and password.
pub fn split_credentials(decoded: &str) -> (r: Option<(&str, &str)>)
    ensures
        match r {
            Some(cred) => credentials_of(decoded@) == Some((cred.0@, cred.1@)),
            None => credentials_of(decoded@) is None,
        },
{
    let n = decoded.unicode_len();
    match find_char_from(decoded, ':', 0) {
        None => None,
        Some(i) => {
            let username = decoded.substring_char(0, i);
            let password = match find_char_from(decoded, ':', i + 1) {
                None => decoded.substring_char(i + 1, n),
                Some(j) => decoded.substring_char(i + 1, j),
            };
            Some((username, password))
        },
    }
}

/// The authentication decision on an already-decoded payload: the first
/// configured user carrying exactly the payload's credentials. A payload
/// without a colon-separated pair is refused as `BadCredentials`; matching
/// credentials missing from the configuration are refused as `UserNotFound`.
pub fn authenticate_decoded<'a>(config: &'a Config, decoded: &str) -> (r: Result<
    &'a User,
    AuthError,
>)
    ensures
        match credentials_of(decoded@) {
            None => match r {
                Ok(_) => false,
                Err(e) => e == AuthError::BadCredentials,
            },
            Some(cred) => match r {
                Ok(u) => exists|i: int|
                    0 <= i < config.users@.len() && *u == config.users@[i] && user_matches(
                        config.users@[i],
                        cred.0,
                        cred.1,
                    ) && (forall|j: int|
                        0 <= j < i ==> !user_matches(config.users@[j], cred.0, cred.1)),
                Err(e) => e == AuthError::UserNotFound && forall|i: int|
                    0 <= i < config.users@.len() ==> !user_matches(
                        config.users@[i],
                        cred.0,
                        cred.1,
                    ),
            },
        },
{
    match split_credentials(decoded) {
        None => Err(AuthError::BadCredentials),
        Some((username, password)) => match config.verify_user(username, password) {
            Some(u) => Ok(u),
            None => Err(AuthError::UserNotFound),
        },
    }
}

/// Authenticate a request from its authorization header: absent header,
/// undecodable header, or a payload without colon-separated credentials are
/// refused with the respective error; otherwise the first configured user
/// with the payload's credentials is returned, or `UserNotFound` when there
/// is none.
pub fn authenticate<'a>(config: &'a Config, authorization: Option<&str>) -> (r: Result<
    &'a User,
    AuthError,
>)
    ensures
        match authorization {
            None => match r {
                Ok(_) => false,
                Err(e) => e == AuthError::MissingAuthorizationHeader,
            },
            Some(h) => match base64_decoded(h@) {
                None => match r {
                    Ok(_) => false,
                    Err(e) => e == AuthError::BadCredentials,
                },
                Some(bytes) => match credentials_of(lossy_utf8(bytes)) {
                    None => match r {
                        Ok(_) => false,
                        Err(e) => e == AuthError::BadCredentials,
                    },
                    Some(cred) => match r {
                        Ok(u) => exists|i: int|
                            0 <= i < config.users@.len() && *u == config.users@[i] && user_matches(
                                config.users@[i],
                                cred.0,
                                cred.1,
                            ) && (forall|j: int|
                                0 <= j < i ==> !user_matches(config.users@[j], cred.0, cred.1)),
                        Err(e) => e == AuthError::UserNotFound && forall|i: int|
                            0 <= i < config.users@.len() ==> !user_matches(
                                config.users@[i],
                                cred.0,
                                cred.1,
                            ),
                    },
                },
            },
        },
{
    match authorization {
        None => Err(AuthError::MissingAuthorizationHeader),
        Some(h) => match base64_decode(h) {
            None => Err(AuthError::BadCredentials),
            Some(bytes) => {
                let decoded = utf8_lossy(&bytes);
                authenticate_decoded(config, decoded.as_str())
            },
        },
    }
}

} // verus!
