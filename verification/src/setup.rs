//! Credentials: which kind a credential is, and whether a setup token looks
//! right.

use crate::text::{chars_of, push_decimal, push_str, starts_with_str, string_of, trim, trimmed};
use vstd::prelude::*;

verus! {

/// With what every setup token begins.
pub const TOKEN_PREFIX: &'static str = "sk-ant-oat";

/// The least number of characters of a setup token.
pub const SETUP_TOKEN_MIN_LENGTH: usize = 80;

/// The kind of a credential.
#[derive(Debug, Clone, Copy, PartialEq, Eq)]
pub enum CredentialType {
    ApiKey,
    OAuthToken,
}

/// The kind of a credential: a setup token where it begins like one, a key
/// otherwise.
pub fn detect_credential_type(credential: &str) -> (r: CredentialType)
    ensures
        r == if TOKEN_PREFIX@.is_prefix_of(credential@) {
            CredentialType::OAuthToken
        } else {
            CredentialType::ApiKey
        },
{
    let c = chars_of(credential);
    if starts_with_str(c.as_slice(), TOKEN_PREFIX) {
        CredentialType::OAuthToken
    } else {
        CredentialType::ApiKey
    }
}

/// The message for a token that is too short.
pub open spec fn too_short_message(length: nat) -> Seq<char> {
    "Token looks too short (got "@ + crate::text::decimal(length) + " chars, expected at least "@
        + crate::text::decimal(SETUP_TOKEN_MIN_LENGTH as nat) + "). Paste the full setup token."@
}

/// What is wrong with a setup token, if anything: it must begin like one and
/// have the length of one, whitespace around it not counted.
pub open spec fn token_fault(token: Seq<char>) -> Option<Seq<char>> {
    let t = trim(token);
    if !TOKEN_PREFIX@.is_prefix_of(t) {
        Some("Invalid token format: expected token starting with sk-ant-oat"@)
    } else if t.len() < SETUP_TOKEN_MIN_LENGTH {
        Some(too_short_message(t.len()))
    } else {
        None
    }
}

/// Checks the form of a setup token.
pub fn validate_oauth_token(token: &str) -> (r: Result<(), String>)
    ensures
        match r {
            Ok(_) => token_fault(token@) is None,
            Err(reason) => token_fault(token@) == Some(reason@),
        },
{
    let raw = chars_of(token);
    let t = trimmed(raw.as_slice());
    if !starts_with_str(t.as_slice(), TOKEN_PREFIX) {
        return Err("Invalid token format: expected token starting with sk-ant-oat".to_owned());
    }
    if t.len() < SETUP_TOKEN_MIN_LENGTH {
        let mut out: Vec<char> = Vec::new();
        push_str(&mut out, "Token looks too short (got ");
        push_decimal(&mut out, t.len() as u64);
        push_str(&mut out, " chars, expected at least ");
        push_decimal(&mut out, SETUP_TOKEN_MIN_LENGTH as u64);
        push_str(&mut out, "). Paste the full setup token.");
        return Err(string_of(out.as_slice()));
    }
    Ok(())
}

} // verus!
