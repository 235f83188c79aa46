//! The check that guards writes.

use crate::text::{bytes_view, header_text, header_text_of, same_text};
use vstd::prelude::*;
use vstd::string::*;

verus! {

/// The credential that carries `token`: the scheme word, one space, the token.
pub open spec fn bearer(token: Seq<char>) -> Seq<char> {
    "Bearer "@ + token
}

/// Whether a write may pass. Without a configured secret every write may;
/// with one, only a write that presents exactly the credential carrying it.
pub open spec fn authorized(secret: Option<Seq<char>>, credential: Option<Seq<char>>) -> bool {
    match secret {
        None => true,
        Some(token) => credential == Some(bearer(token)),
    }
}

/// The credential that an `Authorization` header presents: its text, or
/// nothing where the header is missing or is not text.
pub open spec fn presented(authorization: Option<Seq<u8>>) -> Option<Seq<char>> {
    match authorization {
        Some(raw) => header_text_of(raw),
        None => None,
    }
}

/// Decides whether a write with `presented_credential` may pass when
/// `configured_secret` is required.
pub fn authorize(configured_secret: &Option<String>, presented_credential: &Option<String>) -> (granted: bool)
    ensures
        granted == authorized(configured_secret.deep_view(), presented_credential.deep_view()),
{
    match configured_secret {
        None => true,
        Some(secret) => match presented_credential {
            None => false,
            Some(credential) => {
                let mut expected = String::from_str("Bearer ");
                expected.append(secret.as_str());
                same_text(credential.as_str(), expected.as_str())
            },
        },
    }
}

/// Decides whether a write may pass, from the `Authorization` header as it
/// was received. The header is read only where a secret is configured.
pub fn authorize_header(configured_secret: &Option<String>, authorization: &Option<Vec<u8>>) -> (granted: bool)
    ensures
        granted == authorized(configured_secret.deep_view(), presented(bytes_view(*authorization))),
{
    match configured_secret {
        None => true,
        Some(_) => {
            let credential = match authorization {
                Some(raw) => header_text(raw.as_slice()),
                None => None,
            };
            authorize(configured_secret, &credential)
        },
    }
}

} // verus!
