//! The token codec and the authentication gate.
//!
//! A token is an opaque signed string encoding a user id: a payload plus
//! a keyed message authentication code over it, computed under a single
//! process-wide secret. A token is valid iff its signature recomputes
//! correctly under that secret; possession of a valid token is the sole
//! authorization proof. No expiry or revocation exists: that is an
//! accepted non-goal, not an oversight.

use std::collections::BTreeMap;

use hmac::{Hmac, Mac};
use jwt::SignWithKey;
use jwt::VerifyWithKey;
use sha2::Sha256;
use vstd::prelude::*;

use crate::errors::AuthError;

verus! {

/// The identity a verified bearer token carries.
#[derive(Clone, Copy, Debug, PartialEq, Eq, Structural)]
pub struct TokenClaims {
    pub id: i32,
}

/// The signed token string produced for this secret and user id. The
/// signing is deterministic (ordered claims, fixed header), so the
/// result is a function of the secret and the id alone; its exact
/// bytes are left uninterpreted.
pub uninterp spec fn token_of(secret: Seq<char>, id: i32) -> Seq<char>;

/// The outcome of verifying a token string under a secret: the decoded
/// user id when the embedded signature recomputes correctly and the
/// payload carries an id, `None` otherwise. Deterministic in the secret
/// and the token alone.
pub uninterp spec fn claims_of(secret: Seq<char>, token: Seq<char>) -> Option<i32>;

/// Relies on jwt's `SignWithKey` for an `Hmac<Sha256>` key: it signs the
/// serialized claims `{"id": id}` with a fixed header, which fails on no
/// input, depends on the key bytes and the claims alone, and produces a
/// token that jwt's `VerifyWithKey` under the same key decodes back to
/// the same claims.
#[verifier::external_body]
fn jwt_sign(secret: &str, id: i32) -> (r: String)
    ensures
        r@ == token_of(secret@, id),
        claims_of(secret@, r@) == Some(id),
{
    let key: Hmac<Sha256> =
        Hmac::new_from_slice(secret.as_bytes()).expect("HMAC can take key of any size");
    let mut claims: BTreeMap<&str, i32> = BTreeMap::new();
    claims.insert("id", id);
    claims.sign_with_key(&key).expect("signing with HMAC cannot fail")
}

/// Relies on jwt's `VerifyWithKey` for an `Hmac<Sha256>` key: it parses
/// the token, recomputes the signature over the embedded payload and
/// compares; the outcome depends on the key bytes and the token alone.
#[verifier::external_body]
fn jwt_verify(secret: &str, token: &str) -> (r: Option<i32>)
    ensures
        r == claims_of(secret@, token@),
{
    let key: Hmac<Sha256> =
        Hmac::new_from_slice(secret.as_bytes()).expect("HMAC can take key of any size");
    let verified: Result<BTreeMap<String, i32>, jwt::Error> = token.verify_with_key(&key);
    match verified {
        Ok(claims) => claims.get("id").copied(),
        Err(_) => None,
    }
}

/// The token codec: issues and verifies signed bearer tokens under one
/// signing secret, loaded from configuration once at startup and passed
/// in by the caller — never a global.
pub struct TokenCodec {
    secret: String,
}

impl View for TokenCodec {
    type V = Seq<char>;

    closed spec fn view(&self) -> Seq<char> {
        self.secret@
    }
}

impl TokenCodec {
    pub fn new(secret: String) -> (codec: TokenCodec)
        ensures
            codec@ == secret@,
    {
        TokenCodec { secret }
    }

    /// Produce the signed credential representing "the caller is user `id`".
    pub fn issue(&self, id: i32) -> (token: String)
        ensures
            token@ == token_of(self@, id),
            claims_of(self@, token@) == Some(id),
    {
        jwt_sign(self.secret.as_str(), id)
    }

    /// Recompute the signature over the embedded payload and compare:
    /// the decoded identity on a match, `InvalidCredentials` otherwise.
    /// No distinction is surfaced between a malformed token and a bad
    /// signature.
    pub fn verify(&self, token: &str) -> (r: Result<TokenClaims, AuthError>)
        ensures
            match claims_of(self@, token@) {
                Some(id) => r == Ok::<TokenClaims, AuthError>(TokenClaims { id }),
                None => r == Err::<TokenClaims, AuthError>(AuthError::InvalidCredentials),
            },
    {
        match jwt_verify(self.secret.as_str(), token) {
            Some(id) => Ok(TokenClaims { id }),
            None => Err(AuthError::InvalidCredentials),
        }
    }

    /// Verifying a token this codec just issued always yields the id it
    /// was issued for.
    pub fn issue_then_verify(&self, id: i32) -> (r: Result<TokenClaims, AuthError>)
        ensures
            r == Ok::<TokenClaims, AuthError>(TokenClaims { id }),
    {
        let token = self.issue(id);
        self.verify(token.as_str())
    }
}

/// The authentication gate: admit a request to a protected handler only
/// on a valid bearer token. A missing credential fails immediately; a
/// present one is decided by [`TokenCodec::verify`]. The decoded
/// identity is handed back for the request context; nothing shared
/// changes, and failure rejects one request without stopping the server.
pub fn validator(codec: &TokenCodec, bearer: Option<&str>) -> (r: Result<
    TokenClaims,
    AuthError,
>)
    ensures
        match bearer {
            None => r == Err::<TokenClaims, AuthError>(AuthError::InvalidCredentials),
            Some(token) => match claims_of(codec@, token@) {
                Some(id) => r == Ok::<TokenClaims, AuthError>(TokenClaims { id }),
                None => r == Err::<TokenClaims, AuthError>(AuthError::InvalidCredentials),
            },
        },
{
    match bearer {
        None => Err(AuthError::InvalidCredentials),
        Some(token) => codec.verify(token),
    }
}

} // verus!
