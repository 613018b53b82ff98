//! Signed tokens and the verifier key, as far as the `jose` crate decides
//! them. Nothing here is proved: each function states what the crate computes
//! from plain values, and the rest of the library is verified against that.

use crate::token::TokenFault::{BadSignature, KeyUnusable, Malformed};
use jose::crypto::hmac::{Hs256, Key};
use jose::format::{Compact, DecodeFormat};
use jose::jwa::{Hmac, JsonWebSigningAlgorithm};
use jose::jwk::symmetric::OctetSequence;
use jose::jwk::{IntoJsonWebKey, JwkVerifier};
use jose::jws::{IntoVerifier, Unverified};
use jose::policy::{Checkable, StandardPolicy};
use jose::{JsonWebKey, Jwt};
use serde_json::Value;
use std::collections::BTreeMap;
use vstd::prelude::*;

verus! {

/// Why a token yields no claims.
#[derive(Debug, Clone, Copy, PartialEq, Eq, Structural)]
pub enum TokenFault {
    /// The key document does not give an HS256 verifier.
    KeyUnusable,
    /// The text is no compact token, or its payload is no set of claims.
    Malformed,
    /// The signature is not the one the key gives for this token.
    BadSignature,
}

/// What a verified token carries, as far as the gateway reads it.
#[derive(Debug, Clone, PartialEq, Eq)]
pub struct RawClaims {
    /// The `exp` claim: seconds since the epoch.
    pub expiration: Option<u64>,
    /// The command claim as compact JSON text, where the token has one: a
    /// text value comes in double quotes, an object in braces.
    pub command: Option<String>,
}

/// The mathematical value of [`RawClaims`].
pub struct ClaimsView {
    pub expiration: Option<u64>,
    pub command: Option<Seq<char>>,
}

impl View for RawClaims {
    type V = ClaimsView;

    open spec fn view(&self) -> ClaimsView {
        ClaimsView {
            expiration: self.expiration,
            command: match self.command {
                Some(text) => Some(text@),
                None => None,
            },
        }
    }
}

/// The view of what verifying a token gave.
pub open spec fn outcome_view(outcome: Result<RawClaims, TokenFault>) -> Result<
    ClaimsView,
    TokenFault,
> {
    match outcome {
        Ok(claims) => Ok(claims@),
        Err(fault) => Err(fault),
    }
}

/// The key document that `jose` writes for an HS256 key whose octets are the
/// unpadded base64url text `secret`; `None` where the text gives no such key.
pub uninterp spec fn key_document_of(secret: Seq<char>) -> Option<Seq<u8>>;

/// Whether `jose` reads `document` as a JSON Web Key that its standard policy
/// admits and that gives an HS256 verifier.
pub uninterp spec fn usable_document(document: Seq<u8>) -> bool;

/// What `jose` makes of the compact token `token` under the key in
/// `document`: the expiration and the claim named `claim` as `serde_json`
/// writes it in compact form, or the first thing that failed.
pub uninterp spec fn token_claims(document: Seq<u8>, token: Seq<char>, claim: Seq<char>) -> Result<
    ClaimsView,
    TokenFault,
>;

/// Builds an HS256 key from the base64url text `secret` and serialises it as a
/// JSON Web Key: `serde_json::from_value` into `OctetSequence`,
/// `IntoVerifier::into_verifier`, `IntoJsonWebKey::into_jwk` and
/// `serde_json::to_vec`. Claimed: the bytes depend on the text alone.
#[verifier::external_body]
pub(crate) fn derive_key_document(secret: &str) -> (res: Option<Vec<u8>>)
    ensures
        (match res {
            Some(document) => Some(document@),
            None => None,
        }) == key_document_of(secret@),
{
    let fields = [("kty".to_owned(), "oct".into()), ("k".to_owned(), secret.into())];
    let octets: OctetSequence = serde_json::from_value(Value::Object(fields.into_iter().collect())).ok()?;
    let key: Key<Hs256> = octets.into_verifier(JsonWebSigningAlgorithm::Hmac(Hmac::Hs256)).ok()?;
    let jwk = key.into_jwk(Some(())).ok()?;
    serde_json::to_vec(&jwk).ok()
}

/// Reads `document` as a key the way it is read at start-up:
/// `serde_json::from_slice` into `JsonWebKey`, `Checkable::check` under
/// `StandardPolicy`, `IntoVerifier::into_verifier` for HS256. Claimed: whether
/// all three succeed depends on the bytes alone.
#[verifier::external_body]
pub(crate) fn document_is_usable(document: &[u8]) -> (res: bool)
    ensures
        res == usable_document(document@),
{
    let key: Option<JsonWebKey> = serde_json::from_slice(document).ok();
    let key = key.and_then(|key| key.check(StandardPolicy::default()).ok());
    let alg = JsonWebSigningAlgorithm::Hmac(Hmac::Hs256);
    key.and_then(|key| IntoVerifier::<JwkVerifier>::into_verifier(key, alg).ok()).is_some()
}

/// Verifies the compact token `token` with the key in `document` and hands
/// out its `exp` claim and the claim named `claim`, written as compact JSON
/// by `Value::to_string`: the key is read as in [`document_is_usable`], then
/// `str::parse` into `Compact`, `DecodeFormat::decode`, `Unverified::verify`.
/// Claimed: the outcome depends on the three arguments alone, and the key is
/// the fault exactly where [`document_is_usable`] says no, since the same
/// three calls read it. `jose` compares no clock here.
#[verifier::external_body]
pub(crate) fn verify_token(document: &[u8], token: &str, claim: &str) -> (res: Result<
    RawClaims,
    TokenFault,
>)
    ensures
        outcome_view(res) == token_claims(document@, token@, claim@),
        (res is Err && res->Err_0 == TokenFault::KeyUnusable) <==> !usable_document(document@),
{
    let key: JsonWebKey = serde_json::from_slice(document).or(Err(KeyUnusable))?;
    let key = key.check(StandardPolicy::default()).or(Err(KeyUnusable))?;
    let alg = JsonWebSigningAlgorithm::Hmac(Hmac::Hs256);
    let mut verifier: JwkVerifier = key.into_verifier(alg).or(Err(KeyUnusable))?;
    let compact: Compact = token.parse().or(Err(Malformed))?;
    let unverified: Unverified<Jwt<BTreeMap<String, Value>>> = Jwt::decode(compact).or(Err(Malformed))?;
    let verified = unverified.verify(&mut verifier).or(Err(BadSignature))?;
    let command = verified.payload().additional.get(claim).map(Value::to_string);
    Ok(RawClaims { expiration: verified.payload().expiration, command })
}

} // verus!
