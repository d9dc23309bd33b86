//! The token codec: encodes a claims record into a signed, self-contained
//! token string, and decodes and verifies a token string back into a
//! claims record, rejecting forged or expired tokens.
//!
//! The signing algorithm is pinned to exactly one keyed-hash variant
//! (HMAC-SHA-512); a token asserting any other algorithm is rejected.

use vstd::prelude::*;

use crate::error::Error;
use crate::role::{lemma_role_name_round_trip, spec_role_name, spec_role_of, Role};

verus! {

/// Seconds from mint time to a token's expiry.
pub const TOKEN_TTL_SECONDS: u64 = 60;

/// The structured payload embedded in a token: subject identifier,
/// absolute expiry timestamp (seconds), and role.
#[derive(Clone, Debug, PartialEq, Eq)]
pub struct Claims {
    pub sub: String,
    pub exp: u64,
    pub role: Role,
}

/// The signed token text that encoding produces for a key and the three
/// claims fields. The header, the payload serialization and the keyed
/// hash are all deterministic, so the token is a function of these
/// arguments alone.
pub uninterp spec fn token_of(key: Seq<u8>, sub: Seq<char>, exp: u64, role_name: Seq<char>) -> Seq<char>;

/// What decoding a token text under a key yields: the three claims
/// fields when the signature, structure and algorithm check out under
/// that key, and nothing otherwise. Deterministic in its arguments.
pub uninterp spec fn claims_of(key: Seq<u8>, token: Seq<char>) -> Option<(Seq<char>, u64, Seq<char>)>;

/// The outcome of verifying `token` with `key` at time `now`: the
/// claims (with the role text parsed to a role) when the token decodes
/// under the key and its expiry lies strictly after `now`.
pub open spec fn spec_verify_outcome(key: Seq<u8>, token: Seq<char>, now: u64) -> Option<(Seq<char>, u64, Role)> {
    match claims_of(key, token) {
        Some(c) => if c.1 > now {
            Some((c.0, c.1, spec_role_of(c.2)))
        } else {
            None
        },
        None => None,
    }
}

/// Relies on jsonwebtoken::encode with a header pinned to HS512: the
/// call succeeds (an HMAC secret matches an HS512 header, serializing
/// the fixed header and a string-keyed object cannot fail, and HMAC
/// signing has no failure path), the token it returns is a
/// deterministic function of the key and the claims fields, and
/// jsonwebtoken::decode with the same key and algorithm yields exactly
/// those fields back from it.
#[verifier::external_body]
fn encode_hs512(key: &[u8], sub: &str, exp: u64, role_name: &str) -> (r: Result<String, Error>)
    ensures
        r is Ok,
        r matches Ok(t) ==> t@ == token_of(key@, sub@, exp, role_name@) && claims_of(key@, t@)
            == Some((sub@, exp, role_name@)),
{
    let mut claims = serde_json::Map::new();
    claims.insert("sub".to_string(), serde_json::Value::String(sub.to_string()));
    claims.insert("exp".to_string(), serde_json::Value::from(exp));
    claims.insert("role".to_string(), serde_json::Value::String(role_name.to_string()));
    let header = jsonwebtoken::Header::new(jsonwebtoken::Algorithm::HS512);
    let encoding_key = jsonwebtoken::EncodingKey::from_secret(key);
    match jsonwebtoken::encode(&header, &serde_json::Value::Object(claims), &encoding_key) {
        Ok(t) => Ok(t),
        Err(_) => Err(Error::JWTTokenCreationError),
    }
}

/// Relies on jsonwebtoken::decode pinned to HS512, with its own expiry
/// validation turned off (the caller checks expiry): it checks the
/// signature, the structure and the asserted algorithm under the key,
/// deterministically in the key and the token text alone.
#[verifier::external_body]
fn decode_hs512(key: &[u8], token: &str) -> (r: Result<(String, u64, String), Error>)
    ensures
        r matches Ok(c) ==> claims_of(key@, token@) == Some((c.0@, c.1, c.2@)),
        r matches Err(e) ==> e == Error::JWTTokenError && claims_of(key@, token@) is None,
{
    let mut validation = jsonwebtoken::Validation::new(jsonwebtoken::Algorithm::HS512);
    validation.validate_exp = false;
    validation.required_spec_claims.clear();
    let decoding_key = jsonwebtoken::DecodingKey::from_secret(key);
    let data = jsonwebtoken::decode::<serde_json::Value>(token, &decoding_key, &validation)
        .map_err(|_| Error::JWTTokenError)?;
    let sub = data.claims["sub"].as_str().ok_or(Error::JWTTokenError)?.to_string();
    let exp = data.claims["exp"].as_u64().ok_or(Error::JWTTokenError)?;
    let role = data.claims["role"].as_str().ok_or(Error::JWTTokenError)?.to_string();
    Ok((sub, exp, role))
}

/// The token codec. It owns the process-wide symmetric signing key,
/// injected once at construction and never rotated.
pub struct TokenCodec {
    key: Vec<u8>,
}

impl TokenCodec {
    /// The signing key this codec was constructed with.
    pub closed spec fn spec_key(&self) -> Seq<u8> {
        self.key@
    }

    /// Builds a codec around the given signing key.
    pub fn new(key: Vec<u8>) -> (codec: TokenCodec)
        ensures
            codec.spec_key() == key@,
    {
        TokenCodec { key }
    }

    /// Mints a signed token embedding `subject`, `role` and the expiry
    /// `now + TOKEN_TTL_SECONDS`. Minting succeeds on every admitted
    /// input: with the algorithm pinned to the keyed-hash variant there
    /// is no serialization or signing fault left to report, so the
    /// creation-error variant never leaves this codec.
    pub fn create_jwt_token(&self, subject: &str, role: Role, now: u64) -> (r: Result<String, Error>)
        requires
            now + TOKEN_TTL_SECONDS <= u64::MAX,
        ensures
            r matches Ok(t) && {
                &&& t@ == token_of(self.spec_key(), subject@, (now + TOKEN_TTL_SECONDS) as u64, spec_role_name(role))
                &&& claims_of(self.spec_key(), t@) == Some(
                    (subject@, (now + TOKEN_TTL_SECONDS) as u64, spec_role_name(role)),
                )
            },
    {
        let exp = now + TOKEN_TTL_SECONDS;
        encode_hs512(self.key.as_slice(), subject, exp, role.as_str())
    }

    /// Verifies a token against this codec's key: the signature, the
    /// structure and the asserted algorithm are checked, then the
    /// recorded expiry must lie strictly after `now`. Returns the
    /// embedded claims, or JWTTokenError.
    pub fn verify(&self, token: &str, now: u64) -> (r: Result<Claims, Error>)
        ensures
            match r {
                Ok(c) => spec_verify_outcome(self.spec_key(), token@, now) == Some(
                    (c.sub@, c.exp, c.role),
                ) && c.exp > now,
                Err(e) => e == Error::JWTTokenError && spec_verify_outcome(
                    self.spec_key(),
                    token@,
                    now,
                ) is None,
            },
    {
        match decode_hs512(self.key.as_slice(), token) {
            Ok((sub, exp, role_name)) => {
                if exp > now {
                    let role = Role::from_str(role_name.as_str());
                    Ok(Claims { sub, exp, role })
                } else {
                    Err(Error::JWTTokenError)
                }
            },
            Err(e) => Err(e),
        }
    }
}

/// A token that decodes under `key` to the claims (`sub`, `exp`, the
/// name of `role`) verifies, at any time strictly before `exp`, to
/// exactly those claims.
pub proof fn lemma_verify_decodable(key: Seq<u8>, token: Seq<char>, sub: Seq<char>, exp: u64, role: Role, now: u64)
    requires
        claims_of(key, token) == Some((sub, exp, spec_role_name(role))),
        now < exp,
    ensures
        spec_verify_outcome(key, token, now) == Some((sub, exp, role)),
{
    lemma_role_name_round_trip(role);
}

/// Round trip: minting embeds the claims (subject, role, expiry
/// `now + TOKEN_TTL_SECONDS`), and verifying the minted token at the
/// mint time yields exactly those claims.
pub proof fn lemma_mint_verify_round_trip(key: Seq<u8>, subject: Seq<char>, role: Role, now: u64, token: Seq<char>)
    requires
        now + TOKEN_TTL_SECONDS <= u64::MAX,
        claims_of(key, token) == Some((subject, (now + TOKEN_TTL_SECONDS) as u64, spec_role_name(role))),
    ensures
        spec_verify_outcome(key, token, now) == Some(
            (subject, (now + TOKEN_TTL_SECONDS) as u64, role),
        ),
{
    lemma_verify_decodable(key, token, subject, (now + TOKEN_TTL_SECONDS) as u64, role, now);
}

/// Expiry monotonicity: at any time at or after a token's recorded
/// expiry, verification fails — even for a token that verified at an
/// earlier time; a token that decodes under no key-claims pairing fails
/// at every time.
pub proof fn lemma_verify_after_expiry(key: Seq<u8>, token: Seq<char>, later: u64)
    requires
        claims_of(key, token) matches Some(c) ==> later >= c.1,
    ensures
        spec_verify_outcome(key, token, later) is None,
{
}

} // verus!
