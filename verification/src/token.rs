//! Signed, expiring tokens.
//!
//! A token carries a [`Claims`] payload — subject id, role tag, absolute
//! expiry — signed with a process-wide symmetric secret.  Decoding performs
//! one validation pass: structure, signature against the configured secret
//! (tokens whose algorithm tag differs are rejected), and expiry against the
//! instant the caller supplies.  Every failure collapses to the single
//! opaque outcome `None`, so callers cannot distinguish a bad signature from
//! an expired token.

use vstd::prelude::*;

verus! {

/// How long an issued token stays valid, in seconds: four hours.
pub const TOKEN_TTL_SECS: u64 = 14400;

/// The payload embedded in a token: the subject's record id, a role tag
/// (currently always "user"), and an absolute expiry in seconds since the
/// Unix epoch.
pub struct Claims {
    pub sub: i32,
    pub role: String,
    pub exp: u64,
}

/// The token string that signing a (subject, role, expiry) payload with a
/// given secret produces.  Signing is deterministic: same secret and payload,
/// same token.
pub uninterp spec fn token_of(secret: Seq<char>, sub: int, role: Seq<char>, exp: u64) -> Seq<char>;

/// The payload that structure and signature checking recovers from a token
/// string under a given secret, or `None` when the token is not a well-formed
/// three-part signed structure, its algorithm tag is not the expected one, or
/// its signature does not match the secret.  The outcome depends on the
/// secret and the token alone; expiry is not part of it.
pub uninterp spec fn jwt_payload(secret: Seq<char>, token: Seq<char>) -> Option<(int, Seq<char>, u64)>;

/// Relies on jsonwebtoken::encode with the default header (HS256): the token
/// is a deterministic function of the secret and the claims, and
/// jsonwebtoken::decode recovers exactly those claims from it under the same
/// secret.  For this call the encoder cannot fail: the secret-derived key and
/// the default header are both of the HMAC family, HMAC-SHA256 accepts a key
/// of any length and its signing step is total, and serialising the
/// string-keyed claims object cannot error — so the result is always `Ok`,
/// and the three-part dot-separated output is never empty.
#[verifier::external_body]
fn jwt_encode(secret: &str, sub: i32, role: &str, exp: u64) -> (r: Result<String, String>)
    ensures
        r is Ok,
        r matches Ok(t) ==> t@ == token_of(secret@, sub as int, role@, exp),
        r matches Ok(t) ==> jwt_payload(secret@, t@) == Some((sub as int, role@, exp)),
        r matches Ok(t) ==> t@.len() > 0,
{
    let mut claims = serde_json::Map::new();
    claims.insert("sub".to_string(), serde_json::Value::from(sub));
    claims.insert("role".to_string(), serde_json::Value::from(role));
    claims.insert("exp".to_string(), serde_json::Value::from(exp));
    jsonwebtoken::encode(
        &jsonwebtoken::Header::default(),
        &serde_json::Value::Object(claims),
        &jsonwebtoken::EncodingKey::from_secret(secret.as_bytes()),
    )
    .map_err(|e| e.to_string())
}

/// Relies on jsonwebtoken::decode restricted to HS256: it accepts exactly the
/// well-formed three-part tokens whose algorithm tag is HS256 and whose
/// signature matches the secret, and returns their subject, role and expiry
/// claims.  It also rejects signature-valid tokens whose payload is not a
/// JSON object or carries an audience claim (no expected audience is
/// configured); tokens this library issues have neither.  Expiry validation
/// is switched off here; the verified codec checks expiry itself against the
/// caller's clock reading.
#[verifier::external_body]
fn jwt_decode(secret: &str, token: &str) -> (r: Option<(i32, String, u64)>)
    ensures
        (match r {
            Some(p) => jwt_payload(secret@, token@) == Some((p.0 as int, p.1@, p.2)),
            None => jwt_payload(secret@, token@) is None,
        }),
{
    let mut validation = jsonwebtoken::Validation::new(jsonwebtoken::Algorithm::HS256);
    validation.validate_exp = false;
    validation.required_spec_claims = std::collections::HashSet::new();
    let key = jsonwebtoken::DecodingKey::from_secret(secret.as_bytes());
    let data = jsonwebtoken::decode::<serde_json::Value>(token, &key, &validation).ok()?;
    let sub = i32::try_from(data.claims.get("sub")?.as_i64()?).ok()?;
    let role = data.claims.get("role")?.as_str()?.to_string();
    let exp = data.claims.get("exp")?.as_u64()?;
    Some((sub, role, exp))
}

/// Encodes and decodes tokens under one configured secret, shared by the
/// credential service and the request guard for the process lifetime.
pub struct TokenCodec {
    secret: String,
}

impl TokenCodec {
    /// The configured signing secret.
    pub closed spec fn spec_secret(&self) -> Seq<char> {
        self.secret@
    }

    pub fn new(secret: String) -> (c: TokenCodec)
        ensures
            c.spec_secret() == secret@,
    {
        TokenCodec { secret }
    }

    /// What decoding a token at instant `now` yields: the signed payload when
    /// the token checks out under `secret` and its expiry is still strictly
    /// in the future, and `None` otherwise.  Structural, signature and expiry
    /// failures are deliberately not told apart.
    pub open spec fn spec_decode(secret: Seq<char>, token: Seq<char>, now: u64) -> Option<
        (int, Seq<char>, u64),
    > {
        match jwt_payload(secret, token) {
            Some(p) => if p.2 > now {
                Some(p)
            } else {
                None
            },
            None => None,
        }
    }

    /// Signs the claims with the configured secret.  Issuance always
    /// succeeds: the token is the deterministic, never-empty signature of
    /// the claims, and decoding it under the same secret recovers them.
    pub fn issue(&self, claims: &Claims) -> (t: String)
        ensures
            t@ == token_of(self.spec_secret(), claims.sub as int, claims.role@, claims.exp),
            jwt_payload(self.spec_secret(), t@) == Some(
                (claims.sub as int, claims.role@, claims.exp),
            ),
            t@.len() > 0,
    {
        match jwt_encode(self.secret.as_str(), claims.sub, claims.role.as_str(), claims.exp) {
            Ok(t) => t,
            // The encoder's contract rules this arm out.
            Err(m) => m,
        }
    }

    /// One validation pass over structure, signature and expiry, where `now`
    /// is the caller's wall-clock reading in seconds since the Unix epoch.
    /// Returns the claims exactly when [`TokenCodec::spec_decode`] does.
    pub fn decode(&self, token: &String, now: u64) -> (r: Option<Claims>)
        ensures
            (match r {
                Some(c) => Self::spec_decode(self.spec_secret(), token@, now) == Some(
                    (c.sub as int, c.role@, c.exp),
                ),
                None => Self::spec_decode(self.spec_secret(), token@, now) is None,
            }),
    {
        match jwt_decode(self.secret.as_str(), token.as_str()) {
            Some((sub, role, exp)) => {
                if exp > now {
                    Some(Claims { sub, role, exp })
                } else {
                    None
                }
            },
            None => None,
        }
    }
}

} // verus!
