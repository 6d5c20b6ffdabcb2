//! Token lifetimes and the bearer scheme.

use crate::auth::models::{Claims, ClaimsView};
use crate::clock::{wall_clock, Timestamp};
use crate::json::{member_count, member_text, members_of, Members};
use vstd::prelude::*;

verus! {

/// The expiry, in seconds since the epoch, of a token issued at `now` for
/// `hours` hours. There is none where the instant does not fit, or lies
/// before the epoch.
pub open spec fn expiry_of(now: int, hours: int) -> Option<usize> {
    let at = now / 1000 + hours * 3600;
    if 0 <= at <= usize::MAX && -(i64::MAX / 3600) <= hours <= i64::MAX / 3600 {
        Some(at as usize)
    } else {
        None
    }
}

/// The expiry of a token issued at `now` that is to live `expiry_hours`
/// hours.
pub fn token_expiry(now: Timestamp, expiry_hours: i64) -> (exp: Option<usize>)
    ensures
        exp == expiry_of(now@, expiry_hours as int),
{
    if expiry_hours > i64::MAX / 3600 || expiry_hours < -(i64::MAX / 3600) {
        return None;
    }
    let at: i128 = seconds_of(now) as i128 + expiry_hours as i128 * 3600;
    if at < 0 || at > usize::MAX as i128 {
        None
    } else {
        Some(at as usize)
    }
}

/// The whole seconds since the epoch of an instant, rounded down.
pub fn seconds_of(t: Timestamp) -> (s: i64)
    ensures
        s == t@ / 1000,
{
    let q = t.millis / 1000;
    let r = t.millis % 1000;
    if r < 0 {
        q - 1
    } else {
        q
    }
}

impl Claims {
    /// Whether the token is still valid at `now`: its expiry lies strictly
    /// after that instant.
    pub fn is_current_at(&self, now: Timestamp) -> (current: bool)
        ensures
            current == (self.exp as int > now@ / 1000),
    {
        let secs = seconds_of(now);
        secs < 0 || (self.exp as u128) > (secs as u128)
    }
}

/// `bcrypt::BcryptError`. Opaque: the library only tells it from success.
#[verifier::external_type_specification]
#[verifier::external_body]
pub struct ExBcryptError(bcrypt::BcryptError);

/// `jsonwebtoken::errors::Error`. Opaque: the library only tells it from
/// success.
#[verifier::external_type_specification]
#[verifier::external_body]
pub struct ExTokenError(jsonwebtoken::errors::Error);

/// What `bcrypt::verify` says of a password and a hash: whether they match,
/// or `None` where it reports an error (a text that is no bcrypt hash).
pub uninterp spec fn password_verdict(password: Seq<char>, hash: Seq<char>) -> Option<bool>;

/// The token that `jsonwebtoken::encode` makes of these claims under this
/// secret, with the default header; `None` where it reports an error.
pub uninterp spec fn signed_token(claims: ClaimsView, secret: Seq<char>) -> Option<Seq<char>>;

/// What `jsonwebtoken::decode` reads from a token under a secret when it
/// checks the signature and not the expiry: the members of the claims, or
/// `None` where it reports an error (a malformed token, a wrong signature,
/// no `exp` claim).
pub uninterp spec fn token_body(token: Seq<char>, secret: Seq<char>) -> Option<Members>;

/// Why a password could not be hashed or checked.
#[derive(Clone, Copy, Debug, PartialEq, Eq, Structural)]
pub enum PasswordError {
    /// The hashing library reported an error.
    Hashing,
    /// The stored text is no hash that the library reads.
    InvalidHash,
}

/// Why a token could not be made or read.
#[derive(Clone, Copy, Debug, PartialEq, Eq, Structural)]
pub enum TokenError {
    /// The expiry asked for does not fit the range of instants.
    ExpiryOutOfRange,
    /// The token library could not sign the claims.
    Signing,
    /// The token is malformed or carries a wrong signature.
    Invalid,
    /// The signature is right, but a claim is missing or of the wrong type.
    MissingClaim,
    /// The token is sound, but its expiry does not lie after the instant
    /// of validation.
    Expired,
}

/// Calls `bcrypt::hash` with `bcrypt::DEFAULT_COST`. The salt is random, so
/// the hash is not named; what is claimed of it is that `bcrypt::verify`
/// accepts it for the same password: `verify` reads cost and salt back out
/// of the hash and computes the same digest again.
#[verifier::external_body]
fn bcrypt_hash(password: &str) -> (hashed: Result<String, bcrypt::BcryptError>)
    ensures
        hashed matches Ok(h) ==> password_verdict(password@, h@) == Some(true),
{
    bcrypt::hash(password, bcrypt::DEFAULT_COST)
}

/// Calls `bcrypt::verify`. The contract only names the result.
#[verifier::external_body]
fn bcrypt_verify(password: &str, hash: &str) -> (verdict: Result<bool, bcrypt::BcryptError>)
    ensures
        password_verdict(password@, hash@) == (match verdict {
            Ok(b) => Some(b),
            Err(_) => None,
        }),
{
    bcrypt::verify(password, hash)
}

/// Calls `jsonwebtoken::encode` with `Header::default()`, the four claims
/// as a JSON object, and the secret as an HMAC key
/// (`EncodingKey::from_secret`). The contract only names the result.
#[verifier::external_body]
fn jwt_encode(claims: &Claims, secret: &str) -> (token: Result<String, jsonwebtoken::errors::Error>)
    ensures
        signed_token(claims@, secret@) == (match token {
            Ok(t) => Some(t@),
            Err(_) => None,
        }),
{
    let mut body = serde_json::Map::new();
    body.insert("sub".to_owned(), serde_json::Value::from(claims.sub.as_str()));
    body.insert("name".to_owned(), serde_json::Value::from(claims.name.as_str()));
    body.insert("role".to_owned(), serde_json::Value::from(claims.role.as_str()));
    body.insert("exp".to_owned(), serde_json::Value::from(claims.exp));
    let key = jsonwebtoken::EncodingKey::from_secret(secret.as_bytes());
    jsonwebtoken::encode(&jsonwebtoken::Header::default(), &body, &key)
}

/// The members of the claims that a call of the token library gave.
pub open spec fn body_view(body: Result<serde_json::Value, jsonwebtoken::errors::Error>) -> Option<
    Members,
> {
    match body {
        Ok(v) => Some(members_of(v)),
        Err(_) => None,
    }
}

/// Calls `jsonwebtoken::decode` with the secret as an HMAC key and
/// `Validation::default()` with its expiry check switched off, and hands
/// back the claims as a JSON value. Without that check the call reads no
/// clock: it checks the signature and that an `exp` claim is there. The
/// contract only names what the value holds.
#[verifier::external_body]
fn jwt_decode(token: &str, secret: &str) -> (body: Result<
    serde_json::Value,
    jsonwebtoken::errors::Error,
>)
    ensures
        body_view(body) == token_body(token@, secret@),
{
    let key = jsonwebtoken::DecodingKey::from_secret(secret.as_bytes());
    let mut checks = jsonwebtoken::Validation::default();
    checks.validate_exp = false;
    match jsonwebtoken::decode::<serde_json::Value>(token, &key, &checks) {
        Ok(data) => Ok(data.claims),
        Err(e) => Err(e),
    }
}

/// Hashes a password for storage. Whether a hash comes back is up to the
/// hashing library, which draws a random salt; a hash that does come back
/// is one that `verify_password` accepts for this password.
pub fn hash_password(password: &str) -> (hashed: Result<String, PasswordError>)
    ensures
        match hashed {
            Ok(h) => password_verdict(password@, h@) == Some(true),
            Err(e) => e == PasswordError::Hashing,
        },
{
    match bcrypt_hash(password) {
        Ok(h) => Ok(h),
        Err(_) => Err(PasswordError::Hashing),
    }
}

/// Whether a password matches a stored hash.
pub fn verify_password(password: &str, hash: &str) -> (verdict: Result<bool, PasswordError>)
    ensures
        verdict == (match password_verdict(password@, hash@) {
            Some(b) => Ok::<bool, PasswordError>(b),
            None => Err::<bool, PasswordError>(PasswordError::InvalidHash),
        }),
{
    match bcrypt_verify(password, hash) {
        Ok(b) => Ok(b),
        Err(_) => Err(PasswordError::InvalidHash),
    }
}

/// Signs claims into a token under a secret.
pub fn sign_claims(claims: &Claims, secret: &str) -> (token: Result<String, TokenError>)
    ensures
        match token {
            Ok(t) => signed_token(claims@, secret@) == Some(t@),
            Err(e) => e == TokenError::Signing && signed_token(claims@, secret@) is None,
        },
{
    match jwt_encode(claims, secret) {
        Ok(t) => Ok(t),
        Err(_) => Err(TokenError::Signing),
    }
}

/// The claims of a token issued at `now` for a user, to live `hours` hours;
/// none where the expiry is out of range.
pub open spec fn issued_claims(
    user_id: Seq<char>,
    name: Seq<char>,
    role: Seq<char>,
    now: int,
    hours: int,
) -> Option<ClaimsView> {
    match expiry_of(now, hours) {
        Some(exp) => Some(ClaimsView { sub: user_id, name, role, exp: exp as nat }),
        None => None,
    }
}

/// The token issued at `now` for a user, or why there is none.
pub open spec fn issued_token(
    user_id: Seq<char>,
    name: Seq<char>,
    role: Seq<char>,
    secret: Seq<char>,
    now: int,
    hours: int,
) -> Result<Seq<char>, TokenError> {
    match issued_claims(user_id, name, role, now, hours) {
        None => Err(TokenError::ExpiryOutOfRange),
        Some(c) => match signed_token(c, secret) {
            Some(t) => Ok(t),
            None => Err(TokenError::Signing),
        },
    }
}

/// The view of a token or of the reason why there is none.
pub open spec fn token_view(token: Result<String, TokenError>) -> Result<Seq<char>, TokenError> {
    match token {
        Ok(t) => Ok(t@),
        Err(e) => Err(e),
    }
}

/// The view of optional claims.
pub open spec fn claims_view(c: Option<Claims>) -> Option<ClaimsView> {
    match c {
        Some(k) => Some(k@),
        None => None,
    }
}

/// The claims of a token issued at `now` for a user, to live `expiry_hours`
/// hours.
pub fn issue_claims_at(
    user_id: &str,
    name: &str,
    role: &str,
    now: Timestamp,
    expiry_hours: i64,
) -> (claims: Option<Claims>)
    ensures
        claims_view(claims) == issued_claims(user_id@, name@, role@, now@, expiry_hours as int),
{
    match token_expiry(now, expiry_hours) {
        Some(exp) => Some(
            Claims { sub: user_id.to_owned(), name: name.to_owned(), role: role.to_owned(), exp },
        ),
        None => None,
    }
}

/// Issues a token for a user at `now`, to live `expiry_hours` hours.
pub fn create_jwt_at(
    user_id: &str,
    name: &str,
    role: &str,
    secret: &str,
    now: Timestamp,
    expiry_hours: i64,
) -> (token: Result<String, TokenError>)
    ensures
        token_view(token) == issued_token(
            user_id@,
            name@,
            role@,
            secret@,
            now@,
            expiry_hours as int,
        ),
{
    match issue_claims_at(user_id, name, role, now, expiry_hours) {
        Some(claims) => sign_claims(&claims, secret),
        None => Err(TokenError::ExpiryOutOfRange),
    }
}

/// Issues a token for a user by the wall clock, to live `expiry_hours`
/// hours.
pub fn create_jwt(user_id: &str, name: &str, role: &str, secret: &str, expiry_hours: i64) -> (token:
    Result<String, TokenError>)
    ensures
        exists|now: int|
            token_view(token) == #[trigger] issued_token(
                user_id@,
                name@,
                role@,
                secret@,
                now,
                expiry_hours as int,
            ),
{
    let now = wall_clock();
    let token = create_jwt_at(user_id, name, role, secret, now, expiry_hours);
    assert(token_view(token) == issued_token(
        user_id@,
        name@,
        role@,
        secret@,
        now@,
        expiry_hours as int,
    ));
    token
}

/// The claims that a JSON object holds: `sub`, `name` and `role` as
/// strings and `exp` as a non-negative integer. Other members are ignored.
pub open spec fn claims_of_document(doc: Members) -> Option<ClaimsView> {
    if doc.texts.contains_key("sub"@) && doc.texts.contains_key("name"@) && doc.texts.contains_key(
        "role"@,
    ) && doc.counts.contains_key("exp"@) && doc.counts["exp"@] <= usize::MAX {
        Some(
            ClaimsView {
                sub: doc.texts["sub"@],
                name: doc.texts["name"@],
                role: doc.texts["role"@],
                exp: doc.counts["exp"@] as nat,
            },
        )
    } else {
        None
    }
}

/// Reads the claims out of the body of a validated token.
pub fn claims_in(doc: &serde_json::Value) -> (claims: Option<Claims>)
    ensures
        claims_view(claims) == claims_of_document(members_of(*doc)),
{
    let sub = match member_text(doc, "sub") {
        Some(t) => t,
        None => {
            return None;
        },
    };
    let name = match member_text(doc, "name") {
        Some(t) => t,
        None => {
            return None;
        },
    };
    let role = match member_text(doc, "role") {
        Some(t) => t,
        None => {
            return None;
        },
    };
    match member_count(doc, "exp") {
        Some(exp) => {
            if exp > usize::MAX as u64 {
                None
            } else {
                Some(Claims { sub, name, role, exp: exp as usize })
            }
        },
        None => None,
    }
}

/// What validating a token under a secret at `now` gives: the claims if
/// the signature is right, all four claims are there, and the expiry lies
/// strictly after `now`; and otherwise the reason why not.
pub open spec fn decoded_at(token: Seq<char>, secret: Seq<char>, now: int) -> Result<
    ClaimsView,
    TokenError,
> {
    match token_body(token, secret) {
        None => Err(TokenError::Invalid),
        Some(doc) => match claims_of_document(doc) {
            None => Err(TokenError::MissingClaim),
            Some(c) => if c.exp > now / 1000 {
                Ok(c)
            } else {
                Err(TokenError::Expired)
            },
        },
    }
}

/// The view of claims or of the reason why there are none.
pub open spec fn decoded_view(claims: Result<Claims, TokenError>) -> Result<ClaimsView, TokenError> {
    match claims {
        Ok(c) => Ok(c@),
        Err(e) => Err(e),
    }
}

/// Validates a token under a secret at `now` and reads its claims.
pub fn decode_jwt_at(token: &str, secret: &str, now: Timestamp) -> (claims: Result<
    Claims,
    TokenError,
>)
    ensures
        decoded_view(claims) == decoded_at(token@, secret@, now@),
{
    match jwt_decode(token, secret) {
        Ok(doc) => match claims_in(&doc) {
            Some(c) => {
                if c.is_current_at(now) {
                    Ok(c)
                } else {
                    Err(TokenError::Expired)
                }
            },
            None => Err(TokenError::MissingClaim),
        },
        Err(_) => Err(TokenError::Invalid),
    }
}

/// Validates a token under a secret by the wall clock and reads its
/// claims: the signature is checked with the secret, and the expiry must lie
/// strictly after the present instant.
pub fn decode_jwt(token: &str, secret: &str) -> (claims: Result<Claims, TokenError>)
    ensures
        exists|now: int| decoded_view(claims) == #[trigger] decoded_at(token@, secret@, now),
{
    let now = wall_clock();
    let claims = decode_jwt_at(token, secret, now);
    assert(decoded_view(claims) == decoded_at(token@, secret@, now@));
    claims
}

} // verus!
