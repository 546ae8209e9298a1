//! Session tokens: what they claim, when the claims hold, and how they are
//! signed and read back.
//!
//! A token is a signed text that carries a user's id and a validity window. The
//! server keeps no record of it: whoever holds the secret can check it, and
//! nothing but the passing of time ends it.

use vstd::prelude::*;

verus! {

/// What a session token says: who it was issued to, and from when until when
/// it holds. Both ends of the window belong to it. Times are seconds since the
/// Unix epoch, UTC.
#[derive(Debug, Clone, Copy, PartialEq, Eq, Structural)]
pub struct SessionClaims {
    pub user_id: i64,
    pub issued_at: u64,
    pub expires_at: u64,
}

/// Why a token was not accepted.
#[derive(Debug, Clone, Copy, PartialEq, Eq, Structural)]
pub enum TokenError {
    /// Not a token of three parts, or its claims are missing or of another shape.
    Malformed,
    /// Signed with another secret, or altered after signing.
    BadSignature,
    /// The clock has not reached the moment of issue yet.
    NotYetValid,
    /// The clock is past the moment of expiry.
    Expired,
}

/// Why no token could be issued.
#[derive(Debug, Clone, Copy, PartialEq, Eq, Structural)]
pub enum TokenIssueError {
    /// The clock is before the epoch, or the moment of expiry is beyond what the
    /// claims can hold.
    ClockOutOfRange,
    /// The claims could not be serialised and signed.
    Signing,
}

/// The three claims as they were found in a token's payload: `None` where the
/// field is absent or holds something else than an integer of its range.
#[derive(Debug, Clone, Copy, PartialEq, Eq, Structural)]
pub struct RawClaims {
    pub exp: Option<u64>,
    pub iat: Option<u64>,
    pub user_id: Option<i64>,
}

/// What comes of reading a token under a secret, before any clock is consulted.
#[derive(Debug, Clone, Copy, PartialEq, Eq, Structural)]
pub enum DecodeOutcome {
    /// The signature matches; the payload held these fields.
    Claims(RawClaims),
    /// The token has the shape of one, but its signature does not match.
    BadSignature,
    /// Anything else: not three parts, not base64, not JSON, another algorithm.
    Malformed,
}

/// The outcome of `jsonwebtoken::decode` on a token and a secret, for HS256
/// and with the expiry left unchecked. It reads no clock, so it depends on the
/// two texts alone.
pub uninterp spec fn decoded(token: Seq<char>, secret: Seq<u8>) -> DecodeOutcome;

/// The text that `jsonwebtoken::encode` gives for these claims under a secret,
/// with the default header (HS256); `None` where it reports an error.
pub uninterp spec fn signed(claims: SessionClaims, secret: Seq<u8>) -> Option<Seq<char>>;

/// `jsonwebtoken::errors::Error`, carried through and never looked into.
#[verifier::external_type_specification]
#[verifier::external_body]
pub struct ExTokenCodecError(jsonwebtoken::errors::Error);

/// Calls `jsonwebtoken::decode` with an HS256 validation whose expiry check is
/// switched off, so that only shape, algorithm and signature are judged there.
/// The contract claims that the outcome is the one named [`decoded`]: the three
/// fields picked from the payload, or which of the two kinds of refusal it was.
#[verifier::external_body]
fn decode_signed(token: &str, secret: &[u8]) -> (r: DecodeOutcome)
    ensures
        r == decoded(token@, secret@),
{
    let mut rules = jsonwebtoken::Validation::new(jsonwebtoken::Algorithm::HS256);
    rules.validate_exp = false;
    let key = jsonwebtoken::DecodingKey::from_secret(secret);
    match jsonwebtoken::decode::<serde_json::Value>(token, &key, &rules) {
        Ok(data) => DecodeOutcome::Claims(RawClaims {
            exp: data.claims.get("exp").and_then(serde_json::Value::as_u64),
            iat: data.claims.get("iat").and_then(serde_json::Value::as_u64),
            user_id: data.claims.get("user_id").and_then(serde_json::Value::as_i64),
        }),
        Err(e) => match e.kind() {
            jsonwebtoken::errors::ErrorKind::InvalidSignature => DecodeOutcome::BadSignature,
            _ => DecodeOutcome::Malformed,
        },
    }
}

/// Calls `jsonwebtoken::encode` with the default header on a JSON object of the
/// three claims. The contract claims two things of it: the text is the one
/// named [`signed`], and reading that text back under the same secret gives
/// the same three claims.
#[verifier::external_body]
fn sign_claims(claims: &SessionClaims, secret: &[u8]) -> (r: Result<
    String,
    jsonwebtoken::errors::Error,
>)
    ensures
        match r {
            Ok(token) => signed(*claims, secret@) == Some(token@) && decoded(token@, secret@)
                == DecodeOutcome::Claims(raw_claims(*claims)),
            Err(_) => signed(*claims, secret@) is None,
        },
{
    let mut payload = serde_json::Map::new();
    payload.insert("exp".to_string(), serde_json::Value::from(claims.expires_at));
    payload.insert("iat".to_string(), serde_json::Value::from(claims.issued_at));
    payload.insert("user_id".to_string(), serde_json::Value::from(claims.user_id));
    let key = jsonwebtoken::EncodingKey::from_secret(secret);
    jsonwebtoken::encode(&jsonwebtoken::Header::default(), &payload, &key)
}

/// Calls `chrono::Utc::now` and takes its `timestamp`: the seconds since the
/// Unix epoch on this machine's clock. Nothing is claimed of the number.
#[verifier::external_body]
fn unix_now() -> i64 {
    chrono::Utc::now().timestamp()
}

/// The payload fields that stand for a set of claims.
pub open spec fn raw_claims(claims: SessionClaims) -> RawClaims {
    RawClaims {
        exp: Some(claims.expires_at),
        iat: Some(claims.issued_at),
        user_id: Some(claims.user_id),
    }
}

impl SessionClaims {
    /// The claims hold at `now`: from the moment of issue to the moment of
    /// expiry, both taken in.
    pub open spec fn holds_at(self, now: int) -> bool {
        self.issued_at <= now <= self.expires_at
    }
}

/// The claims of a token issued to `user_id` at `now` for `ttl` seconds, where
/// the clock is not before the epoch and the moment of expiry fits.
pub open spec fn claims_at(user_id: i64, now: int, ttl: int) -> Option<SessionClaims> {
    if 0 <= now && 0 <= ttl && now + ttl <= u64::MAX {
        Some(
            SessionClaims { user_id, issued_at: now as u64, expires_at: (now + ttl) as u64 },
        )
    } else {
        None
    }
}

/// The verdict on payload fields at `now`: all three must be there, and the
/// clock must be inside the window.
pub open spec fn claims_verdict(raw: RawClaims, now: int) -> Result<SessionClaims, TokenError> {
    match (raw.exp, raw.iat, raw.user_id) {
        (Some(exp), Some(iat), Some(user_id)) => {
            if now < iat {
                Err(TokenError::NotYetValid)
            } else if now > exp {
                Err(TokenError::Expired)
            } else {
                Ok(SessionClaims { user_id, issued_at: iat, expires_at: exp })
            }
        },
        _ => Err(TokenError::Malformed),
    }
}

/// The verdict on a token that was read with the given outcome, at `now`.
pub open spec fn token_verdict(outcome: DecodeOutcome, now: int) -> Result<
    SessionClaims,
    TokenError,
> {
    match outcome {
        DecodeOutcome::Claims(raw) => claims_verdict(raw, now),
        DecodeOutcome::BadSignature => Err(TokenError::BadSignature),
        DecodeOutcome::Malformed => Err(TokenError::Malformed),
    }
}

/// What is to be said at `now` of claims that were issued at `issued` for `ttl`
/// seconds.
pub open spec fn window_verdict(claims: SessionClaims, issued: int, ttl: int, now: int) -> Result<
    SessionClaims,
    TokenError,
> {
    if now < issued {
        Err(TokenError::NotYetValid)
    } else if now > issued + ttl {
        Err(TokenError::Expired)
    } else {
        Ok(claims)
    }
}

/// Claims are accepted exactly while they hold: from the moment of issue
/// through the moment of expiry. Before that they are not yet valid, after it
/// they have expired.
pub proof fn lemma_claims_accepted_in_window(user_id: i64, issued: int, ttl: int, now: int)
    requires
        claims_at(user_id, issued, ttl) is Some,
    ensures
        ({
            let claims = claims_at(user_id, issued, ttl)->Some_0;
            &&& claims_verdict(raw_claims(claims), now) == window_verdict(claims, issued, ttl, now)
            &&& claims_verdict(raw_claims(claims), now) is Ok <==> claims.holds_at(now)
        }),
{
}

/// A token reads at every moment as its claims do: if it decodes to the claims
/// that were issued at `issued` for `ttl` seconds, it is accepted from then
/// through `issued + ttl` and at no other moment.
pub proof fn lemma_issued_token_verdict(
    token: Seq<char>,
    secret: Seq<u8>,
    user_id: i64,
    issued: int,
    ttl: int,
    now: int,
)
    requires
        claims_at(user_id, issued, ttl) is Some,
    ensures
        ({
            let claims = claims_at(user_id, issued, ttl)->Some_0;
            decoded(token, secret) == DecodeOutcome::Claims(raw_claims(claims)) ==> token_verdict(
                decoded(token, secret),
                now,
            ) == window_verdict(claims, issued, ttl, now)
        }),
{
}

/// Claims with no time to live hold at the second of their issue and are
/// expired from the next second on.
pub proof fn lemma_zero_ttl_holds_one_second(user_id: i64, issued: int, now: int)
    requires
        claims_at(user_id, issued, 0) is Some,
    ensures
        ({
            let claims = claims_at(user_id, issued, 0)->Some_0;
            &&& claims.expires_at == claims.issued_at
            &&& claims_verdict(raw_claims(claims), now) is Ok <==> now == issued
            &&& now > issued ==> claims_verdict(raw_claims(claims), now) == Err::<
                SessionClaims,
                TokenError,
            >(TokenError::Expired)
        }),
{
}

/// A token whose shape or signature is wrong is refused for that reason at
/// every moment: the clock is never asked.
pub proof fn lemma_refusal_before_clock(outcome: DecodeOutcome, first: int, second: int)
    requires
        !(outcome is Claims),
    ensures
        token_verdict(outcome, first) == token_verdict(outcome, second),
        token_verdict(outcome, first) is Err,
{
}

/// Builds the claims of a token issued to `user_id` at `now` that expires
/// `expire_interval` seconds later.
pub fn issue_claims(user_id: i64, expire_interval: usize, now: i64) -> (r: Option<SessionClaims>)
    ensures
        r == claims_at(user_id, now as int, expire_interval as int),
{
    if now < 0 {
        return None;
    }
    let issued_at: u64 = now as u64;
    match issued_at.checked_add(expire_interval as u64) {
        Some(expires_at) => Some(SessionClaims { user_id, issued_at, expires_at }),
        None => None,
    }
}

/// Judges what was read from a token against the clock.
///
/// A refusal by the signature check stays what it was. Claims with a field
/// missing are `Malformed`. Complete claims are accepted from the moment of
/// issue to the moment of expiry, both taken in; before that they are
/// `NotYetValid`, after it `Expired`.
pub fn check_claims(outcome: DecodeOutcome, now: i64) -> (r: Result<SessionClaims, TokenError>)
    ensures
        r == token_verdict(outcome, now as int),
        r matches Ok(claims) ==> claims.holds_at(now as int),
{
    match outcome {
        DecodeOutcome::Claims(raw) => match (raw.exp, raw.iat, raw.user_id) {
            (Some(exp), Some(iat), Some(user_id)) => {
                if now < 0 || (now as u64) < iat {
                    Err(TokenError::NotYetValid)
                } else if now as u64 > exp {
                    Err(TokenError::Expired)
                } else {
                    Ok(SessionClaims { user_id, issued_at: iat, expires_at: exp })
                }
            },
            _ => Err(TokenError::Malformed),
        },
        DecodeOutcome::BadSignature => Err(TokenError::BadSignature),
        DecodeOutcome::Malformed => Err(TokenError::Malformed),
    }
}

/// Verifies a token under a secret as of `now`: shape and signature first,
/// then the claims against the clock.
pub fn verify_token_at(token: &str, secret: &[u8], now: i64) -> (r: Result<
    SessionClaims,
    TokenError,
>)
    ensures
        r == token_verdict(decoded(token@, secret@), now as int),
{
    check_claims(decode_signed(token, secret), now)
}

/// Verifies a token under a secret as of this machine's clock.
///
/// Whatever the clock says, the result is the verdict of [`verify_token_at`]
/// at some moment: a token whose shape or signature is wrong is refused for
/// that reason at every moment, and claims that are accepted hold at the moment
/// that was read.
pub fn verify_token(token: &str, secret: &[u8]) -> (r: Result<SessionClaims, TokenError>)
    ensures
        exists|now: int| r == token_verdict(decoded(token@, secret@), now),
        !(decoded(token@, secret@) is Claims) ==> r == token_verdict(decoded(token@, secret@), 0),
{
    let now: i64 = unix_now();
    let r = verify_token_at(token, secret, now);
    assert(r == token_verdict(decoded(token@, secret@), now as int));
    r
}

/// What issuing a token at `now` comes to: no token where the clock or the
/// expiry is out of range, else the signed text of the claims, or the signer's
/// failure.
pub open spec fn issue_verdict(user_id: i64, ttl: int, secret: Seq<u8>, now: int) -> Result<
    Seq<char>,
    TokenIssueError,
> {
    match claims_at(user_id, now, ttl) {
        None => Err(TokenIssueError::ClockOutOfRange),
        Some(claims) => match signed(claims, secret) {
            Some(text) => Ok(text),
            None => Err(TokenIssueError::Signing),
        },
    }
}

/// A token that may have been issued, as a sequence of characters.
pub open spec fn issued_view(issued: Result<String, TokenIssueError>) -> Result<
    Seq<char>,
    TokenIssueError,
> {
    match issued {
        Ok(token) => Ok(token@),
        Err(error) => Err(error),
    }
}

/// Issues a token to `user_id` as of `now`, valid for `expire_interval`
/// seconds and signed with `token_secret`.
///
/// With a clock before the epoch, or an expiry beyond `u64`, nothing is signed
/// and `ClockOutOfRange` is returned. Else the claims are those of
/// [`claims_at`], and the token is their signed text; it reads back under the
/// same secret as these claims.
pub fn generate_token_at(user_id: i64, expire_interval: usize, token_secret: &[u8], now: i64) -> (r:
    Result<String, TokenIssueError>)
    ensures
        issued_view(r) == issue_verdict(user_id, expire_interval as int, token_secret@, now as int),
        r matches Ok(token) ==> decoded(token@, token_secret@) == DecodeOutcome::Claims(
            raw_claims(claims_at(user_id, now as int, expire_interval as int)->Some_0),
        ),
{
    match issue_claims(user_id, expire_interval, now) {
        None => Err(TokenIssueError::ClockOutOfRange),
        Some(claims) => match sign_claims(&claims, token_secret) {
            Ok(token) => Ok(token),
            Err(_) => Err(TokenIssueError::Signing),
        },
    }
}

/// Issues a token to `user_id` as of this machine's clock, valid for
/// `expire_interval` seconds and signed with `token_secret`.
///
/// Whatever the clock says, the result is that of [`generate_token_at`] at
/// some moment, and a token that comes back reads under the same secret as the
/// claims that were issued at that moment.
pub fn generate_token(user_id: i64, expire_interval: usize, token_secret: &[u8]) -> (r: Result<
    String,
    TokenIssueError,
>)
    ensures
        exists|now: int|
            {
                &&& issued_view(r) == #[trigger] issue_verdict(
                    user_id,
                    expire_interval as int,
                    token_secret@,
                    now,
                )
                &&& r matches Ok(token) ==> decoded(token@, token_secret@)
                    == DecodeOutcome::Claims(
                    raw_claims(claims_at(user_id, now, expire_interval as int)->Some_0),
                )
            },
{
    let now: i64 = unix_now();
    let r = generate_token_at(user_id, expire_interval, token_secret, now);
    assert(issued_view(r) == issue_verdict(
        user_id,
        expire_interval as int,
        token_secret@,
        now as int,
    ));
    r
}

} // verus!
