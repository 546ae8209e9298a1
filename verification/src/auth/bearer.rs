//! From an `Authorization` header to the caller's identity.
//!
//! The header arrives as the bytes that the transport received, or not at all.
//! Nothing here knows of a web framework: a handler hands over the bytes and
//! the secret, and gets back who is calling or why the request is turned away.

use vstd::prelude::*;
use vstd::slice::slice_subrange;

use crate::auth::token::decoded;
use crate::auth::token::token_verdict;
use crate::auth::token::verify_token;
use crate::auth::token::verify_token_at;
use crate::auth::token::SessionClaims;
use crate::auth::token::TokenError;
use crate::error::error_json;
use crate::error::response_error;
use crate::error::ErrorResponse;
use crate::error::BAD_REQUEST;
use crate::error::UNAUTHORIZED;

verus! {

/// The caller of a request, as established from its bearer token.
#[derive(Debug, Clone, Copy, PartialEq, Eq, Structural)]
pub struct BearerAuth {
    pub user_id: i64,
}

/// Why a request was turned away before its handler ran.
#[derive(Debug, Clone, Copy, PartialEq, Eq, Structural)]
pub enum AuthRejection {
    /// There is no `Authorization` header.
    MissingToken,
    /// The header holds a byte that is neither visible ASCII nor a tab.
    HeaderNotText,
    /// The header does not start with `Bearer` and a space.
    MissingScheme,
    /// The token was refused. The reason is kept for the server's log; the
    /// caller is told the same whatever it is.
    InvalidToken(TokenError),
}

/// Length of the scheme prefix, the trailing space counted.
pub const BEARER_PREFIX_LENGTH: usize = 7;

/// The scheme prefix, `Bearer` and one space, as bytes.
pub open spec fn bearer_prefix() -> Seq<u8> {
    seq![0x42u8, 0x65u8, 0x61u8, 0x72u8, 0x65u8, 0x72u8, 0x20u8]
}

/// A byte that may stand in a header value read as text: visible ASCII, the
/// space, or a tab.
pub open spec fn is_text_byte(b: u8) -> bool {
    32 <= b < 127 || b == 9
}

/// Every byte of the header value may stand in text.
pub open spec fn is_header_text(value: Seq<u8>) -> bool {
    forall|i: int| 0 <= i < value.len() ==> is_text_byte(#[trigger] value[i])
}

/// The value starts with the scheme prefix.
pub open spec fn has_bearer_prefix(value: Seq<u8>) -> bool {
    value.len() >= 7 && value.subrange(0, 7) == bearer_prefix()
}

/// The value without the scheme prefix, as often as it stands at the start.
pub open spec fn strip_bearer(value: Seq<u8>) -> Seq<u8>
    decreases value.len(),
{
    if has_bearer_prefix(value) {
        strip_bearer(value.skip(7))
    } else {
        value
    }
}

/// Bytes read as text, one character for each byte.
pub open spec fn ascii_text(bytes: Seq<u8>) -> Seq<char> {
    Seq::new(bytes.len(), |i: int| bytes[i] as char)
}

/// The header as a sequence of bytes, if there is one.
pub open spec fn header_view(header: Option<&[u8]>) -> Option<Seq<u8>> {
    match header {
        Some(value) => Some(value@),
        None => None,
    }
}

/// The verdict on a header value alone: the bytes of the token, or the reason
/// why there is none to look at.
pub open spec fn header_verdict(header: Option<Seq<u8>>) -> Result<Seq<u8>, AuthRejection> {
    match header {
        None => Err(AuthRejection::MissingToken),
        Some(value) => if !is_header_text(value) {
            Err(AuthRejection::HeaderNotText)
        } else if !has_bearer_prefix(value) {
            Err(AuthRejection::MissingScheme)
        } else {
            Ok(strip_bearer(value))
        },
    }
}

/// What the extractor answers once the token has been judged.
pub open spec fn identity_verdict(judged: Result<SessionClaims, TokenError>) -> Result<
    BearerAuth,
    AuthRejection,
> {
    match judged {
        Ok(claims) => Ok(BearerAuth { user_id: claims.user_id }),
        Err(reason) => Err(AuthRejection::InvalidToken(reason)),
    }
}

/// The verdict on a request as of `now`: the header's own faults first, then
/// what reading the token under the secret gives.
pub open spec fn request_verdict(header: Option<Seq<u8>>, secret: Seq<u8>, now: int) -> Result<
    BearerAuth,
    AuthRejection,
> {
    match header_verdict(header) {
        Err(rejection) => Err(rejection),
        Ok(token) => identity_verdict(token_verdict(decoded(ascii_text(token), secret), now)),
    }
}

/// Calls `std::str::from_utf8` and drops the error's detail. The contract
/// claims what its documentation says of ASCII input: bytes below 128 are
/// valid UTF-8, and each stands for the character with that code.
#[verifier::external_body]
fn text_of(bytes: &[u8]) -> (r: Option<&str>)
    ensures
        (forall|i: int| 0 <= i < bytes@.len() ==> #[trigger] bytes@[i] < 128) ==> r is Some
            && r->Some_0@ == ascii_text(bytes@),
{
    std::str::from_utf8(bytes).ok()
}

/// Whether every byte of a header value may stand in text.
pub fn header_is_text(value: &[u8]) -> (r: bool)
    ensures
        r == is_header_text(value@),
{
    let mut i: usize = 0;
    while i < value.len()
        invariant
            i <= value@.len(),
            forall|j: int| 0 <= j < i ==> is_text_byte(#[trigger] value@[j]),
        decreases value@.len() - i,
    {
        let b: u8 = value[i];
        if !((32 <= b && b < 127) || b == 9) {
            return false;
        }
        i += 1;
    }
    true
}

/// Whether the scheme prefix stands at position `at` of the value.
fn prefix_at(value: &[u8], at: usize) -> (r: bool)
    requires
        at <= value@.len(),
    ensures
        r == has_bearer_prefix(value@.skip(at as int)),
{
    if value.len() - at < BEARER_PREFIX_LENGTH {
        return false;
    }
    let r = value[at] == 0x42 && value[at + 1] == 0x65 && value[at + 2] == 0x61 && value[at + 3]
        == 0x72 && value[at + 4] == 0x65 && value[at + 5] == 0x72 && value[at + 6] == 0x20;
    proof {
        let rest = value@.skip(at as int);
        let head = rest.subrange(0, 7);
        assert(forall|k: int| 0 <= k < 7 ==> head[k] == value@[at + k]);
        if r {
            assert(head =~= bearer_prefix());
        } else {
            assert(head != bearer_prefix()) by {
                if head == bearer_prefix() {
                    assert(head[0] == 0x42 && head[1] == 0x65 && head[2] == 0x61 && head[3]
                        == 0x72 && head[4] == 0x65 && head[5] == 0x72 && head[6] == 0x20);
                }
            }
        }
    }
    r
}

/// Skipping a part of the value skips it in what is left after the prefixes too.
proof fn lemma_strip_step(value: Seq<u8>, at: int)
    requires
        0 <= at <= value.len(),
        has_bearer_prefix(value.skip(at)),
    ensures
        strip_bearer(value.skip(at)) == strip_bearer(value.skip(at + 7)),
{
    assert(value.skip(at).skip(7) =~= value.skip(at + 7));
}

/// Takes the token out of an `Authorization` header.
///
/// No header is `MissingToken`. A value with a byte outside text is
/// `HeaderNotText`; a value of text that does not start with `Bearer ` is
/// `MissingScheme`. Else the token is what follows the prefix, and where the
/// prefix stands there again, what follows the last of them.
pub fn bearer_token<'a>(header: Option<&'a [u8]>) -> (r: Result<&'a [u8], AuthRejection>)
    ensures
        match r {
            Ok(token) => header_verdict(
                header_view(header),
            ) == Ok::<Seq<u8>, AuthRejection>(token@),
            Err(rejection) => header_verdict(
                header_view(header),
            ) == Err::<Seq<u8>, AuthRejection>(rejection),
        },
        r matches Ok(token) ==> is_header_text(token@),
{
    let value = match header {
        Some(value) => value,
        None => {
            return Err(AuthRejection::MissingToken);
        },
    };
    if !header_is_text(value) {
        return Err(AuthRejection::HeaderNotText);
    }
    assert(value@.skip(0) =~= value@);
    if !prefix_at(value, 0) {
        return Err(AuthRejection::MissingScheme);
    }
    let length: usize = value.len();
    let mut start: usize = 0;
    while prefix_at(value, start)
        invariant
            length == value@.len(),
            start <= value@.len(),
            strip_bearer(value@.skip(start as int)) == strip_bearer(value@),
        decreases value@.len() - start,
    {
        proof {
            assert(value@.skip(start as int).len() == value@.len() - start);
            lemma_strip_step(value@, start as int);
        }
        start += BEARER_PREFIX_LENGTH;
    }
    let token = slice_subrange(value, start, length);
    assert(token@ =~= value@.skip(start as int));
    Ok(token)
}

impl BearerAuth {
    /// The caller's identity from a judged token: the claims' user, or the
    /// rejection that keeps the reason.
    pub fn from_claims(judged: Result<SessionClaims, TokenError>) -> (r: Result<
        BearerAuth,
        AuthRejection,
    >)
        ensures
            r == identity_verdict(judged),
    {
        match judged {
            Ok(claims) => Ok(BearerAuth { user_id: claims.user_id }),
            Err(reason) => Err(AuthRejection::InvalidToken(reason)),
        }
    }

    /// Establishes the caller of a request as of `now`, from its
    /// `Authorization` header and the signing secret.
    pub fn from_request_at(authorization: Option<&[u8]>, jwt_secret: &[u8], now: i64) -> (r:
        Result<BearerAuth, AuthRejection>)
        ensures
            r == request_verdict(
                header_view(authorization),
                jwt_secret@,
                now as int,
            ),
    {
        let token = match bearer_token(authorization) {
            Ok(token) => token,
            Err(rejection) => {
                return Err(rejection);
            },
        };
        match text_of(token) {
            Some(text) => BearerAuth::from_claims(verify_token_at(text, jwt_secret, now)),
            None => Err(AuthRejection::InvalidToken(TokenError::Malformed)),
        }
    }

    /// Establishes the caller of a request as of this machine's clock.
    ///
    /// Whatever the clock says, the answer is that of [`Self::from_request_at`]
    /// at some moment; a fault of the header itself is reported whatever the
    /// moment.
    pub fn from_request(authorization: Option<&[u8]>, jwt_secret: &[u8]) -> (r: Result<
        BearerAuth,
        AuthRejection,
    >)
        ensures
            exists|now: int|
                r == #[trigger] request_verdict(
                    header_view(authorization),
                    jwt_secret@,
                    now,
                ),
    {
        let token = match bearer_token(authorization) {
            Ok(token) => token,
            Err(rejection) => {
                assert(Err::<BearerAuth, AuthRejection>(rejection) == request_verdict(
                    header_view(authorization),
                    jwt_secret@,
                    0,
                ));
                return Err(rejection);
            },
        };
        match text_of(token) {
            Some(text) => {
                let judged = verify_token(text, jwt_secret);
                let r = BearerAuth::from_claims(judged);
                proof {
                    let now = choose|now: int|
                        judged == token_verdict(decoded(text@, jwt_secret@), now);
                    assert(r == request_verdict(
                        header_view(authorization),
                        jwt_secret@,
                        now,
                    ));
                }
                r
            },
            None => Err(AuthRejection::InvalidToken(TokenError::Malformed)),
        }
    }
}

impl AuthRejection {
    /// The status that the caller sees.
    pub open spec fn status(self) -> u16 {
        match self {
            AuthRejection::MissingToken => UNAUTHORIZED,
            AuthRejection::HeaderNotText => BAD_REQUEST,
            AuthRejection::MissingScheme => BAD_REQUEST,
            AuthRejection::InvalidToken(_) => UNAUTHORIZED,
        }
    }

    /// The message that the caller sees.
    pub open spec fn text(self) -> Seq<char> {
        match self {
            AuthRejection::MissingToken => "No token provided"@,
            AuthRejection::HeaderNotText => "Authorization header is not an valid string"@,
            AuthRejection::MissingScheme => "Authorization header must starts with \"Bearer\""@,
            AuthRejection::InvalidToken(_) => "Unauthorized"@,
        }
    }

    /// The HTTP status of the rejection: 401 where no token was presented or the
    /// token was refused, 400 where the header itself is at fault.
    pub fn status_code(&self) -> (code: u16)
        ensures
            code == self.status(),
    {
        match self {
            AuthRejection::MissingToken => UNAUTHORIZED,
            AuthRejection::HeaderNotText => BAD_REQUEST,
            AuthRejection::MissingScheme => BAD_REQUEST,
            AuthRejection::InvalidToken(_) => UNAUTHORIZED,
        }
    }

    /// The message for the caller. A refused token is `Unauthorized` and no
    /// more, whatever the reason.
    pub fn message(&self) -> (msg: &'static str)
        ensures
            msg@ == self.text(),
    {
        match self {
            AuthRejection::MissingToken => "No token provided",
            AuthRejection::HeaderNotText => "Authorization header is not an valid string",
            AuthRejection::MissingScheme => "Authorization header must starts with \"Bearer\"",
            AuthRejection::InvalidToken(_) => "Unauthorized",
        }
    }

    /// The rejection as it goes out.
    pub fn error_response(&self) -> (response: ErrorResponse)
        ensures
            response.status == self.status(),
            response.body@ == error_json(self.text()),
    {
        response_error(self.status_code(), self.message())
    }
}

/// Two refused tokens look the same from outside: status and message do not
/// depend on why the token was refused.
pub proof fn lemma_refusal_reason_is_hidden(first: TokenError, second: TokenError)
    ensures
        AuthRejection::InvalidToken(first).status() == AuthRejection::InvalidToken(
            second,
        ).status(),
        AuthRejection::InvalidToken(first).text() == AuthRejection::InvalidToken(second).text(),
{
}

} // verus!
