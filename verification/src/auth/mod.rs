//! Bearer tokens: the claims they carry, how a decoded token is judged, and
//! how a handler obtains the authenticated user.

use vstd::prelude::*;

verus! {

/// How long an issued token stays valid, in seconds (one day).
pub const TOKEN_LIFETIME_SECS: usize = 86400;

/// The claims of a token: the user's name and the expiry time (seconds since
/// the Unix epoch).
#[derive(Debug, Clone, PartialEq, Eq)]
pub struct Claims {
    pub sub: String,
    exp: usize,
}

/// Reads the clock with `chrono::offset::Utc::now().timestamp()`: seconds
/// since the Unix epoch. Claimed: the value is not negative (`Utc::now`
/// panics on a clock before the epoch). Which time it reads is not stated.
#[verifier::external_body]
fn utc_timestamp() -> (t: i64)
    ensures
        t >= 0,
{
    chrono::offset::Utc::now().timestamp()
}

/// The expiry time of a token issued at `now`: one day later, `now` taken as an
/// unsigned number of seconds.
pub open spec fn token_expiry(now: i64) -> int {
    (now as usize) + TOKEN_LIFETIME_SECS
}

impl Claims {
    /// The subject: the user's name.
    pub closed spec fn subject(self) -> Seq<char> {
        self.sub@
    }

    /// The expiry time.
    pub closed spec fn expires_at(self) -> usize {
        self.exp
    }

    /// The subject: the user's name.
    pub fn sub(&self) -> (s: &String)
        ensures
            s@ == self.subject(),
    {
        &self.sub
    }

    /// The expiry time.
    pub fn exp(&self) -> (e: usize)
        ensures
            e == self.expires_at(),
    {
        self.exp
    }

    /// Claims with the given subject and expiry time.
    pub fn from_parts(sub: String, exp: usize) -> (c: Claims)
        ensures
            c.subject() == sub@,
            c.expires_at() == exp,
    {
        Claims { sub, exp }
    }

    /// Claims for `username` issued at the time `now`: they expire one day
    /// later. `now` is taken as an unsigned number of seconds, and the sum must
    /// fit in a `usize`.
    pub fn issued_at(username: String, now: i64) -> (c: Claims)
        requires
            token_expiry(now) <= usize::MAX,
        ensures
            c.subject() == username@,
            c.expires_at() == token_expiry(now),
    {
        let start: usize = now as usize;
        Claims { sub: username, exp: start + TOKEN_LIFETIME_SECS }
    }

    /// Claims for `username` issued at the clock reading `now` (see
    /// [`claims_issued_at`]): `None` where the expiry does not fit in a `usize`.
    pub fn claims_at(username: String, now: i64) -> (c: Option<Claims>)
        ensures
            claims_issued_at(username@, now, c),
    {
        let start: usize = now as usize;
        if start <= usize::MAX - TOKEN_LIFETIME_SECS {
            Some(Claims::issued_at(username, now))
        } else {
            None
        }
    }

    /// Claims for `username` issued now: the clock is read (a reading is
    /// never negative) and [`Claims::claims_at`] decides for that reading.
    pub fn new(username: String) -> (c: Option<Claims>)
        ensures
            exists|now: i64| 0 <= now && #[trigger] claims_issued_at(username@, now, c),
    {
        let now = utc_timestamp();
        let c = Claims::claims_at(username, now);
        assert(0 <= now && claims_issued_at(username@, now, c));
        c
    }
}

/// What issuing claims for `username` at the clock reading `now` gives:
/// claims for that subject expiring at [`token_expiry`]`(now)`, exactly where
/// that expiry fits in a `usize`, and `None` otherwise.
pub open spec fn claims_issued_at(username: Seq<char>, now: i64, c: Option<Claims>) -> bool {
    &&& (c is Some) == (token_expiry(now) <= usize::MAX)
    &&& c matches Some(claims) ==> claims.subject() == username && claims.expires_at() == token_expiry(
        now,
    )
}

/// Why decoding a token failed, kind by kind as the token library reports it;
/// data that the kinds carry is kept where it is text.
#[derive(Debug, Clone, PartialEq, Eq)]
pub enum TokenErrorKind {
    InvalidToken,
    InvalidSignature,
    InvalidEcdsaKey,
    InvalidRsaKey(String),
    RsaFailedSigning,
    InvalidAlgorithmName,
    InvalidKeyFormat,
    MissingRequiredClaim(String),
    ExpiredSignature,
    InvalidIssuer,
    InvalidAudience,
    InvalidSubject,
    ImmatureSignature,
    InvalidAlgorithm,
    MissingAlgorithm,
    Base64,
    Json,
    Utf8,
    Crypto,
    /// A kind that this list does not name.
    Unknown,
}

/// Why a token is turned away: the three cases that validation tells apart.
#[derive(Debug, Clone, Copy, PartialEq, Eq)]
pub enum TokenRejection {
    InvalidToken,
    InvalidIssuer,
    Other,
}

impl TokenRejection {
    pub open spec fn spec_message(self) -> Seq<char> {
        match self {
            TokenRejection::InvalidToken => "Token is invalid"@,
            TokenRejection::InvalidIssuer => "Issuer is invalid"@,
            TokenRejection::Other => "Some other errors"@,
        }
    }

    /// The message that the rejection is reported with.
    pub fn message(&self) -> (m: &'static str)
        ensures
            m@ == self.spec_message(),
    {
        match self {
            TokenRejection::InvalidToken => "Token is invalid",
            TokenRejection::InvalidIssuer => "Issuer is invalid",
            TokenRejection::Other => "Some other errors",
        }
    }
}

/// The rejection for a decoding error: malformed tokens and wrong issuers are
/// told apart, every other kind is reported alike.
pub open spec fn rejection_for(kind: TokenErrorKind) -> TokenRejection {
    match kind {
        TokenErrorKind::InvalidToken => TokenRejection::InvalidToken,
        TokenErrorKind::InvalidIssuer => TokenRejection::InvalidIssuer,
        _ => TokenRejection::Other,
    }
}

/// The rejection of a token that failed to decode with this kind: the
/// validator stops there, reporting the rejection's message.
pub fn token_rejection(kind: &TokenErrorKind) -> (r: TokenRejection)
    ensures
        r == rejection_for(*kind),
{
    match kind {
        TokenErrorKind::InvalidToken => TokenRejection::InvalidToken,
        TokenErrorKind::InvalidIssuer => TokenRejection::InvalidIssuer,
        _ => TokenRejection::Other,
    }
}

/// Judges a decoded bearer token: its claims are accepted as they are. A
/// token that failed to decode never reaches this point: the validator stops
/// on it with [`token_rejection`].
pub fn jwt_validate(decoded: Result<Claims, TokenErrorKind>) -> (claims: Claims)
    requires
        decoded is Ok,
    ensures
        decoded == Ok::<Claims, TokenErrorKind>(claims),
{
    decoded.unwrap()
}

/// The user that a request was authenticated as.
#[derive(Debug, Clone, PartialEq, Eq)]
pub struct Authenticated(Claims);

/// The error of a request that carries no authentication.
#[derive(Debug, Clone, Copy, PartialEq, Eq)]
pub struct AuthError {
    name: &'static str,
}

impl AuthError {
    /// The error's name, which is also its message.
    pub closed spec fn spec_name(self) -> Seq<char> {
        self.name@
    }

    /// The error's name, which is also its message.
    pub fn name(&self) -> (n: &'static str)
        ensures
            n@ == self.spec_name(),
    {
        self.name
    }
}

impl Authenticated {
    /// The claims that the request was authenticated with.
    pub closed spec fn spec_claims(self) -> Claims {
        self.0
    }

    /// The authenticated user, from the claims that token validation attached
    /// to the request: none attached is an `AuthError` named `Auth Failed`.
    pub fn from_request(attached: Option<Claims>) -> (r: Result<Authenticated, AuthError>)
        ensures
            match attached {
                Some(claims) => r matches Ok(auth) && auth.spec_claims() == claims,
                None => r matches Err(e) && e.spec_name() == "Auth Failed"@,
            },
    {
        match attached {
            Some(claims) => Ok(Authenticated(claims)),
            None => Err(AuthError { name: "Auth Failed" }),
        }
    }

    /// The claims that the request was authenticated with.
    pub fn claims(&self) -> (c: &Claims)
        ensures
            *c == self.spec_claims(),
    {
        &self.0
    }
}

impl core::ops::Deref for Authenticated {
    type Target = Claims;

    fn deref(&self) -> (c: &Claims)
        ensures
            *c == self.spec_claims(),
    {
        &self.0
    }
}

} // verus!
