//! Bearer tokens: the claims they carry, how they are issued, and the
//! errors of authentication.
use vstd::prelude::*;
use vstd::slice::slice_to_vec;
use crate::text::{decimal_string, decimal_text};

verus! {

/// How long an issued token stays valid, in seconds (a day).
pub const TOKEN_LIFETIME_SECS: u64 = 86400;

/// The verified payload of a bearer token.
#[derive(Debug, Clone, PartialEq, Eq, Default)]
pub struct Claims {
    pub sub: String,
    /// Expiry, in seconds since the Unix epoch.
    pub exp: u64,
}

#[derive(Debug, Clone, PartialEq, Eq)]
pub struct AuthRequest {
    pub client_id: String,
    pub client_secret: String,
}

#[derive(Debug, Clone, PartialEq, Eq)]
pub struct AuthResponse {
    pub token: String,
}

#[derive(Debug, Clone, Copy, PartialEq, Eq)]
pub enum AuthError {
    WrongCredentials,
    MissingCredentials,
    TokenCreation,
    InvalidToken,
}

/// The process-wide token signing secret, loaded once at startup.
#[derive(Clone)]
pub struct Keys {
    pub secret: Vec<u8>,
}

impl Keys {
    pub fn new(secret: &[u8]) -> (r: Keys)
        ensures
            r.secret@ == secret@,
    {
        Keys { secret: slice_to_vec(secret) }
    }
}

/// The HTTP status code of an authentication error.
pub open spec fn auth_status_of(e: AuthError) -> u16 {
    match e {
        AuthError::WrongCredentials => 401,
        AuthError::MissingCredentials => 400,
        AuthError::TokenCreation => 500,
        AuthError::InvalidToken => 400,
    }
}

impl AuthError {
    pub fn status_code(&self) -> (r: u16)
        ensures
            r == auth_status_of(*self),
    {
        match self {
            AuthError::WrongCredentials => 401,
            AuthError::MissingCredentials => 400,
            AuthError::TokenCreation => 500,
            AuthError::InvalidToken => 400,
        }
    }

    pub fn message(&self) -> (r: String)
        ensures
            r@ == match *self {
                AuthError::WrongCredentials => "Wrong credentials"@,
                AuthError::MissingCredentials => "Missing credentials"@,
                AuthError::TokenCreation => "Token creation error"@,
                AuthError::InvalidToken => "Invalid token"@,
            },
    {
        match self {
            AuthError::WrongCredentials => String::from_str("Wrong credentials"),
            AuthError::MissingCredentials => String::from_str("Missing credentials"),
            AuthError::TokenCreation => String::from_str("Token creation error"),
            AuthError::InvalidToken => String::from_str("Invalid token"),
        }
    }
}

impl Claims {
    /// The claims as text: `Subject: <sub>` and `Expiration: <exp>` on two lines.
    pub fn to_string(&self) -> (r: String)
        ensures
            r@ == "Subject: "@ + self.sub@ + "\nExpiration: "@ + decimal_text(self.exp as nat),
    {
        let mut s = String::from_str("Subject: ");
        s.append(self.sub.as_str());
        s.append("\nExpiration: ");
        let e = decimal_string(self.exp);
        s.append(e.as_str());
        s
    }
}

/// The token that `jsonwebtoken::encode` makes of the claims `sub` and `exp`
/// under the default header, signed with `secret`.
pub uninterp spec fn signed_token(sub: Seq<char>, exp: u64, secret: Seq<u8>) -> Seq<char>;

#[verifier::external_type_specification]
#[verifier::external_body]
pub struct ExJwtError(jsonwebtoken::errors::Error);

/// Relies on `jsonwebtoken::encode` with `Header::default()` (HS256) and the
/// key of `EncodingKey::from_secret`: the key's family matches the header's
/// algorithm, a map of JSON values always serializes and HMAC signing always
/// succeeds, so the call returns `Ok`; HMAC signing is deterministic, so the
/// token depends on the claims and the secret alone.
#[verifier::external_body]
fn sign_claims(sub: &str, exp: u64, secret: &[u8]) -> (r: Result<
    String,
    jsonwebtoken::errors::Error,
>)
    ensures
        r is Ok,
        r matches Ok(t) ==> t@ == signed_token(sub@, exp, secret@),
{
    let mut claims = std::collections::BTreeMap::new();
    claims.insert("sub", serde_json::Value::from(sub));
    claims.insert("exp", serde_json::Value::from(exp));
    let key = jsonwebtoken::EncodingKey::from_secret(secret);
    jsonwebtoken::encode(&jsonwebtoken::Header::default(), &claims, &key)
}

#[verifier::external_type_specification]
#[verifier::external_body]
pub struct ExSystemTime(std::time::SystemTime);

#[verifier::external_type_specification]
#[verifier::external_body]
pub struct ExSystemTimeError(std::time::SystemTimeError);

/// Relies on `std::time::SystemTime::now`: the current time, of which nothing is promised.
pub assume_specification[ std::time::SystemTime::now ]() -> std::time::SystemTime;

/// Relies on `std::time::SystemTime::duration_since`: how long after `earlier` a time is.
pub assume_specification[ std::time::SystemTime::duration_since ](
    t: &std::time::SystemTime,
    earlier: std::time::SystemTime,
) -> Result<core::time::Duration, std::time::SystemTimeError>;

/// Relies on `core::time::Duration::as_secs`: the whole seconds of a duration.
pub assume_specification[ core::time::Duration::as_secs ](d: &core::time::Duration) -> u64;

/// Relies on `std::time::UNIX_EPOCH`: the time of the Unix epoch.
#[verifier::external_body]
fn unix_epoch() -> std::time::SystemTime {
    std::time::UNIX_EPOCH
}

/// The current time in whole seconds since the Unix epoch; `None` when the
/// clock reads earlier than the epoch.
fn unix_now_secs() -> (r: Option<u64>) {
    let now = std::time::SystemTime::now();
    match now.duration_since(unix_epoch()) {
        Ok(d) => Some(d.as_secs()),
        Err(_) => None,
    }
}

/// The claims issued to `subject` at time `now`: they expire a day later.
/// `None` when that instant does not fit in 64 bits.
pub fn issue_claims(subject: &str, now: u64) -> (r: Option<Claims>)
    ensures
        now + TOKEN_LIFETIME_SECS <= u64::MAX <==> r is Some,
        r matches Some(c) ==> c.sub@ == subject@ && c.exp == now + TOKEN_LIFETIME_SECS,
{
    if now > u64::MAX - TOKEN_LIFETIME_SECS {
        None
    } else {
        Some(Claims { sub: String::from_str(subject), exp: now + TOKEN_LIFETIME_SECS })
    }
}

/// Signs a token for `subject` at time `now`, expiring a day later. An
/// expiry beyond 64 bits is `InvalidToken`.
pub fn issue_token(subject: &str, now: u64, keys: &Keys) -> (r: Result<String, AuthError>)
    ensures
        r matches Ok(t) ==> now + TOKEN_LIFETIME_SECS <= u64::MAX && t@ == signed_token(
            subject@,
            (now + TOKEN_LIFETIME_SECS) as u64,
            keys.secret@,
        ),
        now + TOKEN_LIFETIME_SECS <= u64::MAX ==> r is Ok,
        now + TOKEN_LIFETIME_SECS > u64::MAX ==> r == Err::<String, AuthError>(AuthError::InvalidToken),
{
    match issue_claims(subject, now) {
        None => Err(AuthError::InvalidToken),
        Some(claims) => match sign_claims(claims.sub.as_str(), claims.exp, keys.secret.as_slice()) {
            Ok(t) => Ok(t),
            Err(_) => Err(AuthError::InvalidToken),
        },
    }
}

/// The client credentials that are accepted.
pub open spec fn credentials_ok(req: AuthRequest) -> bool {
    req.client_id@ == "foo"@ && req.client_secret@ == "bar"@
}

/// Checks a client's credentials.
pub fn check_credentials(req: &AuthRequest) -> (r: Result<(), AuthError>)
    ensures
        r is Ok <==> credentials_ok(*req),
        r matches Err(e) ==> e == AuthError::WrongCredentials,
{
    let id = String::from_str("foo");
    let secret = String::from_str("bar");
    if req.client_id == id && req.client_secret == secret {
        Ok(())
    } else {
        Err(AuthError::WrongCredentials)
    }
}

/// Answers a token request made at time `now`: wrong credentials are
/// refused, else a token for the client id is issued.
pub fn authorize(req: &AuthRequest, now: u64, keys: &Keys) -> (r: Result<AuthResponse, AuthError>)
    ensures
        !credentials_ok(*req) ==> r == Err::<AuthResponse, AuthError>(AuthError::WrongCredentials),
        credentials_ok(*req) && now + TOKEN_LIFETIME_SECS > u64::MAX ==> r
            == Err::<AuthResponse, AuthError>(AuthError::InvalidToken),
        credentials_ok(*req) && now + TOKEN_LIFETIME_SECS <= u64::MAX ==> r is Ok,
        r matches Ok(resp) ==> credentials_ok(*req) && resp.token@ == signed_token(
            req.client_id@,
            (now + TOKEN_LIFETIME_SECS) as u64,
            keys.secret@,
        ),
{
    check_credentials(req)?;
    let token = issue_token(req.client_id.as_str(), now, keys)?;
    Ok(AuthResponse { token })
}

/// Signs a token for the request's client id at the current time.
pub fn gen_token(auth_request: &AuthRequest, keys: &Keys) -> (r: Result<String, AuthError>)
    ensures
        r matches Ok(t) ==> exists|exp: u64| t@ == signed_token(auth_request.client_id@, exp, keys.secret@),
{
    match unix_now_secs() {
        None => Err(AuthError::TokenCreation),
        Some(now) => issue_token(auth_request.client_id.as_str(), now, keys),
    }
}

/// Claims for use in tests: subject `test`, expiry 0.
pub fn mock_claims() -> (r: Claims)
    ensures
        r.sub@ == "test"@,
        r.exp == 0,
{
    Claims { sub: String::from_str("test"), exp: 0 }
}

/// An `Authorization` header value for use in tests: `Bearer ` and a token
/// signed now for the client `foo`.
pub fn mock_token(keys: &Keys) -> (r: Result<String, AuthError>)
    ensures
        r matches Ok(h) ==> exists|exp: u64| h@ == "Bearer "@ + signed_token("foo"@, exp, keys.secret@),
{
    let auth_request = AuthRequest {
        client_id: String::from_str("foo"),
        client_secret: String::from_str("bar"),
    };
    let token = gen_token(&auth_request, keys)?;
    let mut header = String::from_str("Bearer ");
    header.append(token.as_str());
    Ok(header)
}

} // verus!
