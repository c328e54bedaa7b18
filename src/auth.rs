//! Authentication of requests: API keys, signed bearer tokens, and the
//! bypass used on trusted local channels.

use vstd::prelude::*;
use crate::text::{chars_of, has_prefix, owned, push_char, same_text, starts_with, suffix_from};

verus! {

#[verifier::external_type_specification]
#[verifier::external_body]
pub struct ExUuid(uuid::Uuid);

/// Relies on `uuid::Uuid`'s derived `Clone`; nothing about the copy is used.
pub assume_specification[ <uuid::Uuid as Clone>::clone ](id: &uuid::Uuid) -> uuid::Uuid;

/// Relies on `uuid::Uuid::new_v4`: a fresh random identifier.
#[verifier::external_body]
pub(crate) fn new_request_id() -> uuid::Uuid {
    uuid::Uuid::new_v4()
}

/// Relies on `uuid::Uuid`'s `Display`: the hyphenated form, 36 characters.
#[verifier::external_body]
pub(crate) fn uuid_text(id: &uuid::Uuid) -> (r: String)
    ensures
        r@.len() == 36,
{
    id.to_string()
}

/// The claims (subject, expiry, issue time, issuer) that a token signed with
/// `secret` carries, as `jsonwebtoken::decode` reads them when it checks the
/// signature but not the expiry; nothing for a token that fails.
pub uninterp spec fn jwt_claims_of(token: Seq<char>, secret: Seq<char>) -> Option<(Seq<char>, u64, u64, Seq<char>)>;

/// Relies on `jsonwebtoken::decode` with `Validation::default()` (HS256, an
/// `exp` claim required) with its expiry check switched off, and a key made
/// by `DecodingKey::from_secret`: without the clock, the outcome depends on
/// the token and the secret alone. The claims are read from the decoded
/// JSON object.
#[verifier::external_body]
fn decode_token(token: &str, secret: &str) -> (r: Option<(String, u64, u64, String)>)
    ensures
        match (r, jwt_claims_of(token@, secret@)) {
            (Some(t), Some(c)) => t.0@ == c.0 && t.1 == c.1 && t.2 == c.2 && t.3@ == c.3,
            (None, None) => true,
            _ => false,
        },
{
    let key = jsonwebtoken::DecodingKey::from_secret(secret.as_bytes());
    let mut validation = jsonwebtoken::Validation::default();
    validation.validate_exp = false;
    let data = jsonwebtoken::decode::<serde_json::Value>(token, &key, &validation).ok()?;
    let c = &data.claims;
    match (c["sub"].as_str(), c["exp"].as_u64(), c["iat"].as_u64(), c["iss"].as_str()) {
        (Some(sub), Some(exp), Some(iat), Some(iss)) => Some((sub.to_string(), exp, iat, iss.to_string())),
        _ => None,
    }
}

/// How long after its expiry a token is still accepted, in seconds.
pub const EXPIRY_LEEWAY_SECONDS: u64 = 60;

/// Settings of the authenticator. `api_keys` is a set: order and repetition
/// do not matter.
#[derive(Debug, Clone)]
pub struct AuthConfig {
    pub enable_auth: bool,
    pub api_keys: Vec<String>,
    pub jwt_secret: Option<String>,
    pub enable_request_logging: bool,
}

impl Default for AuthConfig {
    fn default() -> (r: AuthConfig)
        ensures
            r.enable_auth,
            r.api_keys@.len() == 0,
            r.jwt_secret is None,
            r.enable_request_logging,
    {
        AuthConfig { enable_auth: true, api_keys: Vec::new(), jwt_secret: None, enable_request_logging: true }
    }
}

/// The claims of a bearer token.
#[derive(Debug, Clone, PartialEq)]
pub struct Claims {
    pub sub: String,
    pub exp: u64,
    pub iat: u64,
    pub iss: String,
}

/// How a request was authenticated.
#[derive(Debug, Clone, PartialEq)]
pub enum AuthMethod {
    ApiKey(String),
    JwtToken(Claims),
    Bypass,
}

/// The identity of one request or streaming connection.
#[derive(Debug, Clone)]
pub struct AuthenticatedRequest {
    pub request_id: uuid::Uuid,
    pub authenticated_by: AuthMethod,
    pub subject: String,
}

/// Why authentication failed.
#[derive(Debug, Clone, PartialEq)]
pub enum AuthError {
    InvalidApiKey,
    JwtSecretMissing,
    InvalidToken(String),
    InvalidHeaderFormat,
    MissingCredentials,
}

/// Whether `key` is one of `keys`.
pub open spec fn key_in(keys: Seq<String>, key: Seq<char>) -> bool {
    exists|i: int| 0 <= i < keys.len() && (#[trigger] keys[i])@ == key
}

/// How many characters of an API key its identity shows: half of them,
/// rounded down, and at most eight, so never the whole key.
pub open spec fn shown_len(key: Seq<char>) -> int {
    if key.len() / 2 < 8 { (key.len() / 2) as int } else { 8 }
}

/// The subject of an API-key identity: a redacted prefix of the key.
pub open spec fn redacted_subject(key: Seq<char>) -> Seq<char> {
    "api_key:"@ + key.take(shown_len(key))
}

/// The claims a decoded token carries.
pub open spec fn claims_match(c: Claims, t: (Seq<char>, u64, u64, Seq<char>)) -> bool {
    c.sub@ == t.0 && c.exp == t.1 && c.iat == t.2 && c.iss@ == t.3
}

/// Whether a token that expires at `exp` is still accepted at `now` (seconds).
pub open spec fn not_expired(exp: u64, now: u64) -> bool {
    exp + EXPIRY_LEEWAY_SECONDS >= now
}

/// The outcome that decoded claims (or their absence) give at `now`: the
/// token's own identity while it has not expired, else `InvalidToken`.
pub open spec fn claims_outcome(
    decoded: Option<(Seq<char>, u64, u64, Seq<char>)>,
    now: u64,
    r: Result<AuthenticatedRequest, AuthError>,
) -> bool {
    match decoded {
        Some(t) => if not_expired(t.1, now) {
            r matches Ok(a) && a.authenticated_by matches AuthMethod::JwtToken(c) && claims_match(c, t) && a.subject == c.sub
        } else {
            r matches Err(e) && e is InvalidToken
        },
        None => r matches Err(e) && e is InvalidToken,
    }
}

/// The token of an `Authorization` header value of the bearer scheme.
pub open spec fn bearer_token(header: Seq<char>) -> Option<Seq<char>> {
    if has_prefix(header, "Bearer "@) {
        Some(header.skip(7))
    } else {
        None
    }
}

/// Whether a bearer token has the shape of a signed token rather than an API key.
pub open spec fn looks_like_jwt(token: Seq<char>) -> bool {
    has_prefix(token, "eyJ"@)
}

/// The identity that a successful token decode gives.
pub open spec fn token_identity(claims: Claims, r: AuthenticatedRequest) -> bool {
    &&& r.authenticated_by == AuthMethod::JwtToken(claims)
    &&& r.subject == claims.sub
}

pub struct Authenticator {
    config: AuthConfig,
}

impl Authenticator {
    pub closed spec fn config(&self) -> AuthConfig {
        self.config
    }

    /// The outcome that an API key is owed.
    pub open spec fn api_key_outcome(&self, key: Seq<char>, r: Result<AuthenticatedRequest, AuthError>) -> bool {
        if !self.config().enable_auth {
            r matches Ok(a) && a.authenticated_by == AuthMethod::Bypass && a.subject@ == "local"@
        } else if key_in(self.config().api_keys@, key) {
            &&& r matches Ok(a)
            &&& a.authenticated_by matches AuthMethod::ApiKey(k) && k@ == key
            &&& a.subject@ == redacted_subject(key)
        } else {
            r == Err::<AuthenticatedRequest, AuthError>(AuthError::InvalidApiKey)
        }
    }

    /// The outcome that a bearer token is owed at `now` (seconds): without
    /// authentication a bypass, without a secret an error, and otherwise the
    /// identity of the claims the token carries under the secret.
    pub open spec fn token_outcome(&self, token: Seq<char>, now: u64, r: Result<AuthenticatedRequest, AuthError>) -> bool {
        if !self.config().enable_auth {
            r matches Ok(a) && a.authenticated_by == AuthMethod::Bypass && a.subject@ == "local"@
        } else {
            match self.config().jwt_secret {
                None => r == Err::<AuthenticatedRequest, AuthError>(AuthError::JwtSecretMissing),
                Some(secret) => claims_outcome(jwt_claims_of(token, secret@), now, r),
            }
        }
    }

    pub fn new(config: AuthConfig) -> (r: Authenticator)
        ensures
            r.config() == config,
    {
        Authenticator { config }
    }

    fn local_identity(subject: &str) -> (r: AuthenticatedRequest)
        ensures
            r.authenticated_by == AuthMethod::Bypass,
            r.subject@ == subject@,
    {
        AuthenticatedRequest { request_id: new_request_id(), authenticated_by: AuthMethod::Bypass, subject: owned(subject) }
    }

    fn has_key(&self, key: &str) -> (r: bool)
        ensures
            r == key_in(self.config.api_keys@, key@),
    {
        let mut i: usize = 0;
        while i < self.config.api_keys.len()
            invariant
                i <= self.config.api_keys@.len(),
                forall|j: int| 0 <= j < i ==> self.config.api_keys@[j]@ != key@,
            decreases self.config.api_keys.len() - i,
        {
            if same_text(self.config.api_keys[i].as_str(), key) {
                assert(self.config.api_keys@[i as int]@ == key@);
                return true;
            }
            i = i + 1;
        }
        false
    }

    /// Accepts a key of the configured set; the identity's subject shows at
    /// most the key's first eight characters.
    pub fn authenticate_api_key(&self, api_key: &str) -> (r: Result<AuthenticatedRequest, AuthError>)
        ensures
            self.api_key_outcome(api_key@, r),
            self.config().enable_auth && api_key@.len() > 0 && r is Ok ==> shown_len(api_key@) < api_key@.len(),
    {
        if !self.config.enable_auth {
            return Ok(Self::local_identity("local"));
        }
        if self.has_key(api_key) {
            let chars = chars_of(api_key);
            let n: usize = if chars.len() / 2 < 8 { chars.len() / 2 } else { 8 };
            let mut subject = owned("api_key:");
            let mut i: usize = 0;
            while i < n
                invariant
                    chars@ == api_key@,
                    n <= chars@.len(),
                    i <= n,
                    subject@ == "api_key:"@ + chars@.take(i as int),
                decreases n - i,
            {
                push_char(&mut subject, chars[i]);
                proof {
                    assert(chars@.take(i as int + 1) =~= chars@.take(i as int).push(chars@[i as int]));
                }
                i = i + 1;
            }
            Ok(AuthenticatedRequest {
                request_id: new_request_id(),
                authenticated_by: AuthMethod::ApiKey(owned(api_key)),
                subject,
            })
        } else {
            Err(AuthError::InvalidApiKey)
        }
    }

    /// The identity that the decoder's answer gives at `now` (seconds): a
    /// token that has not expired gets its own subject and claims, anything
    /// else `InvalidToken`.
    pub fn identity_from_claims(decoded: Option<(String, u64, u64, String)>, now: u64) -> (r: Result<AuthenticatedRequest, AuthError>)
        ensures
            claims_outcome(
                match decoded {
                    Some(t) => Some((t.0@, t.1, t.2, t.3@)),
                    None => None,
                },
                now,
                r,
            ),
    {
        match decoded {
            Some((sub, exp, iat, iss)) => {
                if exp as u128 + EXPIRY_LEEWAY_SECONDS as u128 >= now as u128 {
                    let subject = sub.clone();
                    let c = Claims { sub, exp, iat, iss };
                    Ok(AuthenticatedRequest { request_id: new_request_id(), authenticated_by: AuthMethod::JwtToken(c), subject })
                } else {
                    Err(AuthError::InvalidToken(owned("token expired")))
                }
            },
            None => Err(AuthError::InvalidToken(owned("invalid token"))),
        }
    }

    /// Validates a signed bearer token against the configured secret at
    /// `now` (seconds since the epoch).
    pub fn authenticate_jwt(&self, token: &str, now: u64) -> (r: Result<AuthenticatedRequest, AuthError>)
        ensures
            self.token_outcome(token@, now, r),
    {
        if !self.config.enable_auth {
            return Ok(Self::local_identity("local"));
        }
        match &self.config.jwt_secret {
            None => Err(AuthError::JwtSecretMissing),
            Some(secret) => Self::identity_from_claims(decode_token(token, secret.as_str()), now),
        }
    }

    /// Reads an `Authorization` header at `now` (seconds): a bearer token that looks like a
    /// signed token is validated as one, any other bearer value as an API key.
    pub fn parse_authorization_header(&self, auth_header: &str, now: u64) -> (r: Result<AuthenticatedRequest, AuthError>)
        ensures
            match bearer_token(auth_header@) {
                None => r == Err::<AuthenticatedRequest, AuthError>(AuthError::InvalidHeaderFormat),
                Some(t) => if looks_like_jwt(t) {
                    self.token_outcome(t, now, r)
                } else {
                    self.api_key_outcome(t, r)
                },
            },
    {
        proof {
            reveal_strlit("Bearer ");
        }
        if starts_with(auth_header, "Bearer ") {
            let token = suffix_from(auth_header, 7);
            if starts_with(token.as_str(), "eyJ") {
                self.authenticate_jwt(token.as_str(), now)
            } else {
                self.authenticate_api_key(token.as_str())
            }
        } else {
            Err(AuthError::InvalidHeaderFormat)
        }
    }

    /// The identity of the trusted local channel.
    pub fn bypass_for_stdio(&self) -> (r: AuthenticatedRequest)
        ensures
            r.authenticated_by == AuthMethod::Bypass,
            r.subject@ == "stdio"@,
    {
        Self::local_identity("stdio")
    }

    pub fn is_auth_enabled(&self) -> (r: bool)
        ensures
            r == self.config().enable_auth,
    {
        self.config.enable_auth
    }
}

} // verus!
