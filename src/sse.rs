//! Streaming (SSE) connections: how one is authenticated, when it expires,
//! when it is told to refresh, and the events it is sent.

use vstd::prelude::*;
use crate::auth::{
    bearer_token, jwt_claims_of, key_in, looks_like_jwt, new_request_id, not_expired, uuid_text, AuthError,
    AuthenticatedRequest, Authenticator,
};
use crate::json::{field_of, member, put_field, JsonValue};
use crate::security::SecurityProvider;
use crate::text::{chars_of, owned, same_text};

verus! {

/// The status a rejected streaming connection is answered with.
pub const UNAUTHORIZED: u16 = 401;

/// Idle timeout of a connection that names none, in seconds.
pub const DEFAULT_TIMEOUT_SECONDS: u64 = 3600;

/// A refresh notification is due when this many seconds or fewer are left.
pub const REFRESH_WINDOW_SECONDS: u64 = 300;

/// The query parameters a streaming connection may carry.
#[derive(Debug, Clone, PartialEq)]
pub struct SseAuthParams {
    pub client_id: Option<String>,
    pub token: Option<String>,
    pub api_key: Option<String>,
    pub refresh_token: Option<String>,
    pub timeout: Option<u64>,
}

/// One event sent on a stream: its name, its JSON data and an optional id.
#[derive(Debug, PartialEq)]
pub struct SseEvent {
    pub id: Option<String>,
    pub event: String,
    pub data: JsonValue,
}

/// A live streaming connection. Times are milliseconds since the Unix epoch.
#[derive(Debug, Clone)]
pub struct SseConnection {
    pub client_id: String,
    pub authenticated_request: AuthenticatedRequest,
    pub connection_time: u64,
    pub last_activity: u64,
    pub timeout_seconds: u64,
    pub supports_refresh: bool,
    pub refresh_token: Option<String>,
    pub refresh_notified: bool,
}

/// Whether a connection last active at `last` with the given timeout has
/// expired at `now` (all in milliseconds but the timeout): more than the
/// timeout has passed, or the clock went back.
pub open spec fn expired_at(last: u64, timeout_seconds: u64, now: u64) -> bool {
    now < last || now - last > timeout_seconds * 1000
}

/// Whole seconds left before expiry, if the timeout has not yet been reached.
pub open spec fn seconds_left(last: u64, timeout_seconds: u64, now: u64) -> Option<u64> {
    if now < last {
        None
    } else {
        let elapsed = (now - last) / 1000;
        if elapsed < timeout_seconds {
            Some((timeout_seconds - elapsed) as u64)
        } else {
            None
        }
    }
}

impl SseConnection {
    /// A connection opened at `now`, with the default timeout unless one is
    /// given; it supports refresh exactly when it has a refresh token.
    pub fn new(
        client_id: String,
        authenticated_request: AuthenticatedRequest,
        timeout_seconds: Option<u64>,
        refresh_token: Option<String>,
        now: u64,
    ) -> (r: SseConnection)
        ensures
            r.client_id == client_id,
            r.authenticated_request == authenticated_request,
            r.connection_time == now,
            r.last_activity == now,
            r.timeout_seconds == match timeout_seconds {
                Some(t) => t,
                None => DEFAULT_TIMEOUT_SECONDS,
            },
            r.supports_refresh == refresh_token.is_some(),
            r.refresh_token == refresh_token,
            !r.refresh_notified,
    {
        let timeout = match timeout_seconds {
            Some(t) => t,
            None => DEFAULT_TIMEOUT_SECONDS,
        };
        let supports_refresh = refresh_token.is_some();
        SseConnection {
            client_id,
            authenticated_request,
            connection_time: now,
            last_activity: now,
            timeout_seconds: timeout,
            supports_refresh,
            refresh_token,
            refresh_notified: false,
        }
    }

    /// Whether more than the timeout has passed since the last activity.
    pub fn is_expired(&self, now: u64) -> (r: bool)
        ensures
            r == expired_at(self.last_activity, self.timeout_seconds, now),
    {
        if now < self.last_activity {
            return true;
        }
        let elapsed = now - self.last_activity;
        elapsed / 1000 >= self.timeout_seconds && (elapsed / 1000 > self.timeout_seconds || elapsed % 1000 > 0)
    }

    /// Records activity at `now`.
    pub fn update_activity(&mut self, now: u64)
        ensures
            *final(self) == (SseConnection { last_activity: now, ..*old(self) }),
    {
        self.last_activity = now;
    }

    /// Whole seconds left before the timeout is reached.
    pub fn time_until_expiry(&self, now: u64) -> (r: Option<u64>)
        ensures
            r == seconds_left(self.last_activity, self.timeout_seconds, now),
    {
        if now < self.last_activity {
            return None;
        }
        let elapsed = (now - self.last_activity) / 1000;
        if elapsed < self.timeout_seconds {
            Some(self.timeout_seconds - elapsed)
        } else {
            None
        }
    }
}

/// A connection with a one-second timeout and no activity has expired once
/// more than a second has passed, and has not while less than a second has.
pub proof fn lemma_one_second_expiry(last: u64, now: u64)
    ensures
        now >= last && now - last > 1000 ==> expired_at(last, 1, now),
        now >= last && now - last < 1000 ==> !expired_at(last, 1, now),
{
}

/// The value of the last query parameter named `key`, if any.
pub open spec fn query_value(query: Seq<(String, String)>, key: Seq<char>) -> Option<String>
    decreases query.len(),
{
    if query.len() == 0 {
        None
    } else if query.last().0@ == key {
        Some(query.last().1)
    } else {
        query_value(query.drop_last(), key)
    }
}

/// The value of a decimal digit.
pub open spec fn digit_value(c: char) -> int {
    c as int - '0' as int
}

pub open spec fn is_digit(c: char) -> bool {
    '0' <= c <= '9'
}

/// The number that a run of decimal digits writes.
pub open spec fn digits_value(s: Seq<char>) -> int
    decreases s.len(),
{
    if s.len() == 0 {
        0
    } else {
        digits_value(s.drop_last()) * 10 + digit_value(s.last())
    }
}

/// The text after an optional leading `+`.
pub open spec fn unsigned_digits(s: Seq<char>) -> Seq<char> {
    if s.len() > 0 && s[0] == '+' {
        s.drop_first()
    } else {
        s
    }
}

/// An unsigned integer as `str::parse::<u64>` reads it: an optional `+`,
/// then one or more decimal digits, of a value that fits.
pub open spec fn parsed_u64(s: Seq<char>) -> Option<u64> {
    let d = unsigned_digits(s);
    if d.len() > 0 && (forall|i: int| 0 <= i < d.len() ==> is_digit(#[trigger] d[i])) && digits_value(d) <= u64::MAX {
        Some(digits_value(d) as u64)
    } else {
        None
    }
}

proof fn lemma_digits_nonneg(s: Seq<char>)
    requires
        forall|i: int| 0 <= i < s.len() ==> is_digit(#[trigger] s[i]),
    ensures
        digits_value(s) >= 0,
        forall|k: int| 0 <= k <= s.len() ==> digits_value(#[trigger] s.take(k)) <= digits_value(s),
    decreases s.len(),
{
    if s.len() > 0 {
        let p = s.drop_last();
        assert forall|i: int| 0 <= i < p.len() implies is_digit(#[trigger] p[i]) by {
            assert(p[i] == s[i]);
        }
        lemma_digits_nonneg(p);
        assert forall|k: int| 0 <= k <= s.len() implies digits_value(#[trigger] s.take(k)) <= digits_value(s) by {
            if k < s.len() {
                assert(s.take(k) =~= p.take(k));
            } else {
                assert(s.take(k) =~= s);
            }
        }
    }
}

/// Reads an unsigned integer as `str::parse::<u64>` does.
pub fn parse_u64(text: &str) -> (r: Option<u64>)
    ensures
        r == parsed_u64(text@),
{
    let cs = chars_of(text);
    let start: usize = if cs.len() > 0 && cs[0] == '+' { 1 } else { 0 };
    let ghost d = unsigned_digits(cs@);
    proof {
        assert(d =~= cs@.skip(start as int));
    }
    if start >= cs.len() {
        return None;
    }
    let mut value: u64 = 0;
    let mut i: usize = start;
    while i < cs.len()
        invariant
            cs@ == text@,
            start <= i <= cs@.len(),
            d == cs@.skip(start as int),
            d == unsigned_digits(text@),
            forall|k: int| start <= k < i ==> is_digit(#[trigger] cs@[k]),
            value == digits_value(cs@.subrange(start as int, i as int)),
        decreases cs.len() - i,
    {
        let c = cs[i];
        if !('0' <= c && c <= '9') {
            assert(d[i - start] == cs@[i as int]);
            assert(!is_digit(d[i - start]));
            assert(!(forall|k: int| 0 <= k < d.len() ==> is_digit(#[trigger] d[k])));
            assert(parsed_u64(text@) is None);
            return None;
        }
        let dv = (c as u32 - '0' as u32) as u64;
        proof {
            assert(cs@.subrange(start as int, i + 1).drop_last() =~= cs@.subrange(start as int, i as int));
        }
        if value > (u64::MAX - dv) / 10 {
            proof {
                let m = i + 1 - start;
                assert(d.take(m) =~= cs@.subrange(start as int, i + 1));
                assert(d.take(m).drop_last() =~= cs@.subrange(start as int, i as int));
                assert(d.take(m).last() == c);
                let pv = digits_value(d.take(m));
                assert(pv == value * 10 + dv);
                assert(pv > u64::MAX) by (nonlinear_arith)
                    requires
                        pv == value * 10 + dv,
                        value > (u64::MAX - dv) / 10,
                        dv <= 9,
                ;
                if forall|k: int| 0 <= k < d.len() ==> is_digit(#[trigger] d[k]) {
                    lemma_digits_nonneg(d);
                    assert(digits_value(d.take(m)) <= digits_value(d));
                    assert(digits_value(d) > u64::MAX);
                }
                assert(parsed_u64(text@) is None);
            }
            return None;
        }
        value = value * 10 + dv;
        i = i + 1;
    }
    proof {
        assert(cs@.subrange(start as int, i as int) =~= d);
        assert forall|k: int| 0 <= k < d.len() implies is_digit(#[trigger] d[k]) by {
            assert(d[k] == cs@[start + k]);
        }
    }
    Some(value)
}

fn last_query_value(query: &Vec<(String, String)>, key: &str) -> (r: Option<String>)
    ensures
        r == query_value(query@, key@),
{
    let mut i: usize = query.len();
    proof {
        assert(query@.take(i as int) =~= query@);
    }
    while i > 0
        invariant
            i <= query@.len(),
            query_value(query@, key@) == query_value(query@.take(i as int), key@),
        decreases i,
    {
        proof {
            assert(query@.take(i as int).drop_last() =~= query@.take(i - 1));
        }
        if same_text(query[i - 1].0.as_str(), key) {
            return Some(query[i - 1].1.clone());
        }
        i = i - 1;
    }
    None
}

/// The parameters that a query carries.
pub open spec fn sse_params_of(query: Seq<(String, String)>) -> SseAuthParams {
    SseAuthParams {
        client_id: query_value(query, "client_id"@),
        token: query_value(query, "token"@),
        api_key: query_value(query, "api_key"@),
        refresh_token: query_value(query, "refresh_token"@),
        timeout: match query_value(query, "timeout"@) {
            Some(t) => parsed_u64(t@),
            None => None,
        },
    }
}

/// The characters of an optional header value.
pub open spec fn header_of(authorization: Option<&str>) -> Option<Seq<char>> {
    match authorization {
        Some(h) => Some(h@),
        None => None,
    }
}

/// Whether a bearer token authenticates at `now` (seconds).
pub open spec fn token_accepted(auth: Authenticator, token: Seq<char>, now: u64) -> bool {
    !auth.config().enable_auth || match auth.config().jwt_secret {
        None => false,
        Some(secret) => match jwt_claims_of(token, secret@) {
            Some(t) => not_expired(t.1, now),
            None => false,
        },
    }
}

/// Whether the credentials of an `Authorization` header authenticate.
pub open spec fn header_accepted(auth: Authenticator, header: Seq<char>, now: u64) -> bool {
    match bearer_token(header) {
        None => false,
        Some(t) => if looks_like_jwt(t) {
            token_accepted(auth, t, now)
        } else {
            !auth.config().enable_auth || key_in(auth.config().api_keys@, t)
        },
    }
}

/// What the credentials of the `Authorization` header lead to at `now` (seconds).
pub open spec fn header_outcome(
    auth: Authenticator,
    authorization: Option<Seq<char>>,
    now: u64,
    r: Result<AuthenticatedRequest, AuthError>,
) -> bool {
    match authorization {
        None => r == Err::<AuthenticatedRequest, AuthError>(AuthError::MissingCredentials),
        Some(h) => match bearer_token(h) {
            None => r == Err::<AuthenticatedRequest, AuthError>(AuthError::InvalidHeaderFormat),
            Some(t) => if looks_like_jwt(t) {
                auth.token_outcome(t, now, r)
            } else {
                auth.api_key_outcome(t, r)
            },
        },
    }
}

/// What the credentials of the query lead to at `now` (seconds): the token
/// if it authenticates, else the API key if there is one, else the token's
/// failure or, without either, missing credentials.
pub open spec fn query_outcome(
    auth: Authenticator,
    params: SseAuthParams,
    now: u64,
    r: Result<AuthenticatedRequest, AuthError>,
) -> bool {
    match (params.token, params.api_key) {
        (Some(t), _) if token_accepted(auth, t@, now) => auth.token_outcome(t@, now, r),
        (_, Some(k)) => auth.api_key_outcome(k@, r),
        (Some(t), None) => auth.token_outcome(t@, now, r),
        (None, None) => r == Err::<AuthenticatedRequest, AuthError>(AuthError::MissingCredentials),
    }
}

/// The identity a streaming connection gets: the header's if the header
/// authenticates, else the query's if it does, else none.
pub open spec fn sse_identity(
    auth: Authenticator,
    authorization: Option<Seq<char>>,
    params: SseAuthParams,
    now: u64,
    r: Result<AuthenticatedRequest, AuthError>,
) -> bool {
    exists|h: Result<AuthenticatedRequest, AuthError>| #[trigger] header_outcome(auth, authorization, now, h) && match h {
        Ok(id) => r == Ok::<AuthenticatedRequest, AuthError>(id),
        Err(_) => exists|q: Result<AuthenticatedRequest, AuthError>| #[trigger] query_outcome(auth, params, now, q) && r == q,
    }
}

/// The header's credentials win: a header that authenticates gives the
/// connection its identity, whatever the query holds.
pub proof fn lemma_header_wins(
    auth: Authenticator,
    header: Seq<char>,
    params: SseAuthParams,
    now: u64,
    r: Result<AuthenticatedRequest, AuthError>,
)
    requires
        auth.config().enable_auth,
        header_accepted(auth, header, now),
        sse_identity(auth, Some(header), params, now, r),
    ensures
        header_outcome(auth, Some(header), now, r),
        r is Ok,
{
    let h = choose|h: Result<AuthenticatedRequest, AuthError>| #[trigger] header_outcome(auth, Some(header), now, h) && match h {
        Ok(id) => r == Ok::<AuthenticatedRequest, AuthError>(id),
        Err(_) => exists|q: Result<AuthenticatedRequest, AuthError>| #[trigger] query_outcome(auth, params, now, q) && r == q,
    };
    assert(h is Ok);
}

/// Without usable header credentials, query credentials that authenticate
/// (a token, or else an API key) give the connection its identity.
pub proof fn lemma_query_succeeds(
    auth: Authenticator,
    authorization: Option<Seq<char>>,
    params: SseAuthParams,
    now: u64,
    r: Result<AuthenticatedRequest, AuthError>,
)
    requires
        auth.config().enable_auth,
        !(authorization matches Some(h) && header_accepted(auth, h, now)),
        (params.token matches Some(t) && token_accepted(auth, t@, now)) || (params.api_key matches Some(k) && key_in(
            auth.config().api_keys@,
            k@,
        )),
        sse_identity(auth, authorization, params, now, r),
    ensures
        query_outcome(auth, params, now, r),
        r is Ok,
{
    let h = choose|h: Result<AuthenticatedRequest, AuthError>| #[trigger] header_outcome(auth, authorization, now, h) && match h {
        Ok(id) => r == Ok::<AuthenticatedRequest, AuthError>(id),
        Err(_) => exists|q: Result<AuthenticatedRequest, AuthError>| #[trigger] query_outcome(auth, params, now, q) && r == q,
    };
    assert(h is Err);
}

/// What the periodic liveness check decides.
#[derive(Debug, PartialEq)]
pub enum LivenessCheck {
    /// The connection lives on; send the refresh notification if there is one.
    Alive(Option<SseEvent>),
    /// The connection has expired: send this event and close the stream.
    Expired(SseEvent),
}

pub struct SseAuthenticator {
    security_provider: SecurityProvider,
}

impl SseAuthenticator {
    pub closed spec fn authenticator(&self) -> Authenticator {
        self.security_provider.spec_authenticator()
    }

    pub fn new(security_provider: SecurityProvider) -> (r: SseAuthenticator)
        ensures
            r.authenticator() == security_provider.spec_authenticator(),
    {
        SseAuthenticator { security_provider }
    }

    /// The query parameters of a streaming connection; when a name repeats,
    /// the last value counts, and a timeout that is no unsigned integer is
    /// ignored.
    pub fn extract_sse_params(&self, query: &Vec<(String, String)>) -> (r: SseAuthParams)
        ensures
            r == sse_params_of(query@),
    {
        let timeout = match last_query_value(query, "timeout") {
            Some(t) => parse_u64(t.as_str()),
            None => None,
        };
        SseAuthParams {
            client_id: last_query_value(query, "client_id"),
            token: last_query_value(query, "token"),
            api_key: last_query_value(query, "api_key"),
            refresh_token: last_query_value(query, "refresh_token"),
            timeout,
        }
    }

    fn try_header_auth(&self, authorization: Option<&str>, now_s: u64) -> (r: Result<AuthenticatedRequest, AuthError>)
        ensures
            header_outcome(self.authenticator(), header_of(authorization), now_s, r),
    {
        match authorization {
            None => Err(AuthError::MissingCredentials),
            Some(h) => self.security_provider.authenticator().parse_authorization_header(h, now_s),
        }
    }

    fn try_query_auth(&self, params: &SseAuthParams, now_s: u64) -> (r: Result<AuthenticatedRequest, AuthError>)
        ensures
            query_outcome(self.authenticator(), *params, now_s, r),
    {
        let auth = self.security_provider.authenticator();
        match &params.token {
            Some(token) => {
                let tr = auth.authenticate_jwt(token.as_str(), now_s);
                if tr.is_ok() {
                    return tr;
                }
                match &params.api_key {
                    Some(k) => auth.authenticate_api_key(k.as_str()),
                    None => tr,
                }
            },
            None => match &params.api_key {
                Some(k) => auth.authenticate_api_key(k.as_str()),
                None => Err(AuthError::MissingCredentials),
            },
        }
    }

    /// Authenticates a new streaming connection at `now` (milliseconds;
    /// tokens are judged at `now / 1000` seconds): the header first, then
    /// the query's token, then its API key; the first that succeeds counts. A connection that none of
    /// them authenticates is refused with 401 before any stream opens.
    pub fn authenticate_sse_connection(
        &self,
        authorization: Option<&str>,
        query: &Vec<(String, String)>,
        now: u64,
    ) -> (r: Result<SseConnection, u16>)
        ensures
            r matches Ok(c) ==> sse_identity(
                self.authenticator(),
                header_of(authorization),
                sse_params_of(query@),
                (now / 1000) as u64,
                Ok::<AuthenticatedRequest, AuthError>(c.authenticated_request),
            ),
            r matches Ok(c) ==> match sse_params_of(query@).client_id {
                Some(id) => c.client_id == id,
                None => c.client_id@.len() == 36,
            },
            r matches Ok(c) ==> c.connection_time == now && c.last_activity == now && !c.refresh_notified,
            r matches Ok(c) ==> c.timeout_seconds == match sse_params_of(query@).timeout {
                Some(t) => t,
                None => DEFAULT_TIMEOUT_SECONDS,
            },
            r matches Ok(c) ==> c.refresh_token == sse_params_of(query@).refresh_token
                && c.supports_refresh == sse_params_of(query@).refresh_token.is_some(),
            r matches Err(code) ==> code == UNAUTHORIZED,
            r is Err ==> exists|e: AuthError| #[trigger] sse_identity(
                self.authenticator(),
                header_of(authorization),
                sse_params_of(query@),
                (now / 1000) as u64,
                Err::<AuthenticatedRequest, AuthError>(e),
            ),
    {
        let params = self.extract_sse_params(query);
        let ghost header = header_of(authorization);
        let now_s = now / 1000;
        let h = self.try_header_auth(authorization, now_s);
        let outcome = match h {
            Ok(id) => Ok(id),
            Err(_) => {
                let q = self.try_query_auth(&params, now_s);
                proof {
                    assert(query_outcome(self.authenticator(), params, now_s, q));
                }
                q
            },
        };
        proof {
            assert(header_outcome(self.authenticator(), header, now_s, h));
            assert(sse_identity(self.authenticator(), header, params, now_s, outcome));
        }
        proof {
            assert(params == sse_params_of(query@));
        }
        match outcome {
            Ok(identity) => {
                let client_id = match params.client_id {
                    Some(id) => id,
                    None => uuid_text(&new_request_id()),
                };
                Ok(SseConnection::new(client_id, identity, params.timeout, params.refresh_token, now))
            },
            Err(e) => {
                proof {
                    assert(sse_identity(self.authenticator(), header, params, now_s, Err::<AuthenticatedRequest, AuthError>(e)));
                }
                Err(UNAUTHORIZED)
            },
        }
    }

    /// The refresh notification of a connection that supports refresh and
    /// has at most five minutes left.
    pub fn create_refresh_event(&self, connection: &SseConnection, now: u64) -> (r: Option<SseEvent>)
        ensures
            r is Some <==> connection.supports_refresh && (seconds_left(
                connection.last_activity,
                connection.timeout_seconds,
                now,
            ) matches Some(t) && t <= REFRESH_WINDOW_SECONDS),
            r matches Some(e) ==> e.event@ == "token_refresh"@ && e.id is None,
            r matches Some(e) ==> member(e.data, "client_id"@) == Some(JsonValue::Str(connection.client_id)),
            r matches Some(e) ==> (member(e.data, "type"@) matches Some(JsonValue::Str(t)) && t@ == "token_refresh_required"@),
            r matches Some(e) ==> member(e.data, "refresh_token"@) == Some(
                match connection.refresh_token {
                    Some(t) => JsonValue::Str(t),
                    None => JsonValue::Null,
                },
            ),
            r matches Some(e) ==> member(e.data, "expires_in_seconds"@) == Some(
                JsonValue::UInt(seconds_left(connection.last_activity, connection.timeout_seconds, now)->0),
            ),
    {
        proof {
            reveal_strlit("type");
            reveal_strlit("client_id");
            reveal_strlit("expires_in_seconds");
            assert("type"@[0] != "client_id"@[0]);
            assert("type"@[0] != "expires_in_seconds"@[0]);
            assert("client_id"@[0] != "expires_in_seconds"@[0]);
            reveal_strlit("refresh_token");
            assert("refresh_token"@[0] != "type"@[0]);
            assert("refresh_token"@[0] != "client_id"@[0]);
            assert("refresh_token"@[0] != "expires_in_seconds"@[0]);
            reveal_with_fuel(field_of, 5);
        }
        if !connection.supports_refresh {
            return None;
        }
        match connection.time_until_expiry(now) {
            Some(left) => if left <= REFRESH_WINDOW_SECONDS {
                let mut instructions: Vec<(String, JsonValue)> = Vec::new();
                put_field(&mut instructions, "action", JsonValue::Str(owned("refresh_connection")));
                put_field(&mut instructions, "method", JsonValue::Str(owned("reconnect_with_new_token")));
                put_field(
                    &mut instructions,
                    "url_pattern",
                    JsonValue::Str(owned("/sse?token=NEW_TOKEN&client_id={}")),
                );
                let mut data: Vec<(String, JsonValue)> = Vec::new();
                put_field(&mut data, "type", JsonValue::Str(owned("token_refresh_required")));
                put_field(&mut data, "client_id", JsonValue::Str(connection.client_id.clone()));
                put_field(&mut data, "expires_in_seconds", JsonValue::UInt(left));
                let refresh = match &connection.refresh_token {
                    Some(t) => JsonValue::Str(t.clone()),
                    None => JsonValue::Null,
                };
                put_field(&mut data, "refresh_token", refresh);
                put_field(&mut data, "instructions", JsonValue::Object(instructions));
                Some(SseEvent { id: None, event: owned("token_refresh"), data: JsonValue::Object(data) })
            } else {
                None
            },
            None => None,
        }
    }

    /// The event that tells a client its credentials no longer hold.
    pub fn create_auth_error_event(&self, error: &str, client_id: &str) -> (r: SseEvent)
        ensures
            r.event@ == "auth_error"@,
            r.id is None,
            member(r.data, "client_id"@) matches Some(JsonValue::Str(c)) && c@ == client_id@,
            member(r.data, "error"@) matches Some(JsonValue::Str(e)) && e@ == error@,
            member(r.data, "type"@) matches Some(JsonValue::Str(t)) && t@ == "authentication_error"@,
    {
        proof {
            reveal_strlit("type");
            reveal_strlit("client_id");
            reveal_strlit("error");
            assert("type"@[0] != "client_id"@[0]);
            assert("type"@[0] != "error"@[0]);
            assert("client_id"@[0] != "error"@[0]);
            reveal_with_fuel(field_of, 4);
        }
        let mut methods: Vec<JsonValue> = Vec::new();
        methods.push(JsonValue::Str(owned("Authorization header: Bearer <token>")));
        methods.push(JsonValue::Str(owned("Query parameter: ?token=<jwt_token>")));
        methods.push(JsonValue::Str(owned("Query parameter: ?api_key=<api_key>")));
        let mut instructions: Vec<(String, JsonValue)> = Vec::new();
        put_field(&mut instructions, "action", JsonValue::Str(owned("reconnect_with_valid_credentials")));
        put_field(&mut instructions, "supported_methods", JsonValue::Array(methods));
        let mut data: Vec<(String, JsonValue)> = Vec::new();
        put_field(&mut data, "type", JsonValue::Str(owned("authentication_error")));
        put_field(&mut data, "client_id", JsonValue::Str(owned(client_id)));
        put_field(&mut data, "error", JsonValue::Str(owned(error)));
        put_field(&mut data, "reconnect_required", JsonValue::Bool(true));
        put_field(&mut data, "instructions", JsonValue::Object(instructions));
        SseEvent { id: None, event: owned("auth_error"), data: JsonValue::Object(data) }
    }

    /// The first event of a stream, describing the connection.
    pub fn create_connection_event(&self, connection: &SseConnection, now: u64) -> (r: SseEvent)
        ensures
            r.event@ == "connected"@,
            r.id is None,
            member(r.data, "client_id"@) == Some(JsonValue::Str(connection.client_id)),
            member(r.data, "timeout_seconds"@) == Some(JsonValue::UInt(connection.timeout_seconds)),
            member(r.data, "connection_time"@) == Some(JsonValue::UInt(connection.connection_time / 1000)),
            member(r.data, "supports_refresh"@) == Some(JsonValue::Bool(connection.supports_refresh)),
            member(r.data, "expires_in"@) == Some(
                match seconds_left(connection.last_activity, connection.timeout_seconds, now) {
                    Some(t) => JsonValue::UInt(t),
                    None => JsonValue::Null,
                },
            ),
    {
        proof {
            reveal_strlit("type");
            reveal_strlit("client_id");
            reveal_strlit("authenticated");
            reveal_strlit("connection_time");
            reveal_strlit("timeout_seconds");
            assert("type"@[0] != "client_id"@[0]);
            assert("type"@[1] != "timeout_seconds"@[1]);
            assert("client_id"@[0] != "timeout_seconds"@[0]);
            assert("authenticated"@[0] != "timeout_seconds"@[0]);
            assert("connection_time"@[0] != "timeout_seconds"@[0]);
            reveal_strlit("supports_refresh");
            reveal_strlit("expires_in");
            assert("connection_time"@[0] != "type"@[0]);
            assert("connection_time"@[1] != "client_id"@[1]);
            assert("connection_time"@[0] != "authenticated"@[0]);
            assert("supports_refresh"@[0] != "type"@[0]);
            assert("supports_refresh"@[0] != "client_id"@[0]);
            assert("supports_refresh"@[0] != "authenticated"@[0]);
            assert("supports_refresh"@[0] != "connection_time"@[0]);
            assert("supports_refresh"@[0] != "timeout_seconds"@[0]);
            assert("expires_in"@[0] != "type"@[0]);
            assert("expires_in"@[0] != "client_id"@[0]);
            assert("expires_in"@[0] != "authenticated"@[0]);
            assert("expires_in"@[0] != "connection_time"@[0]);
            assert("expires_in"@[0] != "timeout_seconds"@[0]);
            assert("expires_in"@[0] != "supports_refresh"@[0]);
            reveal_with_fuel(field_of, 8);
        }
        let mut data: Vec<(String, JsonValue)> = Vec::new();
        put_field(&mut data, "type", JsonValue::Str(owned("connection_established")));
        put_field(&mut data, "client_id", JsonValue::Str(connection.client_id.clone()));
        put_field(&mut data, "authenticated", JsonValue::Bool(true));
        put_field(&mut data, "connection_time", JsonValue::UInt(connection.connection_time / 1000));
        put_field(&mut data, "timeout_seconds", JsonValue::UInt(connection.timeout_seconds));
        put_field(&mut data, "supports_refresh", JsonValue::Bool(connection.supports_refresh));
        let expires = match connection.time_until_expiry(now) {
            Some(t) => JsonValue::UInt(t),
            None => JsonValue::Null,
        };
        put_field(&mut data, "expires_in", expires);
        SseEvent { id: None, event: owned("connected"), data: JsonValue::Object(data) }
    }

    /// The periodic check of a live connection: an expired one gets the
    /// terminal error event; otherwise the refresh notification is sent once,
    /// when it is due.
    pub fn validate_connection(&self, connection: &mut SseConnection, now: u64) -> (r: LivenessCheck)
        ensures
            expired_at(old(connection).last_activity, old(connection).timeout_seconds, now) ==> {
                &&& r matches LivenessCheck::Expired(e) && e.event@ == "auth_error"@
                    && (member(e.data, "type"@) matches Some(JsonValue::Str(t)) && t@ == "authentication_error"@)
                    && (member(e.data, "client_id"@) matches Some(JsonValue::Str(c)) && c@ == old(connection).client_id@)
                    && (member(e.data, "error"@) matches Some(JsonValue::Str(m))
                    && m@ == "Connection expired. Please reconnect with valid credentials."@)
                &&& *final(connection) == *old(connection)
            },
            !expired_at(old(connection).last_activity, old(connection).timeout_seconds, now) ==> {
                let due = !old(connection).refresh_notified && old(connection).supports_refresh
                    && (seconds_left(old(connection).last_activity, old(connection).timeout_seconds, now) matches Some(t)
                    && t <= REFRESH_WINDOW_SECONDS);
                &&& r matches LivenessCheck::Alive(ev)
                &&& (ev is Some <==> due)
                &&& (ev matches Some(e) ==> e.event@ == "token_refresh"@)
                &&& *final(connection) == (SseConnection { refresh_notified: old(connection).refresh_notified || due, ..*old(connection) })
            },
    {
        if connection.is_expired(now) {
            return LivenessCheck::Expired(
                self.create_auth_error_event(
                    "Connection expired. Please reconnect with valid credentials.",
                    connection.client_id.as_str(),
                ),
            );
        }
        if connection.refresh_notified {
            return LivenessCheck::Alive(None);
        }
        match self.create_refresh_event(connection, now) {
            Some(e) => {
                connection.refresh_notified = true;
                LivenessCheck::Alive(Some(e))
            },
            None => LivenessCheck::Alive(None),
        }
    }
}

fn text(s: &str) -> (r: JsonValue)
    ensures
        r matches JsonValue::Str(t) && t@ == s@,
{
    JsonValue::Str(owned(s))
}

/// An object describing one credential method, whose first member is its name.
pub open spec fn method_named(r: JsonValue, name: Seq<char>) -> bool {
    match r {
        JsonValue::Object(f) => f@.len() == 4 && f@[0].0@ == "name"@ && match f@[0].1 {
            JsonValue::Str(n) => n@ == name,
            _ => false,
        },
        _ => false,
    }
}

/// The shape of the instructions: one `sse_authentication` member whose
/// second member lists three methods.
pub open spec fn instructions_shape(r: JsonValue) -> bool {
    match r {
        JsonValue::Object(f) => f@.len() == 1 && f@[0].0@ == "sse_authentication"@ && match f@[0].1 {
            JsonValue::Object(g) => g@.len() == 6 && g@[1].0@ == "methods"@ && match g@[1].1 {
                JsonValue::Array(m) => m@.len() == 3,
                _ => false,
            },
            _ => false,
        },
        _ => false,
    }
}

fn method_entry(name: &str, description: &str, example: &str, support: &str) -> (r: JsonValue)
    ensures
        method_named(r, name@),
{
    let mut f: Vec<(String, JsonValue)> = Vec::new();
    put_field(&mut f, "name", text(name));
    put_field(&mut f, "description", text(description));
    put_field(&mut f, "example", text(example));
    put_field(&mut f, "client_support", text(support));
    JsonValue::Object(f)
}

/// The document that tells streaming clients how to authenticate: the three
/// credential methods in order of preference, the optional parameters,
/// refresh notifications and error handling.
pub fn create_client_auth_instructions() -> (r: JsonValue)
    ensures
        instructions_shape(r),
{
    let mut methods: Vec<JsonValue> = Vec::new();
    methods.push(method_entry(
        "Authorization Header",
        "Standard HTTP Authorization header (preferred for browsers)",
        "Authorization: Bearer <jwt_token_or_api_key>",
        "Modern browsers, curl, most HTTP clients",
    ));
    methods.push(method_entry(
        "Query Parameter Token",
        "JWT token via query parameter (for EventSource compatibility)",
        "/sse?token=<jwt_token>&client_id=<optional_id>",
        "EventSource, older browsers, simple clients",
    ));
    methods.push(method_entry(
        "Query Parameter API Key",
        "API key via query parameter",
        "/sse?api_key=<api_key>&client_id=<optional_id>",
        "All clients",
    ));
    let mut optional: Vec<(String, JsonValue)> = Vec::new();
    put_field(&mut optional, "client_id", text("Custom client identifier (auto-generated if not provided)"));
    put_field(&mut optional, "timeout", text("Connection timeout in seconds (default: 3600)"));
    put_field(&mut optional, "refresh_token", text("Token for connection refresh notifications"));
    let mut refresh: Vec<(String, JsonValue)> = Vec::new();
    put_field(&mut refresh, "description", text("Long-lived connections receive refresh notifications"));
    put_field(&mut refresh, "event_type", text("token_refresh"));
    put_field(&mut refresh, "notification_timing", text("5 minutes before expiration"));
    put_field(&mut refresh, "recommended_action", text("Reconnect with new credentials"));
    let mut errors: Vec<(String, JsonValue)> = Vec::new();
    put_field(&mut errors, "auth_failures", text("auth_error events with reconnection instructions"));
    put_field(&mut errors, "token_expiry", text("Automatic connection termination with error event"));
    put_field(&mut errors, "network_issues", text("Standard EventSource reconnection logic applies"));
    let mut body: Vec<(String, JsonValue)> = Vec::new();
    put_field(
        &mut body,
        "description",
        text("SSE connections support multiple authentication methods for better client compatibility"),
    );
    put_field(&mut body, "methods", JsonValue::Array(methods));
    put_field(&mut body, "optional_parameters", JsonValue::Object(optional));
    put_field(&mut body, "token_refresh", JsonValue::Object(refresh));
    put_field(&mut body, "error_handling", JsonValue::Object(errors));
    put_field(&mut body, "supported_events", JsonValue::Array({
        let mut ev: Vec<JsonValue> = Vec::new();
        ev.push(text("connected"));
        ev.push(text("token_refresh"));
        ev.push(text("auth_error"));
        ev.push(text("response"));
        ev.push(text("disconnected"));
        ev
    }));
    let mut top: Vec<(String, JsonValue)> = Vec::new();
    put_field(&mut top, "sse_authentication", JsonValue::Object(body));
    JsonValue::Object(top)
}

} // verus!
