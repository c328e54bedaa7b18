//! The decisions of the HTTP/SSE transport: which routes need which
//! authentication, what each answer's status is, what a tool call sends to
//! the session handler and what it returns, and which metrics a request
//! updates. The server itself runs around these functions.

use vstd::prelude::*;
use crate::health::HealthStatus;
use crate::json::{find_field, member, JsonValue};
use crate::validation::InputValidator;
use crate::protocol::{message_of, CodecError, McpMessage, ToolsCallParams};
use crate::sanitize::{sanitized_error, RequestSanitizer};
use crate::sse::SseEvent;
use crate::auth::{new_request_id, uuid_text};
use crate::text::{has_prefix, owned, same_text, starts_with, suffix_from};

verus! {

pub const STATUS_OK: u16 = 200;
pub const STATUS_NO_CONTENT: u16 = 204;
pub const STATUS_BAD_REQUEST: u16 = 400;
pub const STATUS_UNAUTHORIZED: u16 = 401;
pub const STATUS_NOT_FOUND: u16 = 404;
pub const STATUS_INTERNAL_ERROR: u16 = 500;
pub const STATUS_UNAVAILABLE: u16 = 503;

/// The body of a tool call's answer.
#[derive(Debug, PartialEq)]
pub struct McpResponse {
    pub success: bool,
    pub result: Option<JsonValue>,
    pub error: Option<String>,
}

/// How a route is authenticated.
#[derive(Debug, Clone, Copy, PartialEq, Eq, Structural)]
pub enum RouteAuth {
    /// No credentials needed.
    Open,
    /// Streaming: header or query credentials.
    Stream,
    /// The `Authorization` header.
    Header,
}

/// `/health` is open, `/sse` takes streaming credentials, every other route
/// the header.
pub fn route_auth(path: &str) -> (r: RouteAuth)
    ensures
        r == if path@ == "/health"@ {
            RouteAuth::Open
        } else if path@ == "/sse"@ {
            RouteAuth::Stream
        } else {
            RouteAuth::Header
        },
{
    if same_text(path, "/health") {
        RouteAuth::Open
    } else if same_text(path, "/sse") {
        RouteAuth::Stream
    } else {
        RouteAuth::Header
    }
}

/// Whether a status counts as an error sample: a client or server error.
pub fn is_error_status(status: u16) -> (r: bool)
    ensures
        r == (400 <= status <= 599),
{
    400 <= status && status <= 599
}

/// The status of the health endpoint: the service answers while degraded.
pub fn health_http_status(status: HealthStatus) -> (r: u16)
    ensures
        r == if status == HealthStatus::Unhealthy { STATUS_UNAVAILABLE } else { STATUS_OK },
{
    if status == HealthStatus::Unhealthy {
        STATUS_UNAVAILABLE
    } else {
        STATUS_OK
    }
}

/// The status of the readiness endpoint.
pub fn readiness_http_status(ready: bool) -> (r: u16)
    ensures
        r == if ready { STATUS_OK } else { STATUS_UNAVAILABLE },
{
    if ready {
        STATUS_OK
    } else {
        STATUS_UNAVAILABLE
    }
}

/// The message a tool call hands to the session handler.
pub fn tool_call_message(tool_name: String, arguments: Option<JsonValue>, id: u64) -> (r: McpMessage)
    ensures
        r == (McpMessage::ToolsCall { id, params: ToolsCallParams { name: tool_name, arguments } }),
{
    McpMessage::ToolsCall { id, params: ToolsCallParams { name: tool_name, arguments } }
}

/// The answer to a tool call or a tool listing, from what the handler gave:
/// a response is passed on with status 200 (success when it carries no
/// error); no reply or a handler failure is a 500.
pub fn response_for_reply(reply: Result<Option<McpMessage>, String>) -> (r: (u16, McpResponse))
    ensures
        match reply {
            Ok(Some(McpMessage::Response { result, error, .. })) => {
                &&& r.0 == STATUS_OK
                &&& r.1.success == error.is_none()
                &&& r.1.result == result
                &&& match error {
                    Some(e) => r.1.error == Some(e.message),
                    None => r.1.error is None,
                }
            },
            Ok(_) => {
                &&& r.0 == STATUS_INTERNAL_ERROR
                &&& !r.1.success
                &&& r.1.result is None
                &&& r.1.error matches Some(m) && m@ == "No response generated"@
            },
            Err(e) => r.0 == STATUS_INTERNAL_ERROR && !r.1.success && r.1.result is None && r.1.error == Some(e),
        },
{
    match reply {
        Ok(Some(McpMessage::Response { result, error, .. })) => {
            let success = error.is_none();
            let message = match error {
                Some(e) => Some(e.message),
                None => None,
            };
            (STATUS_OK, McpResponse { success, result, error: message })
        },
        Ok(_) => (
            STATUS_INTERNAL_ERROR,
            McpResponse { success: false, result: None, error: Some(owned("No response generated")) },
        ),
        Err(e) => (STATUS_INTERNAL_ERROR, McpResponse { success: false, result: None, error: Some(e) }),
    }
}

/// The answer to a request whose input was refused: 400 with the sanitised
/// message, never the details.
pub fn validation_failure(detail: &str) -> (r: (u16, McpResponse))
    ensures
        r.0 == STATUS_BAD_REQUEST,
        !r.1.success,
        r.1.result is None,
        r.1.error matches Some(m) && m@ == sanitized_error(detail@, false),
{
    (
        STATUS_BAD_REQUEST,
        McpResponse {
            success: false,
            result: None,
            error: Some(RequestSanitizer::sanitize_error_message(detail, false)),
        },
    )
}

/// Whether the arguments of a tool call pass validation: an `expression`
/// member that is a string must be an accepted expression, and a `resource`
/// member, whose compact JSON text is `resource_encoded_len` bytes long,
/// an accepted resource.
pub open spec fn arguments_accepted(validator: InputValidator, arguments: Option<JsonValue>, resource_encoded_len: nat) -> bool {
    match arguments {
        Some(a) => {
            &&& match member(a, "expression"@) {
                Some(JsonValue::Str(e)) => validator.expression_accepted(e@),
                _ => true,
            }
            &&& match member(a, "resource"@) {
                Some(res) => validator.resource_accepted(res, resource_encoded_len),
                None => true,
            }
        },
        None => true,
    }
}

/// Validates the arguments of a tool call; a refusal is the 400 answer.
pub fn validate_tool_arguments(
    validator: &InputValidator,
    arguments: &Option<JsonValue>,
    resource_encoded_len: usize,
) -> (r: Option<(u16, McpResponse)>)
    ensures
        r is None <==> arguments_accepted(*validator, *arguments, resource_encoded_len as nat),
        r matches Some(a) ==> a.0 == STATUS_BAD_REQUEST && !a.1.success && a.1.result is None,
        r matches Some(a) ==> (a.1.error matches Some(m) && m@ == "Request validation failed"@),
{
    match arguments {
        Some(JsonValue::Object(f)) => {
            match find_field(f, "expression") {
                Some(i) => match &f[i].1 {
                    JsonValue::Str(e) => {
                        if validator.validate_fhirpath_expression(e.as_str()).is_err() {
                            return Some(refused());
                        }
                    },
                    _ => {},
                },
                None => {},
            }
            match find_field(f, "resource") {
                Some(i) => {
                    if validator.validate_fhir_resource(&f[i].1, resource_encoded_len).is_err() {
                        return Some(refused());
                    }
                },
                None => {},
            }
            None
        },
        _ => None,
    }
}

fn refused() -> (r: (u16, McpResponse))
    ensures
        r.0 == STATUS_BAD_REQUEST,
        !r.1.success,
        r.1.result is None,
        r.1.error matches Some(m) && m@ == "Request validation failed"@,
{
    validation_failure("invalid input")
}

/// The name of the event that carries a pushed message.
pub fn event_name(message: &McpMessage) -> (r: String)
    ensures
        r@ == match *message {
            McpMessage::Response { .. } => "response"@,
            McpMessage::Notification { .. } => "notification"@,
            _ => "message"@,
        },
{
    match message {
        McpMessage::Response { .. } => owned("response"),
        McpMessage::Notification { .. } => owned("notification"),
        _ => owned("message"),
    }
}

/// The event that pushes a message to streaming clients; its data decodes
/// back to the message.
pub fn push_event(message: McpMessage, id: String) -> (r: SseEvent)
    ensures
        r.id == Some(id),
        message_of(r.data) == Ok::<McpMessage, CodecError>(message),
        r.event@ == match message {
            McpMessage::Response { .. } => "response"@,
            McpMessage::Notification { .. } => "notification"@,
            _ => "message"@,
        },
{
    let event = event_name(&message);
    SseEvent { id: Some(id), event, data: message.encode() }
}

/// What a message posted to the streaming endpoint leads to.
#[derive(Debug, PartialEq)]
pub enum PostedMessage {
    /// The JSON was no message: answer with this status.
    Rejected(u16),
    /// Hand the message to the session handler.
    Dispatch(McpMessage),
}

/// A message posted to the streaming endpoint is dispatched when it decodes;
/// otherwise the request is a bad one.
pub fn read_posted_message(value: JsonValue) -> (r: PostedMessage)
    ensures
        match message_of(value) {
            Ok(m) => r == PostedMessage::Dispatch(m),
            Err(_) => r == PostedMessage::Rejected(STATUS_BAD_REQUEST),
        },
{
    match McpMessage::decode(value) {
        Ok(m) => PostedMessage::Dispatch(m),
        Err(_) => PostedMessage::Rejected(STATUS_BAD_REQUEST),
    }
}

/// What the handler's answer to a posted message leads to: a reply is
/// pushed to the client's stream as a `response` event and the post is
/// answered 200; no reply is a 204; a failure a 500.
pub fn answer_posted_message(reply: Result<Option<McpMessage>, String>, event_id: String) -> (r: (u16, Option<SseEvent>))
    ensures
        match reply {
            Ok(Some(m)) => {
                &&& r.0 == STATUS_OK
                &&& r.1 matches Some(e) && e.event@ == "response"@ && e.id == Some(event_id)
                    && message_of(e.data) == Ok::<McpMessage, CodecError>(m)
            },
            Ok(None) => r.0 == STATUS_NO_CONTENT && r.1 is None,
            Err(_) => r.0 == STATUS_INTERNAL_ERROR && r.1 is None,
        },
{
    match reply {
        Ok(Some(m)) => (STATUS_OK, Some(SseEvent { id: Some(event_id), event: owned("response"), data: m.encode() })),
        Ok(None) => (STATUS_NO_CONTENT, None),
        Err(_) => (STATUS_INTERNAL_ERROR, None),
    }
}

/// The tool a request path addresses, if it is a tool route.
pub open spec fn tool_of_path(path: Seq<char>) -> Option<Seq<char>> {
    if has_prefix(path, "/mcp/tools/"@) {
        Some(path.skip(11))
    } else {
        None
    }
}

/// The names of the custom metrics that a finished request increments:
/// for a tool route, its request counter and, on error, its error counter.
pub fn tool_metric_names(path: &str, is_error: bool) -> (r: Vec<String>)
    ensures
        match tool_of_path(path@) {
            None => r@.len() == 0,
            Some(t) => {
                &&& r@.len() == if is_error { 2int } else { 1int }
                &&& r@[0]@ == "tool_"@ + t + "_requests"@
                &&& is_error ==> r@[1]@ == "tool_"@ + t + "_errors"@
            },
        },
{
    proof {
        reveal_strlit("/mcp/tools/");
    }
    let mut out: Vec<String> = Vec::new();
    if starts_with(path, "/mcp/tools/") {
        let tool = suffix_from(path, 11);
        let mut requests = owned("tool_");
        requests.append(tool.as_str());
        requests.append("_requests");
        out.push(requests);
        if is_error {
            let mut errors = owned("tool_");
            errors.append(tool.as_str());
            errors.append("_errors");
            out.push(errors);
        }
    }
    out
}

/// An issued access token; `expires_at` is in milliseconds since the epoch.
#[derive(Debug, Clone, PartialEq)]
pub struct AuthToken {
    pub token: String,
    pub user_id: String,
    pub expires_at: u64,
}

/// Whether `tokens` holds `token` for `user`, valid after `now`.
pub open spec fn token_valid_for(tokens: Seq<AuthToken>, token: Seq<char>, now: u64, user: String) -> bool {
    exists|i: int| 0 <= i < tokens.len() && (#[trigger] tokens[i]).token@ == token && tokens[i].expires_at > now
        && tokens[i].user_id == user
}

/// The access tokens that the HTTP transport issued.
pub struct AuthTokens {
    tokens: Vec<AuthToken>,
}

impl AuthTokens {
    pub closed spec fn issued(&self) -> Seq<AuthToken> {
        self.tokens@
    }

    pub fn new() -> (r: AuthTokens)
        ensures
            r.issued().len() == 0,
    {
        AuthTokens { tokens: Vec::new() }
    }

    /// Issues a fresh token for `user_id`, valid until `now + expires_in_ms`
    /// (saturating), and returns it.
    pub fn add_auth_token(&mut self, user_id: String, expires_in_ms: u64, now: u64) -> (r: String)
        ensures
            final(self).issued().len() == old(self).issued().len() + 1,
            final(self).issued().drop_last() == old(self).issued(),
            final(self).issued().last().token@ == r@,
            final(self).issued().last().user_id == user_id,
            final(self).issued().last().expires_at == now.saturating_add(expires_in_ms),
            r@.len() == 36,
    {
        let token = uuid_text(&new_request_id());
        let issued = AuthToken { token: token.clone(), user_id, expires_at: now.saturating_add(expires_in_ms) };
        self.tokens.push(issued);
        proof {
            assert(self.tokens@.drop_last() =~= old(self).tokens@);
        }
        token
    }

    /// The user of a token that is still valid at `now`, if there is one.
    pub fn validate_token(&self, token: &str, now: u64) -> (r: Option<String>)
        ensures
            match r {
                Some(user) => token_valid_for(self.issued(), token@, now, user),
                None => forall|i: int| 0 <= i < self.issued().len() && (#[trigger] self.issued()[i]).token@ == token@
                    ==> self.issued()[i].expires_at <= now,
            },
    {
        let mut i: usize = self.tokens.len();
        while i > 0
            invariant
                i <= self.tokens@.len(),
                forall|j: int| i <= j < self.tokens@.len() && (#[trigger] self.tokens@[j]).token@ == token@
                    ==> self.tokens@[j].expires_at <= now,
            decreases i,
        {
            let t = &self.tokens[i - 1];
            if same_text(t.token.as_str(), token) && t.expires_at > now {
                let user = t.user_id.clone();
                assert(self.tokens@[i - 1].token@ == token@);
                return Some(user);
            }
            i = i - 1;
        }
        None
    }
}

/// The HTTP transport's address.
#[derive(Debug, Clone, PartialEq)]
pub struct HttpTransportServer {
    pub host: String,
    pub port: u16,
}

impl HttpTransportServer {
    pub fn new(host: String, port: u16) -> (r: HttpTransportServer)
        ensures
            r.host == host,
            r.port == port,
    {
        HttpTransportServer { host, port }
    }
}

/// The stdio transport, which needs no settings.
#[derive(Debug, Clone, Copy, PartialEq, Eq)]
pub struct StdioTransportServer;

impl StdioTransportServer {
    pub fn new() -> (r: StdioTransportServer) {
        StdioTransportServer
    }
}

/// Makes transports.
pub struct TransportFactory;

impl TransportFactory {
    pub fn create_http(host: &str, port: u16) -> (r: HttpTransportServer)
        ensures
            r.host@ == host@,
            r.port == port,
    {
        HttpTransportServer::new(owned(host), port)
    }

    pub fn create_stdio() -> (r: StdioTransportServer) {
        StdioTransportServer::new()
    }
}

} // verus!
