use crate::relay::RelayError;
use vstd::prelude::*;

verus! {

#[verifier::external_type_specification]
#[verifier::external_body]
pub struct ExUri(http::Uri);

/// Whether `http::Uri` accepts a text.
pub uninterp spec fn uri_accepts(s: Seq<char>) -> bool;

/// Relies on `http::Uri`'s `FromStr` (`Uri::try_from` on the bytes): whether
/// the text parses depends on the text alone. The error is kept as its debug
/// text.
#[verifier::external_body]
fn parse_uri(s: &str) -> (r: Result<http::Uri, String>)
    ensures
        r is Ok == uri_accepts(s@),
{
    match s.parse::<http::Uri>() {
        Ok(u) => Ok(u),
        Err(e) => Err(format!("{:?}", e)),
    }
}

/// Why a handler gave up on an invocation.
#[derive(Debug, Clone, PartialEq, Eq)]
pub enum HandlerError {
    MissingConnectionId,
    MissingDomainName,
    MissingStage,
    MissingRequestBody,
    /// The event holds no textual `body` field.
    BodyNotFound,
    MissingBucketName,
    MissingObjectKey,
    /// The request body is not a story request; the parser's report.
    InvalidRequestBody(String),
    /// The management endpoint is not a valid URI; the parser's report.
    InvalidEndpoint(String),
    Relay(RelayError),
}

impl HandlerError {
    pub open spec fn message_spec(&self) -> Seq<char> {
        match self {
            HandlerError::MissingConnectionId => "Missing connection_id"@,
            HandlerError::MissingDomainName => "Missing domain_name"@,
            HandlerError::MissingStage => "Missing stage"@,
            HandlerError::MissingRequestBody => "Missing request body"@,
            HandlerError::BodyNotFound => "Failed to parse request body"@,
            HandlerError::MissingBucketName => "Bucket name is missing"@,
            HandlerError::MissingObjectKey => "Object key is missing"@,
            HandlerError::InvalidRequestBody(e) => "Failed to parse request body: "@ + e@,
            HandlerError::InvalidEndpoint(e) => "Failed to parse endpoint URI: "@ + e@,
            HandlerError::Relay(e) => e.message_spec(),
        }
    }

    pub fn message(&self) -> (r: String)
        ensures
            r@ == self.message_spec(),
    {
        match self {
            HandlerError::MissingConnectionId => String::from_str("Missing connection_id"),
            HandlerError::MissingDomainName => String::from_str("Missing domain_name"),
            HandlerError::MissingStage => String::from_str("Missing stage"),
            HandlerError::MissingRequestBody => String::from_str("Missing request body"),
            HandlerError::BodyNotFound => String::from_str("Failed to parse request body"),
            HandlerError::MissingBucketName => String::from_str("Bucket name is missing"),
            HandlerError::MissingObjectKey => String::from_str("Object key is missing"),
            HandlerError::InvalidRequestBody(e) => {
                let mut m = String::from_str("Failed to parse request body: ");
                m.append(e.as_str());
                m
            },
            HandlerError::InvalidEndpoint(e) => {
                let mut m = String::from_str("Failed to parse endpoint URI: ");
                m.append(e.as_str());
                m
            },
            HandlerError::Relay(e) => e.message(),
        }
    }
}

/// The answer to a WebSocket route invocation.
pub struct ApiGatewayResponse {
    pub status_code: u16,
    pub body: String,
}

/// The parts of a WebSocket invocation that the handler reads.
pub struct WebsocketRequest {
    pub connection_id: Option<String>,
    pub domain_name: Option<String>,
    pub stage: Option<String>,
    pub route_key: Option<String>,
}

/// A story request: the kind of story to tell.
pub struct StoryRequest {
    pub story_type: String,
}

/// What the handler does for a route.
pub enum WsRoute {
    /// Answer at once.
    Respond(ApiGatewayResponse),
    /// Relay a generated story to the connection through this endpoint.
    Stream { connection_id: String, endpoint: http::Uri },
}

pub open spec fn endpoint_text(domain_name: Seq<char>, stage: Seq<char>) -> Seq<char> {
    "https://"@ + domain_name + "/"@ + stage
}

pub open spec fn is_route(key: Option<String>, name: Seq<char>) -> bool {
    key matches Some(k) && k@ == name
}

pub open spec fn responds(r: Result<WsRoute, HandlerError>, status: u16, body: Seq<char>) -> bool {
    r matches Ok(WsRoute::Respond(resp)) && resp.status_code == status && resp.body@ == body
}

fn text_is(a: &String, b: &str) -> (r: bool)
    ensures
        r == (a@ == b@),
{
    let bs = String::from_str(b);
    *a == bs
}

/// The management endpoint of a WebSocket API stage, as a URI.
pub fn api_gateway_config(domain_name: &str, stage: &str) -> (r: Result<http::Uri, HandlerError>)
    ensures
        r is Ok == uri_accepts(endpoint_text(domain_name@, stage@)),
        r is Err ==> r->Err_0 is InvalidEndpoint,
{
    let mut endpoint = String::from_str("https://");
    endpoint.append(domain_name);
    endpoint.append("/");
    endpoint.append(stage);
    match parse_uri(endpoint.as_str()) {
        Ok(u) => Ok(u),
        Err(e) => Err(HandlerError::InvalidEndpoint(e)),
    }
}

/// Answer to `$connect`.
pub fn handle_connect(_connection_id: &str) -> (r: ApiGatewayResponse)
    ensures
        r.status_code == 200,
        r.body@ == "Connected...: $connect"@,
{
    ApiGatewayResponse { status_code: 200, body: String::from_str("Connected...: $connect") }
}

/// Answer to `$disconnect`.
pub fn handle_disconnect(_connection_id: &str) -> (r: ApiGatewayResponse)
    ensures
        r.status_code == 200,
        r.body@ == "Disconnected...: $disconnect"@,
{
    ApiGatewayResponse {
        status_code: 200,
        body: String::from_str("Disconnected...: $disconnect"),
    }
}

/// Answer once a `$default` message has been relayed.
pub fn default_response() -> (r: ApiGatewayResponse)
    ensures
        r.status_code == 200,
        r.body@ == "Message processed...: $default"@,
{
    ApiGatewayResponse {
        status_code: 200,
        body: String::from_str("Message processed...: $default"),
    }
}

/// Decides what a WebSocket invocation leads to. The connection id, domain
/// name and stage are required, in that order; then the route key picks the
/// answer, and an unknown or missing one is a 400.
pub fn route_request(req: &WebsocketRequest) -> (r: Result<WsRoute, HandlerError>)
    ensures
        req.connection_id is None ==> r == Err::<WsRoute, HandlerError>(
            HandlerError::MissingConnectionId,
        ),
        req.connection_id is Some && req.domain_name is None ==> r == Err::<WsRoute, HandlerError>(
            HandlerError::MissingDomainName,
        ),
        req.connection_id is Some && req.domain_name is Some && req.stage is None ==> r == Err::<
            WsRoute,
            HandlerError,
        >(HandlerError::MissingStage),
        req.connection_id is Some && req.domain_name is Some && req.stage is Some ==> {
            let endpoint = endpoint_text(req.domain_name->0@, req.stage->0@);
            if is_route(req.route_key, "$connect"@) {
                responds(r, 200, "Connected...: $connect"@)
            } else if is_route(req.route_key, "$disconnect"@) {
                responds(r, 200, "Disconnected...: $disconnect"@)
            } else if is_route(req.route_key, "$default"@) {
                &&& r is Ok == uri_accepts(endpoint)
                &&& r matches Ok(route) ==> (route matches WsRoute::Stream { connection_id, .. }
                    && connection_id@ == req.connection_id->0@)
                &&& r matches Err(e) ==> e is InvalidEndpoint
            } else {
                responds(r, 400, "Unknown route"@)
            }
        },
{
    let connection_id = match &req.connection_id {
        Some(c) => c,
        None => return Err(HandlerError::MissingConnectionId),
    };
    let domain_name = match &req.domain_name {
        Some(d) => d,
        None => return Err(HandlerError::MissingDomainName),
    };
    let stage = match &req.stage {
        Some(s) => s,
        None => return Err(HandlerError::MissingStage),
    };
    match &req.route_key {
        Some(key) => {
            if text_is(key, "$connect") {
                Ok(WsRoute::Respond(handle_connect(connection_id.as_str())))
            } else if text_is(key, "$disconnect") {
                Ok(WsRoute::Respond(handle_disconnect(connection_id.as_str())))
            } else if text_is(key, "$default") {
                let endpoint = api_gateway_config(domain_name.as_str(), stage.as_str())?;
                Ok(WsRoute::Stream { connection_id: connection_id.clone(), endpoint })
            } else {
                Ok(WsRoute::Respond(unknown_route()))
            }
        },
        None => Ok(WsRoute::Respond(unknown_route())),
    }
}

fn unknown_route() -> (r: ApiGatewayResponse)
    ensures
        r.status_code == 400,
        r.body@ == "Unknown route"@,
{
    ApiGatewayResponse { status_code: 400, body: String::from_str("Unknown route") }
}

pub open spec fn prompt_text(story_type: Seq<char>) -> Seq<char> {
    "Tell me a very short story about: "@ + story_type
}

/// The generation prompt for a story request.
pub fn story_prompt(request: &StoryRequest) -> (r: String)
    ensures
        r@ == prompt_text(request.story_type@),
{
    let mut p = String::from_str("Tell me a very short story about: ");
    p.append(request.story_type.as_str());
    p
}

/// The prompt for a `$default` message: `None` when the message has no body,
/// else what parsing the body gave (the parser's report on failure).
pub fn handle_default(parsed: Option<Result<StoryRequest, String>>) -> (r: Result<String, HandlerError>)
    ensures
        match parsed {
            None => r == Err::<String, HandlerError>(HandlerError::MissingRequestBody),
            Some(Err(e)) => r == Err::<String, HandlerError>(HandlerError::InvalidRequestBody(e)),
            Some(Ok(req)) => r matches Ok(p) && p@ == prompt_text(req.story_type@),
        },
{
    match parsed {
        None => Err(HandlerError::MissingRequestBody),
        Some(Err(e)) => Err(HandlerError::InvalidRequestBody(e)),
        Some(Ok(req)) => Ok(story_prompt(&req)),
    }
}

/// The prompt for a streamed story invocation: `None` when the event has no
/// textual `body`, else what parsing that body gave (the parser's report on
/// failure).
pub fn stream_prompt(parsed: Option<Result<StoryRequest, String>>) -> (r: Result<String, HandlerError>)
    ensures
        match parsed {
            None => r == Err::<String, HandlerError>(HandlerError::BodyNotFound),
            Some(Err(e)) => r == Err::<String, HandlerError>(HandlerError::InvalidRequestBody(e)),
            Some(Ok(req)) => r matches Ok(p) && p@ == prompt_text(req.story_type@),
        },
{
    match parsed {
        None => Err(HandlerError::BodyNotFound),
        Some(Err(e)) => Err(HandlerError::InvalidRequestBody(e)),
        Some(Ok(req)) => Ok(story_prompt(&req)),
    }
}

} // verus!
