//! The JSON-RPC bridge: which request leads to which operation, and which
//! failure to which error reply.

use crate::domain::errors::{DomainError, ErrorKind, ErrorView};
use crate::json::{
    duplicate, empty_object, error_text, json_member, json_opt_text, json_parsed, json_text,
    member, parse, text_member,
};
use crate::text::{blank, join, opt_text, same_text, trim, trimmed};
use vstd::prelude::*;

verus! {

/// JSON-RPC: the text is no JSON.
pub const PARSE_ERROR: i32 = -32700;

/// JSON-RPC: the method does not exist.
pub const METHOD_NOT_FOUND: i32 = -32601;

/// JSON-RPC: the parameters do not fit.
pub const INVALID_PARAMS: i32 = -32602;

/// JSON-RPC: the server failed.
pub const INTERNAL_ERROR: i32 = -32603;

/// Model Context Protocol: the resource does not exist.
pub const RESOURCE_NOT_FOUND: i32 = -32002;

/// The tools that the bridge offers.
#[derive(Debug, Clone, Copy, PartialEq, Eq, Structural)]
pub enum Tool {
    /// `ingest_context`: persist a new context item.
    IngestContext,
    /// `search_contexts`: semantic search across stored items.
    SearchContexts,
}

/// The error member of a reply. The detail, if any, travels as the `detail`
/// member of the error's data.
#[derive(Debug)]
pub struct RpcError {
    pub code: i32,
    pub message: String,
    pub detail: Option<String>,
}

/// Mathematical model of an [`RpcError`].
pub struct RpcErrorView {
    pub code: i32,
    pub message: Seq<char>,
    pub detail: Option<Seq<char>>,
}

impl View for RpcError {
    type V = RpcErrorView;

    open spec fn view(&self) -> RpcErrorView {
        RpcErrorView { code: self.code, message: self.message@, detail: opt_text(self.detail) }
    }
}

/// What the bridge does with a request.
#[derive(Debug)]
pub enum RpcRoute {
    /// Answer with the protocol version, capabilities and server metadata.
    Initialize,
    /// Answer with the list of tools.
    ListTools,
    /// Run the tool on the request's arguments.
    CallTool(Tool),
    /// Answer with the error.
    Reject(RpcError),
}

/// Mathematical model of an [`RpcRoute`].
pub enum RouteView {
    Initialize,
    ListTools,
    CallTool(Tool),
    Reject(RpcErrorView),
}

impl View for RpcRoute {
    type V = RouteView;

    open spec fn view(&self) -> RouteView {
        match self {
            RpcRoute::Initialize => RouteView::Initialize,
            RpcRoute::ListTools => RouteView::ListTools,
            RpcRoute::CallTool(t) => RouteView::CallTool(*t),
            RpcRoute::Reject(e) => RouteView::Reject(e@),
        }
    }
}

/// The tool of the given name, if there is one.
pub open spec fn tool_named(name: Seq<char>) -> Option<Tool> {
    if name == "ingest_context"@ {
        Some(Tool::IngestContext)
    } else if name == "search_contexts"@ {
        Some(Tool::SearchContexts)
    } else {
        None
    }
}

/// Where a request leads. `tool` is the name under `params`, present
/// whenever `params` is.
pub open spec fn route_of(method: Seq<char>, tool: Option<Seq<char>>) -> RouteView {
    if method == "initialize"@ {
        RouteView::Initialize
    } else if method == "tools/list"@ {
        RouteView::ListTools
    } else if method == "tools/call"@ {
        match tool {
            Some(name) => match tool_named(name) {
                Some(t) => RouteView::CallTool(t),
                None => RouteView::Reject(
                    RpcErrorView {
                        code: INVALID_PARAMS,
                        message: "Unknown tool: "@ + name,
                        detail: None,
                    },
                ),
            },
            None => RouteView::Reject(
                RpcErrorView { code: INVALID_PARAMS, message: "Invalid params"@, detail: None },
            ),
        }
    } else {
        RouteView::Reject(
            RpcErrorView {
                code: METHOD_NOT_FOUND,
                message: "Method not found: "@ + method,
                detail: None,
            },
        )
    }
}

/// Finds the tool of the given name.
pub fn find_tool(name: &str) -> (r: Option<Tool>)
    ensures
        r == tool_named(name@),
{
    if same_text(name, "ingest_context") {
        Some(Tool::IngestContext)
    } else if same_text(name, "search_contexts") {
        Some(Tool::SearchContexts)
    } else {
        None
    }
}

/// Decides where a request leads, from its method and, for a tool call,
/// the name under its parameters.
pub fn route_request(method: &str, tool: Option<&str>) -> (r: RpcRoute)
    ensures
        r@ == route_of(
            method@,
            match tool {
                Some(name) => Some(name@),
                None => None,
            },
        ),
{
    if same_text(method, "initialize") {
        RpcRoute::Initialize
    } else if same_text(method, "tools/list") {
        RpcRoute::ListTools
    } else if same_text(method, "tools/call") {
        match tool {
            Some(name) => match find_tool(name) {
                Some(t) => RpcRoute::CallTool(t),
                None => RpcRoute::Reject(
                    RpcError {
                        code: INVALID_PARAMS,
                        message: join("Unknown tool: ", name),
                        detail: None,
                    },
                ),
            },
            None => RpcRoute::Reject(
                RpcError {
                    code: INVALID_PARAMS,
                    message: "Invalid params".to_owned(),
                    detail: None,
                },
            ),
        }
    } else {
        RpcRoute::Reject(
            RpcError {
                code: METHOD_NOT_FOUND,
                message: join("Method not found: ", method),
                detail: None,
            },
        )
    }
}

/// The error reply for a domain error: caller mistakes as invalid
/// parameters, a missing entity as a missing resource, everything else as
/// an internal error. The error's message travels as the detail.
pub open spec fn rpc_error_of(e: ErrorView) -> RpcErrorView {
    match e.kind {
        ErrorKind::Validation | ErrorKind::LimitExceeded => RpcErrorView {
            code: INVALID_PARAMS,
            message: "invalid request"@,
            detail: Some(e.message),
        },
        ErrorKind::NotFound => RpcErrorView {
            code: RESOURCE_NOT_FOUND,
            message: "not found"@,
            detail: Some(e.message),
        },
        _ => RpcErrorView {
            code: INTERNAL_ERROR,
            message: "internal error"@,
            detail: Some(e.message),
        },
    }
}

/// Maps a domain error to the error reply that reports it.
pub fn map_domain_error(err: DomainError) -> (r: RpcError)
    ensures
        r@ == rpc_error_of(err@),
{
    match err {
        DomainError::Validation(msg) => RpcError {
            code: INVALID_PARAMS,
            message: "invalid request".to_owned(),
            detail: Some(msg),
        },
        DomainError::LimitExceeded(msg) => RpcError {
            code: INVALID_PARAMS,
            message: "invalid request".to_owned(),
            detail: Some(msg),
        },
        DomainError::NotFound(msg) => RpcError {
            code: RESOURCE_NOT_FOUND,
            message: "not found".to_owned(),
            detail: Some(msg),
        },
        DomainError::Embedding(msg) => RpcError {
            code: INTERNAL_ERROR,
            message: "internal error".to_owned(),
            detail: Some(msg),
        },
        DomainError::Storage(msg) => RpcError {
            code: INTERNAL_ERROR,
            message: "internal error".to_owned(),
            detail: Some(msg),
        },
        DomainError::Other(msg) => RpcError {
            code: INTERNAL_ERROR,
            message: "internal error".to_owned(),
            detail: Some(msg),
        },
    }
}

/// The error reply for a failure of the bridge itself.
pub fn internal_error(message: &str) -> (r: RpcError)
    ensures
        r@ == (RpcErrorView {
            code: INTERNAL_ERROR,
            message: "internal MCP server error"@,
            detail: Some(message@),
        }),
{
    RpcError {
        code: INTERNAL_ERROR,
        message: "internal MCP server error".to_owned(),
        detail: Some(message.to_owned()),
    }
}

/// The error reply for tool arguments that do not have the tool's shape.
pub fn invalid_arguments(tool: Tool, detail: &str) -> (r: RpcError)
    ensures
        r@ == (RpcErrorView {
            code: INVALID_PARAMS,
            message: match tool {
                Tool::IngestContext => "Invalid ingest_context arguments"@,
                Tool::SearchContexts => "Invalid search_contexts arguments"@,
            },
            detail: Some(detail@),
        }),
{
    let message = match tool {
        Tool::IngestContext => "Invalid ingest_context arguments".to_owned(),
        Tool::SearchContexts => "Invalid search_contexts arguments".to_owned(),
    };
    RpcError { code: INVALID_PARAMS, message, detail: Some(detail.to_owned()) }
}

/// A JSON-RPC request, as far as the bridge reads it.
#[derive(Debug)]
pub struct RpcRequest {
    /// The `id` member, which the reply repeats.
    pub id: Option<serde_json::Value>,
    /// The `method` member; empty if it is missing or no string.
    pub method: String,
    /// The `name` under `params` if there are `params`; empty if it is
    /// missing or no string.
    pub tool: Option<String>,
    /// The `arguments` under `params`, if there are `params` and they
    /// hold arguments.
    pub arguments: Option<serde_json::Value>,
}

/// The text of an optional JSON string, or the empty text.
pub open spec fn text_or_empty(t: Option<Seq<char>>) -> Seq<char> {
    match t {
        Some(s) => s,
        None => Seq::empty(),
    }
}

/// The method that a JSON value asks for.
pub open spec fn method_of(value: serde_json::Value) -> Seq<char> {
    text_or_empty(json_opt_text(json_member(value, "method"@)))
}

/// The tool name that a JSON value carries, if it has parameters.
pub open spec fn tool_of(value: serde_json::Value) -> Option<Seq<char>> {
    match json_member(value, "params"@) {
        Some(params) => Some(text_or_empty(json_opt_text(json_member(params, "name"@)))),
        None => None,
    }
}

/// The arguments that a JSON value carries under its parameters, if any.
pub open spec fn arguments_of(value: serde_json::Value) -> Option<serde_json::Value> {
    match json_member(value, "params"@) {
        Some(params) => json_member(params, "arguments"@),
        None => None,
    }
}

/// Reads a request from a JSON value.
pub fn read_request(value: &serde_json::Value) -> (r: RpcRequest)
    ensures
        holds_request(r, *value),
{
    let id = match member(value, "id") {
        Some(v) => Some(duplicate(v)),
        None => None,
    };
    let method = match text_member(value, "method") {
        Some(m) => m,
        None => String::new(),
    };
    match member(value, "params") {
        Some(params) => {
            let name = match text_member(params, "name") {
                Some(n) => n,
                None => String::new(),
            };
            let arguments = match member(params, "arguments") {
                Some(a) => Some(duplicate(a)),
                None => None,
            };
            RpcRequest { id, method, tool: Some(name), arguments }
        },
        None => RpcRequest { id, method, tool: None, arguments: None },
    }
}

/// The answer to a request: the request's `id` beside either the result or
/// the error.
#[derive(Debug)]
pub struct RpcReply {
    pub id: Option<serde_json::Value>,
    pub outcome: Result<serde_json::Value, RpcError>,
}

impl RpcRequest {
    /// Wraps what handling the request gave into the answer. Every answer
    /// carries the `id` of its request.
    pub fn reply(self, outcome: Result<serde_json::Value, RpcError>) -> (r: RpcReply)
        ensures
            r.id == self.id,
            r.outcome == outcome,
    {
        RpcReply { id: self.id, outcome }
    }

    /// The arguments of a tool call: those of the request, and an object
    /// without members where the request has none.
    pub fn tool_arguments(&self) -> (r: serde_json::Value)
        ensures
            match self.arguments {
                Some(given) => r == given,
                None => json_text(r) is None && forall|key: Seq<char>| #[trigger]
                    json_member(r, key) is None,
            },
    {
        match &self.arguments {
            Some(given) => duplicate(given),
            None => empty_object(),
        }
    }

    /// Decides where the request leads.
    pub fn route(&self) -> (r: RpcRoute)
        ensures
            r@ == route_of(self.method@, opt_text(self.tool)),
    {
        match &self.tool {
            Some(name) => route_request(self.method.as_str(), Some(name.as_str())),
            None => route_request(self.method.as_str(), None),
        }
    }
}

/// What the bridge does with one line of input.
#[derive(Debug)]
pub enum LineAction {
    /// The line is blank: read on.
    Skip,
    /// The line is no JSON: answer with the error, without an `id`.
    Malformed(RpcError),
    /// The line holds a request: handle it.
    Handle(RpcRequest),
}

/// What a request read from a JSON value holds.
pub open spec fn holds_request(req: RpcRequest, value: serde_json::Value) -> bool {
    &&& req.id == json_member(value, "id"@)
    &&& req.method@ == method_of(value)
    &&& opt_text(req.tool) == tool_of(value)
    &&& req.arguments == arguments_of(value)
}

/// Decides what to do with one line of input. A blank line is skipped, and
/// only a blank line. Any other line is trimmed and parsed: if it is JSON,
/// the request that the value holds is handled; if not, the answer is a
/// parse error (code -32700, message `Parse error: ` and the parser's
/// words).
pub fn classify_line(line: &str) -> (r: LineAction)
    ensures
        r is Skip <==> blank(line@),
        r is Handle <==> !blank(line@) && json_parsed(trimmed(line@)) is Some,
        r matches LineAction::Handle(req) ==> holds_request(req, json_parsed(trimmed(line@))->0),
        r matches LineAction::Malformed(e) ==> e.code == PARSE_ERROR && e.detail is None && exists|
            words: Seq<char>,
        |
            e.message@ == "Parse error: "@ + words,
{
    let trimmed_line = trim(line);
    if trimmed_line.as_str().is_empty() {
        return LineAction::Skip;
    }
    match parse(trimmed_line.as_str()) {
        Ok(value) => {
            let request = read_request(&value);
            LineAction::Handle(request)
        },
        Err(e) => {
            let words = error_text(&e);
            LineAction::Malformed(
                RpcError {
                    code: PARSE_ERROR,
                    message: join("Parse error: ", words.as_str()),
                    detail: None,
                },
            )
        },
    }
}

/// What reading from the input gave.
#[derive(Debug)]
pub enum StdioEvent {
    /// The client closed the stream.
    Closed,
    /// Reading failed.
    ReadFailed,
    /// One line came in.
    Line(String),
}

/// What the bridge's loop does next.
#[derive(Debug)]
pub enum StdioStep {
    /// Leave the loop.
    Stop,
    /// Read the next line.
    ReadOn,
    /// Answer with a parse error, then read on whether or not the answer
    /// could be written.
    ReplyMalformed(RpcError),
    /// Handle the request and answer; leave the loop if the answer cannot
    /// be written.
    Serve(RpcRequest),
}

/// What the loop does with a line: a blank line is read over; any other
/// line is trimmed and parsed, and either the request that it holds is
/// served or the parse error is the answer.
pub open spec fn step_for_line(line: Seq<char>, r: StdioStep) -> bool {
    if blank(line) {
        r is ReadOn
    } else {
        match json_parsed(trimmed(line)) {
            Some(value) => r matches StdioStep::Serve(req) && holds_request(req, value),
            None => r matches StdioStep::ReplyMalformed(e) && e.code == PARSE_ERROR && e.detail
                is None && exists|words: Seq<char>| e.message@ == "Parse error: "@ + words,
        }
    }
}

/// Decides the next step of the bridge's loop: the loop ends when the
/// stream is closed or fails, and only then; each line is treated as
/// [`classify_line`] says.
pub fn next_step(event: StdioEvent) -> (r: StdioStep)
    ensures
        match event {
            StdioEvent::Closed => r is Stop,
            StdioEvent::ReadFailed => r is Stop,
            StdioEvent::Line(line) => step_for_line(line@, r),
        },
{
    match event {
        StdioEvent::Closed => StdioStep::Stop,
        StdioEvent::ReadFailed => StdioStep::Stop,
        StdioEvent::Line(line) => match classify_line(line.as_str()) {
            LineAction::Skip => StdioStep::ReadOn,
            LineAction::Malformed(e) => StdioStep::ReplyMalformed(e),
            LineAction::Handle(request) => StdioStep::Serve(request),
        },
    }
}

/// The path under which an endpoint is served: the trimmed input with a
/// leading slash, or the root for a blank input.
pub open spec fn normalized_path(input: Seq<char>) -> Seq<char> {
    let t = trimmed(input);
    if t.len() == 0 {
        seq!['/']
    } else if t[0] == '/' {
        t
    } else {
        seq!['/'] + t
    }
}

/// Brings an endpoint path into normal form.
pub fn normalize_path(input: &str) -> (out: String)
    ensures
        out@ == normalized_path(input@),
{
    let t = trim(input);
    let len = t.as_str().unicode_len();
    if len == 0 {
        let mut out = String::new();
        out.push('/');
        out
    } else if t.as_str().get_char(0) == '/' {
        t
    } else {
        let mut out = String::new();
        out.push('/');
        out.append(t.as_str());
        out
    }
}

/// Where the event-stream bridge listens.
#[derive(Debug)]
pub struct McpEndpointMetadata {
    /// Socket address, as `host:port`.
    pub bind_addr: String,
    pub sse_path: String,
    pub post_path: String,
}

impl McpEndpointMetadata {
    /// The address that messages are posted to.
    pub fn post_url(&self) -> (url: String)
        ensures
            url@ == "http://"@ + self.bind_addr@ + self.post_path@,
    {
        crate::text::join3("http://", self.bind_addr.as_str(), self.post_path.as_str())
    }

    /// The address of the event stream.
    pub fn sse_url(&self) -> (url: String)
        ensures
            url@ == "http://"@ + self.bind_addr@ + self.sse_path@,
    {
        crate::text::join3("http://", self.bind_addr.as_str(), self.sse_path.as_str())
    }
}

/// The variable that overrides the bridge's socket address.
pub const ENV_BIND_ADDR: &'static str = "INGAT_MCP_BIND_ADDR";

/// The variable that overrides the path of the event stream.
pub const ENV_SSE_PATH: &'static str = "INGAT_MCP_SSE_PATH";

/// The variable that overrides the path that messages are posted to.
pub const ENV_POST_PATH: &'static str = "INGAT_MCP_POST_PATH";

/// The variable that overrides the keep-alive interval.
pub const ENV_KEEP_ALIVE_SECS: &'static str = "INGAT_MCP_KEEP_ALIVE_SECS";

/// Shortest keep-alive interval that a configuration may ask for, in
/// seconds.
pub const MIN_KEEP_ALIVE_SECS: u64 = 5;

/// Configuration of the event-stream bridge.
#[derive(Debug)]
pub struct McpServerConfig {
    /// Socket address, as `host:port`.
    pub bind_addr: String,
    pub sse_path: String,
    pub post_path: String,
    /// Keep-alive interval in seconds.
    pub keep_alive_secs: u64,
}

impl Default for McpServerConfig {
    fn default() -> (out: Self)
        ensures
            out.bind_addr@ == "127.0.0.1:5210"@,
            out.sse_path@ == "/sse"@,
            out.post_path@ == "/message"@,
            out.keep_alive_secs == 30,
    {
        McpServerConfig {
            bind_addr: "127.0.0.1:5210".to_owned(),
            sse_path: "/sse".to_owned(),
            post_path: "/message".to_owned(),
            keep_alive_secs: 30,
        }
    }
}

impl McpServerConfig {
    /// The configuration that the environment asks for. Each argument is
    /// the value of one override, `None` where the variable is unset or,
    /// for the address and the interval, does not parse. Paths are brought
    /// into normal form and the interval is raised to at least five
    /// seconds.
    pub fn from_env(
        bind_addr: Option<String>,
        sse_path: Option<String>,
        post_path: Option<String>,
        keep_alive_secs: Option<u64>,
    ) -> (out: Self)
        ensures
            out.bind_addr@ == match bind_addr {
                Some(a) => a@,
                None => "127.0.0.1:5210"@,
            },
            out.sse_path@ == match sse_path {
                Some(p) => normalized_path(p@),
                None => "/sse"@,
            },
            out.post_path@ == match post_path {
                Some(p) => normalized_path(p@),
                None => "/message"@,
            },
            out.keep_alive_secs == match keep_alive_secs {
                Some(s) => if s < MIN_KEEP_ALIVE_SECS {
                    MIN_KEEP_ALIVE_SECS
                } else {
                    s
                },
                None => 30,
            },
    {
        let mut cfg = McpServerConfig::default();
        if let Some(addr) = bind_addr {
            cfg.bind_addr = addr;
        }
        if let Some(path) = sse_path {
            cfg.sse_path = normalize_path(path.as_str());
        }
        if let Some(path) = post_path {
            cfg.post_path = normalize_path(path.as_str());
        }
        if let Some(seconds) = keep_alive_secs {
            cfg.keep_alive_secs = if seconds < MIN_KEEP_ALIVE_SECS {
                MIN_KEEP_ALIVE_SECS
            } else {
                seconds
            };
        }
        cfg
    }

    /// The endpoints that a server under this configuration offers.
    pub fn metadata(&self) -> (out: McpEndpointMetadata)
        ensures
            out.bind_addr@ == self.bind_addr@,
            out.sse_path@ == self.sse_path@,
            out.post_path@ == self.post_path@,
    {
        McpEndpointMetadata {
            bind_addr: self.bind_addr.clone(),
            sse_path: self.sse_path.clone(),
            post_path: self.post_path.clone(),
        }
    }
}

} // verus!
