//! JSON-RPC 2.0 requests and responses: which requests are valid, which are
//! answered, and how.

use vstd::prelude::*;

use crate::text::{chars_eq_str, chars_of, trim, trim_chars};

verus! {

#[verifier::external_type_specification]
#[verifier::external_body]
pub struct ExJsonValue(serde_json::Value);

/// The JSON-RPC version spoken.
pub open spec fn jsonrpc_version() -> Seq<char> {
    "2.0"@
}

/// JSON-RPC error codes.
#[derive(Debug, Clone, Copy, PartialEq, Eq, Structural)]
pub enum ErrorCode {
    ParseError,
    InvalidRequest,
    MethodNotFound,
    InvalidParams,
    InternalError,
}

pub open spec fn code_value(code: ErrorCode) -> int {
    match code {
        ErrorCode::ParseError => -32700,
        ErrorCode::InvalidRequest => -32600,
        ErrorCode::MethodNotFound => -32601,
        ErrorCode::InvalidParams => -32602,
        ErrorCode::InternalError => -32603,
    }
}

pub open spec fn code_message(code: ErrorCode) -> Seq<char> {
    match code {
        ErrorCode::ParseError => "Parse error"@,
        ErrorCode::InvalidRequest => "Invalid Request"@,
        ErrorCode::MethodNotFound => "Method not found"@,
        ErrorCode::InvalidParams => "Invalid params"@,
        ErrorCode::InternalError => "Internal error"@,
    }
}

impl ErrorCode {
    /// The numeric code.
    pub fn code(self) -> (r: i32)
        ensures
            r == code_value(self),
    {
        match self {
            ErrorCode::ParseError => -32700,
            ErrorCode::InvalidRequest => -32600,
            ErrorCode::MethodNotFound => -32601,
            ErrorCode::InvalidParams => -32602,
            ErrorCode::InternalError => -32603,
        }
    }

    /// The standard message.
    pub fn message(self) -> (r: &'static str)
        ensures
            r@ == code_message(self),
    {
        match self {
            ErrorCode::ParseError => "Parse error",
            ErrorCode::InvalidRequest => "Invalid Request",
            ErrorCode::MethodNotFound => "Method not found",
            ErrorCode::InvalidParams => "Invalid params",
            ErrorCode::InternalError => "Internal error",
        }
    }
}

/// A JSON-RPC error object.
#[derive(Debug)]
pub struct JsonRpcError {
    pub code: i32,
    pub message: String,
    pub data: Option<serde_json::Value>,
}

pub open spec fn is_error_of(e: JsonRpcError, code: ErrorCode) -> bool {
    e.code == code_value(code) && e.message@ == code_message(code) && e.data is None
}

impl JsonRpcError {
    /// The error of `code`, with its standard message.
    pub fn new(code: ErrorCode, data: Option<serde_json::Value>) -> (r: Self)
        ensures
            r.code == code_value(code),
            r.message@ == code_message(code),
            r.data == data,
    {
        JsonRpcError { code: code.code(), message: code.message().to_string(), data }
    }

    pub fn parse_error() -> (r: Self)
        ensures
            is_error_of(r, ErrorCode::ParseError),
    {
        Self::new(ErrorCode::ParseError, None)
    }

    pub fn invalid_request() -> (r: Self)
        ensures
            is_error_of(r, ErrorCode::InvalidRequest),
    {
        Self::new(ErrorCode::InvalidRequest, None)
    }

    pub fn method_not_found() -> (r: Self)
        ensures
            is_error_of(r, ErrorCode::MethodNotFound),
    {
        Self::new(ErrorCode::MethodNotFound, None)
    }

    pub fn invalid_params() -> (r: Self)
        ensures
            is_error_of(r, ErrorCode::InvalidParams),
    {
        Self::new(ErrorCode::InvalidParams, None)
    }

    pub fn internal_error() -> (r: Self)
        ensures
            is_error_of(r, ErrorCode::InternalError),
    {
        Self::new(ErrorCode::InternalError, None)
    }
}

/// A JSON-RPC request; without an `id` (or with a null one) it is a
/// notification.
#[derive(Debug)]
pub struct JsonRpcRequest {
    pub jsonrpc: String,
    pub method: String,
    pub params: Option<serde_json::Value>,
    pub id: Option<serde_json::Value>,
}

impl JsonRpcRequest {
    /// Whether no answer is expected.
    pub fn is_notification(&self) -> (r: bool)
        ensures
            r == self.id is None,
    {
        self.id.is_none()
    }
}

/// A JSON-RPC response; an `id` of `None` stands for JSON `null`.
#[derive(Debug)]
pub struct JsonRpcResponse {
    pub jsonrpc: String,
    pub result: Option<serde_json::Value>,
    pub error: Option<JsonRpcError>,
    pub id: Option<serde_json::Value>,
}

impl JsonRpcResponse {
    /// A successful response to `id`.
    pub fn success(id: Option<serde_json::Value>, result: serde_json::Value) -> (r: Self)
        ensures
            r.jsonrpc@ == jsonrpc_version(),
            r.result == Some(result),
            r.error is None,
            r.id == id,
    {
        JsonRpcResponse { jsonrpc: "2.0".to_string(), result: Some(result), error: None, id }
    }

    /// A failed response to `id`.
    pub fn error(id: Option<serde_json::Value>, error: JsonRpcError) -> (r: Self)
        ensures
            r.jsonrpc@ == jsonrpc_version(),
            r.result is None,
            r.error == Some(error),
            r.id == id,
    {
        JsonRpcResponse { jsonrpc: "2.0".to_string(), result: None, error: Some(error), id }
    }
}

/// What answers the methods of a request.
pub trait JsonRpcHandler: Sized {
    /// What this handler answers for a method and its parameters. An
    /// implementation says so by defining it; left alone, it is some fixed
    /// answer for each handler, method and parameters.
    open spec fn handle_spec(&self, method: Seq<char>, params: Option<serde_json::Value>)
        -> Result<serde_json::Value, JsonRpcError> {
        arbitrary::<spec_fn(Self, Seq<char>, Option<serde_json::Value>) -> Result<serde_json::Value, JsonRpcError>>()(
            *self, method, params)
    }

    /// Answers `method` with `params`.
    fn handle(&self, method: &str, params: Option<serde_json::Value>) -> (r: Result<serde_json::Value, JsonRpcError>)
        ensures
            r == self.handle_spec(method@, params),
    ;
}

/// A message as read: not JSON at all, one value, or a batch of values;
/// each value either reads as a request or does not (`None`).
#[derive(Debug)]
pub enum Incoming {
    Unparsable,
    Single(Option<JsonRpcRequest>),
    Batch(Vec<Option<JsonRpcRequest>>),
}

/// What to write back: nothing, one response, or a batch of responses.
#[derive(Debug)]
pub enum Outgoing {
    Nothing,
    Single(JsonRpcResponse),
    Batch(Vec<JsonRpcResponse>),
}

/// A value that is a request of this protocol: version `2.0` and a method
/// that is not blank.
pub open spec fn valid_request(item: Option<JsonRpcRequest>) -> bool {
    item matches Some(r) && r.jsonrpc@ == jsonrpc_version() && trim(r.method@).len() > 0
}

/// A value that gets an answer: anything but a valid notification.
pub open spec fn answered(item: Option<JsonRpcRequest>) -> bool {
    !(valid_request(item) && item->0.id is None)
}

/// The response carrying a handler's outcome for the request `id`: its
/// result on success, its error on failure.
pub open spec fn carries(r: JsonRpcResponse, id: Option<serde_json::Value>,
    outcome: Result<serde_json::Value, JsonRpcError>) -> bool {
    &&& r.jsonrpc@ == jsonrpc_version()
    &&& r.id == id
    &&& match outcome {
        Ok(v) => r.result == Some(v) && r.error is None,
        Err(e) => r.result is None && r.error == Some(e),
    }
}

/// How a response answers a value: an invalid one gets `Invalid Request`
/// with a null id; a valid request gets, with its id, what the handler
/// answers for its method and parameters.
pub open spec fn answers<H: JsonRpcHandler>(handler: &H, item: Option<JsonRpcRequest>, r: JsonRpcResponse) -> bool {
    if valid_request(item) {
        carries(r, item->0.id, handler.handle_spec(item->0.method@, item->0.params))
    } else {
        is_error_response(r, ErrorCode::InvalidRequest)
    }
}

/// A response with a null id reporting `code`.
pub open spec fn is_error_response(resp: JsonRpcResponse, code: ErrorCode) -> bool {
    &&& resp.jsonrpc@ == jsonrpc_version()
    &&& resp.id is None
    &&& resp.result is None
    &&& resp.error matches Some(e) && is_error_of(e, code)
}

/// The values of a batch that get an answer, in order.
pub open spec fn answered_items(items: Seq<Option<JsonRpcRequest>>) -> Seq<Option<JsonRpcRequest>>
    decreases items.len(),
{
    if items.len() == 0 {
        seq![]
    } else if answered(items.last()) {
        answered_items(items.drop_last()).push(items.last())
    } else {
        answered_items(items.drop_last())
    }
}

/// Checks a value read as a request.
pub fn parse_request(item: Option<JsonRpcRequest>) -> (r: Result<JsonRpcRequest, JsonRpcError>)
    ensures
        valid_request(item) <==> r is Ok,
        r matches Ok(req) ==> item == Some(req),
        r matches Err(e) ==> is_error_of(e, ErrorCode::InvalidRequest),
{
    match item {
        None => Err(JsonRpcError::invalid_request()),
        Some(request) => {
            let version = chars_of(request.jsonrpc.as_str());
            let method = trim_chars(chars_of(request.method.as_str()).as_slice());
            if !chars_eq_str(version.as_slice(), "2.0") || method.len() == 0 {
                Err(JsonRpcError::invalid_request())
            } else {
                Ok(request)
            }
        },
    }
}

/// Processes one value: `None` for a notification (the handler still runs),
/// else the response.
pub fn process_value<H: JsonRpcHandler>(handler: &H, item: Option<JsonRpcRequest>) -> (r: Option<JsonRpcResponse>)
    ensures
        answered(item) <==> r is Some,
        r matches Some(resp) ==> answers(handler, item, resp),
{
    let request = match parse_request(item) {
        Ok(request) => request,
        Err(error) => return Some(JsonRpcResponse::error(None, error)),
    };
    if request.is_notification() {
        let _ = handler.handle(request.method.as_str(), request.params);
        return None;
    }
    let method = request.method;
    match handler.handle(method.as_str(), request.params) {
        Ok(result) => Some(JsonRpcResponse::success(request.id, result)),
        Err(error) => Some(JsonRpcResponse::error(request.id, error)),
    }
}

/// Processes a message: a value that is not JSON gets `Parse error`; an
/// empty batch gets `Invalid Request`; a batch gets the responses of its
/// answered values, or nothing when none is answered; a single value gets
/// its response, or nothing for a notification.
pub fn process_incoming<H: JsonRpcHandler>(handler: &H, incoming: Incoming) -> (r: Outgoing)
    ensures
        match incoming {
            Incoming::Unparsable => r matches Outgoing::Single(resp) && is_error_response(resp, ErrorCode::ParseError),
            Incoming::Single(item) => if answered(item) {
                r matches Outgoing::Single(resp) && answers(handler, item, resp)
            } else {
                r is Nothing
            },
            Incoming::Batch(items) => if items@.len() == 0 {
                r matches Outgoing::Single(resp) && is_error_response(resp, ErrorCode::InvalidRequest)
            } else if answered_items(items@).len() == 0 {
                r is Nothing
            } else {
                r matches Outgoing::Batch(v) && v@.len() == answered_items(items@).len()
                    && forall|k: int| 0 <= k < v@.len() ==> answers(handler, #[trigger] answered_items(items@)[k], v@[k])
            },
        },
{
    match incoming {
        Incoming::Unparsable => Outgoing::Single(JsonRpcResponse::error(None, JsonRpcError::parse_error())),
        Incoming::Single(item) => match process_value(handler, item) {
            Some(resp) => Outgoing::Single(resp),
            None => Outgoing::Nothing,
        },
        Incoming::Batch(items) => process_batch(handler, items),
    }
}

fn process_batch<H: JsonRpcHandler>(handler: &H, items: Vec<Option<JsonRpcRequest>>) -> (r: Outgoing)
    ensures
        if items@.len() == 0 {
            r matches Outgoing::Single(resp) && is_error_response(resp, ErrorCode::InvalidRequest)
        } else if answered_items(items@).len() == 0 {
            r is Nothing
        } else {
            r matches Outgoing::Batch(v) && v@.len() == answered_items(items@).len()
                && forall|k: int| 0 <= k < v@.len() ==> answers(handler, #[trigger] answered_items(items@)[k], v@[k])
        },
{
    if items.len() == 0 {
        return Outgoing::Single(JsonRpcResponse::error(None, JsonRpcError::invalid_request()));
    }
    let ghost all = items@;
    let mut rest = items;
    let mut responses: Vec<JsonRpcResponse> = Vec::new();
    let mut i: usize = 0;
    let n = rest.len();
    proof {
        assert(all.take(0) =~= Seq::<Option<JsonRpcRequest>>::empty());
        assert(rest@ =~= all.skip(0));
    }
    while i < n
        invariant
            n == all.len(),
            i <= n,
            rest@ == all.skip(i as int),
            responses@.len() == answered_items(all.take(i as int)).len(),
            forall|k: int| 0 <= k < responses@.len() ==>
                answers(handler, #[trigger] answered_items(all.take(i as int))[k], responses@[k]),
        decreases n - i,
    {
        let item = rest.remove(0);
        proof {
            assert(item == all[i as int]);
            assert(rest@ =~= all.skip(i as int + 1));
            assert(all.take(i as int + 1).drop_last() =~= all.take(i as int));
            assert(all.take(i as int + 1).last() == all[i as int]);
        }
        let ghost before = answered_items(all.take(i as int));
        match process_value(handler, item) {
            Some(resp) => {
                responses.push(resp);
                proof {
                    assert(answered_items(all.take(i as int + 1)) == before.push(all[i as int]));
                }
            },
            None => {
                proof {
                    assert(answered_items(all.take(i as int + 1)) == before);
                }
            },
        }
        i = i + 1;
    }
    proof { assert(all.take(n as int) =~= all); }
    if responses.len() == 0 {
        Outgoing::Nothing
    } else {
        Outgoing::Batch(responses)
    }
}

} // verus!
