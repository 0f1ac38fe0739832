//! JSON-RPC 2.0 message types. Request ids and free-form JSON payloads are
//! carried through unchanged; the parameters that requests are routed on are
//! held as plain values.

use vstd::prelude::*;

verus! {

#[verifier::external_type_specification]
#[verifier::external_body]
pub struct ExJsonValue(serde_json::Value);

/// Protocol version exchanged during the handshake.
pub const PROTOCOL_VERSION: u32 = 1;

/// JSON-RPC 2.0 standard error codes.
pub const PARSE_ERROR: i32 = -32700;

pub const INVALID_REQUEST: i32 = -32600;

pub const METHOD_NOT_FOUND: i32 = -32601;

pub const INVALID_PARAMS: i32 = -32602;

pub const INTERNAL_ERROR: i32 = -32603;

/// Error code of a failure reported by a request handler.
pub const HANDLER_ERROR: i32 = -32000;

/// A parameter value, as far as requests are routed on it.
pub enum ParamValue {
    /// A JSON string.
    Str(String),
    /// A JSON number that is a non-negative integer fitting in `u64`.
    Uint(u64),
    /// A JSON boolean.
    Bool(bool),
    /// Anything else (null, other numbers, arrays, objects).
    Other,
}

pub enum ParamValueView {
    Str(Seq<char>),
    Uint(u64),
    Bool(bool),
    Other,
}

impl View for ParamValue {
    type V = ParamValueView;

    open spec fn view(&self) -> ParamValueView {
        match self {
            ParamValue::Str(s) => ParamValueView::Str(s@),
            ParamValue::Uint(n) => ParamValueView::Uint(*n),
            ParamValue::Bool(b) => ParamValueView::Bool(*b),
            ParamValue::Other => ParamValueView::Other,
        }
    }
}

/// The members of a request's `params` object (none when it is not an object).
pub struct Params {
    pub entries: Vec<(String, ParamValue)>,
}

impl View for Params {
    type V = Seq<(Seq<char>, ParamValueView)>;

    open spec fn view(&self) -> Seq<(Seq<char>, ParamValueView)> {
        self.entries@.map_values(|e: (String, ParamValue)| (e.0@, e.1@))
    }
}

/// The value of the first member named `key`.
pub open spec fn param_lookup(p: Seq<(Seq<char>, ParamValueView)>, key: Seq<char>) -> Option<
    ParamValueView,
>
    decreases p.len(),
{
    if p.len() == 0 {
        None
    } else if p[0].0 == key {
        Some(p[0].1)
    } else {
        param_lookup(p.drop_first(), key)
    }
}

/// `params.get(key).and_then(Value::as_str)`.
pub open spec fn param_str(p: Seq<(Seq<char>, ParamValueView)>, key: Seq<char>) -> Option<
    Seq<char>,
> {
    match param_lookup(p, key) {
        Some(ParamValueView::Str(s)) => Some(s),
        _ => None,
    }
}

/// `params.get(key).and_then(Value::as_u64)`.
pub open spec fn param_u64(p: Seq<(Seq<char>, ParamValueView)>, key: Seq<char>) -> Option<u64> {
    match param_lookup(p, key) {
        Some(ParamValueView::Uint(n)) => Some(n),
        _ => None,
    }
}

/// `params.get(key).and_then(Value::as_bool)`.
pub open spec fn param_bool(p: Seq<(Seq<char>, ParamValueView)>, key: Seq<char>) -> Option<bool> {
    match param_lookup(p, key) {
        Some(ParamValueView::Bool(b)) => Some(b),
        _ => None,
    }
}

/// Whether two strings hold the same text.
pub fn text_eq(a: &String, b: &str) -> (r: bool)
    ensures
        r == (a@ == b@),
{
    let t = String::from_str(b);
    a.eq(&t)
}

impl Params {
    pub fn new() -> (r: Params)
        ensures
            r@.len() == 0,
    {
        Params { entries: Vec::new() }
    }

    /// Adds a member at the end.
    pub fn push(&mut self, key: String, value: ParamValue)
        ensures
            final(self)@ == old(self)@.push((key@, value@)),
    {
        self.entries.push((key, value));
        assert(self@ =~= old(self)@.push((key@, value@)));
    }

    fn lookup(&self, key: &str) -> (r: Option<&ParamValue>)
        ensures
            match r {
                Some(v) => param_lookup(self@, key@) == Some(v@),
                None => param_lookup(self@, key@) is None,
            },
    {
        let mut i: usize = 0;
        assert(self@.subrange(0, self@.len() as int) =~= self@);
        while i < self.entries.len()
            invariant
                i <= self.entries@.len(),
                param_lookup(self@, key@) == param_lookup(
                    self@.subrange(i as int, self@.len() as int),
                    key@,
                ),
            decreases self.entries.len() - i,
        {
            let ghost rest = self@.subrange(i as int, self@.len() as int);
            assert(rest[0] == (self.entries@[i as int].0@, self.entries@[i as int].1@));
            if text_eq(&self.entries[i].0, key) {
                return Some(&self.entries[i].1);
            }
            assert(rest.drop_first() =~= self@.subrange(i + 1, self@.len() as int));
            i = i + 1;
        }
        assert(self@.subrange(i as int, self@.len() as int).len() == 0);
        None
    }

    /// The string member `key`, if present and a string.
    pub fn get_str(&self, key: &str) -> (r: Option<String>)
        ensures
            match param_str(self@, key@) {
                Some(s) => r matches Some(t) && t@ == s,
                None => r is None,
            },
    {
        match self.lookup(key) {
            Some(ParamValue::Str(s)) => Some(s.clone()),
            _ => None,
        }
    }

    /// The member `key`, if present and a non-negative integer.
    pub fn get_u64(&self, key: &str) -> (r: Option<u64>)
        ensures
            r == param_u64(self@, key@),
    {
        match self.lookup(key) {
            Some(ParamValue::Uint(n)) => Some(*n),
            _ => None,
        }
    }

    /// The member `key`, if present and a boolean.
    pub fn get_bool(&self, key: &str) -> (r: Option<bool>)
        ensures
            r == param_bool(self@, key@),
    {
        match self.lookup(key) {
            Some(ParamValue::Bool(b)) => Some(*b),
            _ => None,
        }
    }
}

/// An incoming JSON-RPC request or notification. A notification is simply a
/// request with no `id`.
pub struct Request {
    pub jsonrpc: String,
    pub id: Option<serde_json::Value>,
    pub method: String,
    pub params: Params,
}

pub struct RequestView {
    pub id: Option<serde_json::Value>,
    pub method: Seq<char>,
    pub params: Seq<(Seq<char>, ParamValueView)>,
}

impl View for Request {
    type V = RequestView;

    open spec fn view(&self) -> RequestView {
        RequestView { id: self.id, method: self.method@, params: self.params@ }
    }
}

impl Request {
    pub fn new(id: Option<serde_json::Value>, method: String, params: Params) -> (r: Request)
        ensures
            r.jsonrpc@ == "2.0"@,
            r.id == id,
            r.method@ == method@,
            r.params@ == params@,
    {
        Request { jsonrpc: String::from_str("2.0"), id, method, params }
    }

    /// True when this is a notification (no `id`, no response expected).
    pub fn is_notification(&self) -> (r: bool)
        ensures
            r == self.id is None,
    {
        self.id.is_none()
    }
}

/// The error member of a response.
pub struct ResponseError {
    pub code: i32,
    pub message: String,
    pub data: Option<serde_json::Value>,
}

/// The result member of a successful response.
pub enum Reply {
    /// `{ runtime_version, protocol_version }`.
    Handshake { runtime_version: String, protocol_version: u32 },
    /// `{ ok: true }`.
    Acknowledged,
    /// A result built elsewhere.
    Json(serde_json::Value),
}

pub enum ReplyView {
    Handshake { runtime_version: Seq<char>, protocol_version: u32 },
    Acknowledged,
    Json(serde_json::Value),
}

impl View for Reply {
    type V = ReplyView;

    open spec fn view(&self) -> ReplyView {
        match self {
            Reply::Handshake { runtime_version, protocol_version } => ReplyView::Handshake {
                runtime_version: runtime_version@,
                protocol_version: *protocol_version,
            },
            Reply::Acknowledged => ReplyView::Acknowledged,
            Reply::Json(v) => ReplyView::Json(*v),
        }
    }
}

/// An outgoing JSON-RPC response, keyed by the request's `id` (absent: `null`).
pub struct Response {
    pub jsonrpc: String,
    pub id: Option<serde_json::Value>,
    pub result: Option<Reply>,
    pub error: Option<ResponseError>,
}

pub struct ResponseView {
    pub jsonrpc: Seq<char>,
    pub id: Option<serde_json::Value>,
    pub result: Option<ReplyView>,
    /// Code, message and data.
    pub error: Option<(i32, Seq<char>, Option<serde_json::Value>)>,
}

impl View for Response {
    type V = ResponseView;

    open spec fn view(&self) -> ResponseView {
        ResponseView {
            jsonrpc: self.jsonrpc@,
            id: self.id,
            result: match self.result {
                Some(r) => Some(r@),
                None => None,
            },
            error: match self.error {
                Some(e) => Some((e.code, e.message@, e.data)),
                None => None,
            },
        }
    }
}

pub open spec fn success_view(id: Option<serde_json::Value>, result: ReplyView) -> ResponseView {
    ResponseView { jsonrpc: "2.0"@, id, result: Some(result), error: None }
}

pub open spec fn error_view(id: Option<serde_json::Value>, code: i32, message: Seq<char>) -> ResponseView {
    ResponseView { jsonrpc: "2.0"@, id, result: None, error: Some((code, message, None)) }
}

impl Response {
    pub fn success(id: Option<serde_json::Value>, result: Reply) -> (r: Response)
        ensures
            r@ == success_view(id, result@),
            r.jsonrpc@ == "2.0"@,
    {
        Response { jsonrpc: String::from_str("2.0"), id, result: Some(result), error: None }
    }

    pub fn error(id: Option<serde_json::Value>, code: i32, message: String) -> (r: Response)
        ensures
            r@ == error_view(id, code, message@),
            r.jsonrpc@ == "2.0"@,
            r.error matches Some(e) && e.data is None,
    {
        Response {
            jsonrpc: String::from_str("2.0"),
            id,
            result: None,
            error: Some(ResponseError { code, message, data: None }),
        }
    }
}

/// An outgoing JSON-RPC notification (no `id`); used for streaming events.
pub struct Notification {
    pub jsonrpc: String,
    pub method: String,
    pub params: serde_json::Value,
}

impl Notification {
    pub fn new(method: String, params: serde_json::Value) -> (r: Notification)
        ensures
            r.jsonrpc@ == "2.0"@,
            r.method@ == method@,
            r.params == params,
    {
        Notification { jsonrpc: String::from_str("2.0"), method, params }
    }
}

} // verus!
