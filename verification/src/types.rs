//! JSON-RPC 2.0 message types and the standard error answers.

use std::collections::VecDeque;

use vstd::prelude::*;

use crate::error::Error;
use crate::value::Value;

verus! {

/// Invalid JSON was received.
pub const PARSE_ERROR_CODE: i32 = -32700;

/// The JSON sent is not a valid request object.
pub const INVALID_REQUEST_CODE: i32 = -32600;

/// The method does not exist or is not available.
pub const METHOD_NOT_FOUND_CODE: i32 = -32601;

/// Invalid method parameters.
pub const INVALID_PARAMS_CODE: i32 = -32602;

/// Internal JSON-RPC error.
pub const INTERNAL_ERROR_CODE: i32 = -32603;

/// The parameters of a request: absent, positional or by name.
#[derive(Debug)]
pub enum RpcParams {
    Null,
    Array(VecDeque<Value>),
    Object(Vec<(String, Value)>),
}

impl Default for RpcParams {
    fn default() -> (r: Self)
        ensures
            r is Null,
    {
        RpcParams::Null
    }
}

/// `params` are what `value` stands for as request parameters: null for no
/// parameters, the array's items in order, or the object's members.
pub open spec fn params_match_value(params: RpcParams, value: Value) -> bool {
    match (params, value) {
        (RpcParams::Null, Value::Null) => true,
        (RpcParams::Array(items), Value::Array(values)) => items@ == values@,
        (RpcParams::Object(members), Value::Object(entries)) => members@ == entries@,
        _ => false,
    }
}

/// A value can stand as request parameters when it is null, an array or an
/// object.
pub open spec fn can_be_params(value: Value) -> bool {
    value is Null || value is Array || value is Object
}

/// Two sets of parameters are of one kind and hold the same items or
/// members in the same order.
pub open spec fn same_params(a: RpcParams, b: RpcParams) -> bool {
    match (a, b) {
        (RpcParams::Null, RpcParams::Null) => true,
        (RpcParams::Array(x), RpcParams::Array(y)) => x@ == y@,
        (RpcParams::Object(x), RpcParams::Object(y)) => x@ == y@,
        _ => false,
    }
}

/// Parameters written out as one value read back as the same parameters:
/// the value is one that `from_value` accepts, and what it gives back holds
/// the same items.
pub proof fn params_read_back(params: RpcParams, value: Value, read: RpcParams)
    requires
        params_match_value(params, value),
        params_match_value(read, value),
    ensures
        can_be_params(value),
        same_params(params, read),
{
}

/// Parameters stand for a value only when they keep its contents as they
/// are: null for null, the array's items in the same order, the object's
/// members in the same order; no other value stands for parameters.
pub proof fn params_keep_contents_in_order(params: RpcParams, value: Value)
    requires
        params_match_value(params, value),
    ensures
        value is Null <==> params is Null,
        value matches Value::Array(values) ==> (params matches RpcParams::Array(items) && items@
            == values@ && forall|i: int| 0 <= i < values@.len() ==> items@[i] == values@[i]),
        value matches Value::Object(entries) ==> (params matches RpcParams::Object(members)
            && members@ == entries@),
        !(value is Bool) && !(value is Number) && !(value is String),
{
}

/// The items of `values`, front to back, in a double-ended queue.
fn queue_from_vec(values: Vec<Value>) -> (r: VecDeque<Value>)
    ensures
        r@ == values@,
{
    let mut rest = values;
    let mut queue: VecDeque<Value> = VecDeque::new();
    while rest.len() > 0
        invariant
            rest@ + queue@ == values@,
        decreases rest.len(),
    {
        let ghost before = rest@;
        let item = rest.pop().unwrap();
        assert(before == rest@.push(item));
        queue.push_front(item);
        assert(rest@ + queue@ =~= before + (queue@.drop_first()));
    }
    assert(queue@ =~= rest@ + queue@);
    queue
}

/// The items of `queue`, front to back, in a vector.
fn vec_from_queue(queue: VecDeque<Value>) -> (r: Vec<Value>)
    ensures
        r@ == queue@,
{
    let mut rest = queue;
    let mut values: Vec<Value> = Vec::new();
    while rest.len() > 0
        invariant
            values@ + rest@ == queue@,
        decreases rest.len(),
    {
        let ghost before = rest@;
        let item = rest.pop_front().unwrap();
        values.push(item);
        assert(values@ + rest@ =~= values@.drop_last() + before);
    }
    assert(values@ =~= values@ + rest@);
    values
}

impl RpcParams {
    /// Reads `value` as request parameters; any value but null, an array or
    /// an object is refused.
    pub fn from_value(value: Value) -> (r: Result<RpcParams, Error>)
        ensures
            can_be_params(value) <==> r is Ok,
            r matches Ok(params) ==> params_match_value(params, value),
            value is Null ==> r matches Ok(RpcParams::Null),
            value matches Value::Array(values) ==> (r matches Ok(RpcParams::Array(items))
                && items@ == values@),
            value matches Value::Object(entries) ==> (r matches Ok(RpcParams::Object(members))
                && members@ == entries@),
            !can_be_params(value) ==> r == Err::<RpcParams, Error>(Error::InvalidArgumentType),
    {
        match value {
            Value::Null => Ok(RpcParams::Null),
            Value::Array(values) => Ok(RpcParams::Array(queue_from_vec(values))),
            Value::Object(members) => Ok(RpcParams::Object(members)),
            _ => Err(Error::InvalidArgumentType),
        }
    }

    /// These parameters as one JSON value.
    pub fn into_value(self) -> (r: Value)
        ensures
            params_match_value(self, r),
            self is Null ==> r is Null,
            self matches RpcParams::Array(items) ==> (r matches Value::Array(values) && values@
                == items@),
            self matches RpcParams::Object(members) ==> (r matches Value::Object(entries)
                && entries@ == members@),
    {
        match self {
            RpcParams::Null => Value::Null,
            RpcParams::Array(items) => Value::Array(vec_from_queue(items)),
            RpcParams::Object(members) => Value::Object(members),
        }
    }
}

/// The protocol version a message declares.
#[derive(Debug, Clone, Copy, PartialEq, Eq, Structural)]
pub enum Version {
    V1,
    V2,
}

impl Default for Version {
    fn default() -> (r: Self)
        ensures
            r == Version::V2,
    {
        Version::V2
    }
}

/// The text of a version on the wire.
pub open spec fn version_text(v: Version) -> Seq<char> {
    match v {
        Version::V1 => "1.0"@,
        Version::V2 => "2.0"@,
    }
}

/// The version that `text` names, if any.
pub open spec fn parsed_version(text: Seq<char>) -> Option<Version> {
    if text == "1.0"@ {
        Some(Version::V1)
    } else if text == "2.0"@ {
        Some(Version::V2)
    } else {
        None
    }
}

/// A version reads back from the text it is written as.
pub proof fn version_text_reads_back(v: Version)
    ensures
        parsed_version(version_text(v)) == Some(v),
{
    reveal_strlit("1.0");
    reveal_strlit("2.0");
    assert("1.0"@[0] != "2.0"@[0]);
}

impl Version {
    /// The text this version is written as: `"1.0"` or `"2.0"`.
    pub fn as_str(&self) -> (s: &'static str)
        ensures
            s@ == version_text(*self),
    {
        match self {
            Version::V1 => "1.0",
            Version::V2 => "2.0",
        }
    }

    /// Reads a version from its text; any text other than `"1.0"` and
    /// `"2.0"` is no version.
    pub fn parse(text: &str) -> (r: Option<Version>)
        ensures
            r == parsed_version(text@),
    {
        let owned = text.to_owned();
        if owned == "1.0".to_owned() {
            Some(Version::V1)
        } else if owned == "2.0".to_owned() {
            Some(Version::V2)
        } else {
            None
        }
    }
}


/// The identifier of a request; `Null` marks a notification, which gets no
/// answer.
#[derive(Debug, Clone)]
pub enum Id {
    Null,
    Number(u64),
    String(String),
}

impl Default for Id {
    fn default() -> (r: Self)
        ensures
            r is Null,
    {
        Id::Null
    }
}

/// Two identifiers are the same when they are of one kind and hold the same
/// number or the same text.
pub open spec fn same_id(a: Id, b: Id) -> bool {
    match (a, b) {
        (Id::Null, Id::Null) => true,
        (Id::Number(x), Id::Number(y)) => x == y,
        (Id::String(x), Id::String(y)) => x@ == y@,
        _ => false,
    }
}

impl PartialEq for Id {
    fn eq(&self, other: &Self) -> (r: bool) {
        match (self, other) {
            (Id::Null, Id::Null) => true,
            (Id::Number(x), Id::Number(y)) => *x == *y,
            (Id::String(x), Id::String(y)) => *x == *y,
            _ => false,
        }
    }
}

impl vstd::std_specs::cmp::PartialEqSpecImpl for Id {
    open spec fn obeys_eq_spec() -> bool {
        true
    }

    open spec fn eq_spec(&self, other: &Self) -> bool {
        same_id(*self, *other)
    }
}

impl Eq for Id {
}

impl Id {
    /// Whether this identifier marks a notification.
    pub fn is_null(&self) -> (r: bool)
        ensures
            r == (*self is Null),
    {
        match self {
            Id::Null => true,
            _ => false,
        }
    }
}

/// A call of `method` with `params`.
#[derive(Debug)]
pub struct RpcRequest {
    pub jsonrpc: Version,
    pub id: Id,
    pub method: String,
    pub params: RpcParams,
}

impl RpcRequest {
    /// A version 2.0 request.
    pub fn new(id: Id, method: &str, params: RpcParams) -> (r: Self)
        ensures
            r.jsonrpc == Version::V2,
            r.id == id,
            r.method@ == method@,
            r.params == params,
    {
        RpcRequest { jsonrpc: Version::V2, method: method.to_owned(), id, params }
    }

    /// The notification of `method` that a room or a connection sends out:
    /// no id, and `args` as parameters, which must be null, an array or an
    /// object.
    pub fn notification(method: &str, args: Value) -> (r: Result<RpcRequest, Error>)
        ensures
            can_be_params(args) <==> r is Ok,
            r matches Ok(request) ==> {
                &&& request.jsonrpc == Version::V2
                &&& request.id is Null
                &&& request.method@ == method@
                &&& params_match_value(request.params, args)
                &&& args is Null ==> request.params is Null
                &&& args matches Value::Array(values) ==> (request.params matches RpcParams::Array(
                    items,
                ) && items@ == values@)
                &&& args matches Value::Object(entries) ==> (request.params matches RpcParams::Object(
                    members,
                ) && members@ == entries@)
            },
            !can_be_params(args) ==> r == Err::<RpcRequest, Error>(Error::InvalidArgumentType),
    {
        let params = RpcParams::from_value(args)?;
        Ok(RpcRequest::new(Id::Null, method, params))
    }
}

/// An error answer: a code, a short text and further data.
#[derive(Debug)]
pub struct ErrorResponse {
    pub code: i32,
    pub message: String,
    pub data: Value,
}

/// `e` has the given code, text and data.
pub open spec fn error_is(e: ErrorResponse, code: i32, message: Seq<char>, data: Value) -> bool {
    &&& e.code == code
    &&& e.message@ == message
    &&& e.data == data
}

/// The answer to a request.
#[derive(Debug)]
pub enum RpcResponse {
    Success { jsonrpc: Option<Version>, id: Id, result: Value },
    Error { jsonrpc: Option<Version>, id: Id, error: ErrorResponse },
}

/// `r` is a version 2.0 error answer to `id` with the given code, text and
/// data.
pub open spec fn error_answer_is(
    r: RpcResponse,
    id: Id,
    code: i32,
    message: Seq<char>,
    data: Value,
) -> bool {
    &&& r is Error
    &&& r->Error_jsonrpc == Some(Version::V2)
    &&& r->Error_id == id
    &&& error_is(r->Error_error, code, message, data)
}

/// One message or a batch of them.
#[derive(Debug)]
pub enum Message<T> {
    Single(T),
    Batch(Vec<T>),
}

impl ErrorResponse {
    /// The message could not be read as JSON.
    pub fn parse_error(data: Value) -> (r: Self)
        ensures
            error_is(r, PARSE_ERROR_CODE, "Failed to parse JSON"@, data),
    {
        ErrorResponse { code: PARSE_ERROR_CODE, message: "Failed to parse JSON".to_owned(), data }
    }

    /// The message is no valid request.
    pub fn invalid_request(data: Value) -> (r: Self)
        ensures
            error_is(r, INVALID_REQUEST_CODE, "Invalid request"@, data),
    {
        ErrorResponse { code: INVALID_REQUEST_CODE, message: "Invalid request".to_owned(), data }
    }

    /// No handler answers the requested method.
    pub fn method_not_found(data: Value) -> (r: Self)
        ensures
            error_is(r, METHOD_NOT_FOUND_CODE, "Method not found"@, data),
    {
        ErrorResponse {
            code: METHOD_NOT_FOUND_CODE,
            message: "Method not found".to_owned(),
            data,
        }
    }

    /// The parameters do not fit the handler.
    pub fn invalid_params(data: Value) -> (r: Self)
        ensures
            error_is(r, INVALID_PARAMS_CODE, "Invalid params"@, data),
    {
        ErrorResponse { code: INVALID_PARAMS_CODE, message: "Invalid params".to_owned(), data }
    }

    /// Something failed on the serving side.
    pub fn internal_error(data: Value) -> (r: Self)
        ensures
            error_is(r, INTERNAL_ERROR_CODE, "Internal error"@, data),
    {
        ErrorResponse { code: INTERNAL_ERROR_CODE, message: "Internal error".to_owned(), data }
    }
}

impl RpcResponse {
    /// The parse-error answer to `id`.
    pub fn parse_error(id: Id, data: Value) -> (r: Self)
        ensures
            error_answer_is(r, id, PARSE_ERROR_CODE, "Failed to parse JSON"@, data),
    {
        RpcResponse::Error {
            jsonrpc: Some(Version::V2),
            error: ErrorResponse::parse_error(data),
            id,
        }
    }

    /// The invalid-request answer to `id`.
    pub fn invalid_request(id: Id, data: Value) -> (r: Self)
        ensures
            error_answer_is(r, id, INVALID_REQUEST_CODE, "Invalid request"@, data),
    {
        RpcResponse::Error {
            id,
            jsonrpc: Some(Version::V2),
            error: ErrorResponse::invalid_request(data),
        }
    }

    /// The method-not-found answer to `id`.
    pub fn method_not_found(id: Id, data: Value) -> (r: Self)
        ensures
            error_answer_is(r, id, METHOD_NOT_FOUND_CODE, "Method not found"@, data),
    {
        RpcResponse::Error {
            id,
            jsonrpc: Some(Version::V2),
            error: ErrorResponse::method_not_found(data),
        }
    }

    /// The invalid-params answer to `id`.
    pub fn invalid_params(id: Id, data: Value) -> (r: Self)
        ensures
            error_answer_is(r, id, INVALID_PARAMS_CODE, "Invalid params"@, data),
    {
        RpcResponse::Error {
            id,
            jsonrpc: Some(Version::V2),
            error: ErrorResponse::invalid_params(data),
        }
    }

    /// The internal-error answer to `id`.
    pub fn internal_error(id: Id, data: Value) -> (r: Self)
        ensures
            error_answer_is(r, id, INTERNAL_ERROR_CODE, "Internal error"@, data),
    {
        RpcResponse::Error {
            id,
            jsonrpc: Some(Version::V2),
            error: ErrorResponse::internal_error(data),
        }
    }
}

} // verus!
