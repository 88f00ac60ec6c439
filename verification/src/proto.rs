//! The message model of JSON-RPC and the taxonomy of its errors.

use vstd::prelude::*;
use vstd::string::*;
use crate::proto::spec20::errors;
use crate::text::{encoder_error_description, parser_error_description};
use crate::value::{Object, Value, ValueView};

pub mod spec20;
pub mod trans;

verus! {

/// The model of an optional value.
pub open spec fn option_view(value: Option<Value>) -> Option<ValueView> {
    match value {
        Some(v) => Some(v@),
        None => None,
    }
}

/// The model of a request.
pub struct RequestView {
    pub method: Seq<char>,
    pub params: Option<ValueView>,
    pub id: Option<ValueView>,
}

/// A call, or a notification where `id` is absent.
#[derive(Debug, PartialEq)]
pub struct Request {
    pub method: String,
    pub params: Option<Value>,
    pub id: Option<Value>,
}

impl View for Request {
    type V = RequestView;

    open spec fn view(&self) -> RequestView {
        RequestView {
            method: self.method@,
            params: option_view(self.params),
            id: option_view(self.id),
        }
    }
}

impl Clone for Request {
    fn clone(&self) -> (r: Request)
        ensures
            r@ == self@,
    {
        Request { method: self.method.clone(), params: self.params.clone(), id: self.id.clone() }
    }
}

impl Request {
    /// A request for `method`; it is a notification where `id` is `None`.
    pub fn new(method: String, params: Option<Value>, id: Option<Value>) -> (r: Request)
        ensures
            r.method == method,
            r.params == params,
            r.id == id,
    {
        Request { method: method, params: params, id: id }
    }

    /// A request that carries no parameters.
    pub fn without_params(method: String, id: Option<Value>) -> (r: Request)
        ensures
            r.method == method,
            r.params is None,
            r.id == id,
    {
        Request::new(method, None, id)
    }

    /// A notification: a request without an id, which expects no response.
    pub fn new_notify(method: String, params: Option<Value>) -> (r: Request)
        ensures
            r.method == method,
            r.params == params,
            r.id is None,
    {
        Request { method: method, params: params, id: None }
    }
}

/// The model of a protocol error.
pub struct ProtocolErrorView {
    pub code: i64,
    pub message: Seq<char>,
    pub data: Option<ValueView>,
}

/// The error object that a response carries on the wire.
#[derive(Debug)]
pub struct ProtocolError {
    pub code: i64,
    pub message: String,
    pub data: Option<Value>,
}

impl View for ProtocolError {
    type V = ProtocolErrorView;

    open spec fn view(&self) -> ProtocolErrorView {
        ProtocolErrorView {
            code: self.code,
            message: self.message@,
            data: option_view(self.data),
        }
    }
}

impl Clone for ProtocolError {
    fn clone(&self) -> (r: ProtocolError)
        ensures
            r@ == self@,
    {
        ProtocolError {
            code: self.code,
            message: self.message.clone(),
            data: self.data.clone(),
        }
    }
}

/// The members of the error object of `error`: `code`, `message`, and `data`
/// where there is one.
pub open spec fn protocol_error_members(error: ProtocolErrorView) -> Map<Seq<char>, ValueView> {
    let base = Map::<Seq<char>, ValueView>::empty().insert(
        "code"@,
        ValueView::I64(error.code),
    ).insert("message"@, ValueView::String(error.message));
    match error.data {
        Some(data) => base.insert("data"@, data),
        None => base,
    }
}

impl ProtocolError {
    /// An error object with the given code, message and data.
    pub fn new(code: i64, message: String, data: Option<Value>) -> (r: ProtocolError)
        ensures
            r.code == code,
            r.message == message,
            r.data == data,
    {
        ProtocolError { code: code, message: message, data: data }
    }

    /// The error object as a JSON value.
    pub fn to_json(&self) -> (r: Value)
        ensures
            r@ == ValueView::Object(protocol_error_members(self@)),
    {
        let mut obj = Object::new();
        obj.insert(String::from_str("code"), Value::I64(self.code));
        obj.insert(String::from_str("message"), Value::String(self.message.clone()));
        if let Some(data) = self.data.clone() {
            obj.insert(String::from_str("data"), data);
        }
        Value::Object(obj)
    }
}

/// The model of a response.
pub struct ResponseView {
    pub result: Option<ValueView>,
    pub error: Option<ValueView>,
    pub id: ValueView,
}

/// The answer to a call.
#[derive(Debug, PartialEq)]
pub struct Response {
    pub result: Option<Value>,
    pub error: Option<Value>,
    pub id: Value,
}

impl View for Response {
    type V = ResponseView;

    open spec fn view(&self) -> ResponseView {
        ResponseView {
            result: option_view(self.result),
            error: option_view(self.error),
            id: self.id@,
        }
    }
}

impl Clone for Response {
    fn clone(&self) -> (r: Response)
        ensures
            r@ == self@,
    {
        Response { result: self.result.clone(), error: self.error.clone(), id: self.id.clone() }
    }
}

impl Response {
    /// A response with the given members. `result` and `error` are taken as
    /// they come: use `result` or `error` below to set exactly one.
    pub fn new(result: Option<Value>, error: Option<Value>, id: Value) -> (r: Response)
        ensures
            r.result == result,
            r.error == error,
            r.id == id,
    {
        Response { result: result, error: error, id: id }
    }

    /// A response that carries the result of a call.
    pub fn result(result: Value, id: Value) -> (r: Response)
        ensures
            r.result == Some(result),
            r.error is None,
            r.id == id,
    {
        Response::new(Some(result), None, id)
    }

    /// A response that carries the error object of `err`.
    pub fn error(err: ProtocolError, id: Value) -> (r: Response)
        ensures
            r.result is None,
            r@.error == Some(ValueView::Object(protocol_error_members(err@))),
            r.id == id,
    {
        Response::new(None, Some(err.to_json()), id)
    }
}

/// What went wrong when an envelope was read.
#[derive(Debug, Clone, Copy, PartialEq, Eq, Structural)]
pub enum InternalErrorKind {
    InvalidVersion,
    InvalidResponse,
    MethodNotFound,
    InvalidRequest,
}

/// The model of an internal error.
pub struct InternalErrorView {
    pub kind: InternalErrorKind,
    pub desc: Seq<char>,
    pub detail: Option<Seq<char>>,
}

/// A local classification of a failure. It is never sent as it is:
/// `Error::to_protocol_error` gives the error object that stands for it.
#[derive(Debug)]
pub struct InternalError {
    kind: InternalErrorKind,
    desc: &'static str,
    detail: Option<String>,
}

impl View for InternalError {
    type V = InternalErrorView;

    closed spec fn view(&self) -> InternalErrorView {
        InternalErrorView {
            kind: self.kind,
            desc: self.desc@,
            detail: match self.detail {
                Some(d) => Some(d@),
                None => None,
            },
        }
    }
}

impl InternalError {
    /// A failure of the given kind, with a fixed description and, where
    /// there is more to say, a detail.
    pub fn new(kind: InternalErrorKind, desc: &'static str, detail: Option<String>) -> (r:
        InternalError)
        ensures
            r@ == (InternalErrorView {
                kind: kind,
                desc: desc@,
                detail: match detail {
                    Some(d) => Some(d@),
                    None => None,
                },
            }),
    {
        InternalError { kind: kind, desc: desc, detail: detail }
    }

    /// The kind of the failure.
    pub fn kind(&self) -> (r: InternalErrorKind)
        ensures
            r == self@.kind,
    {
        self.kind
    }

    /// The fixed description of the failure.
    pub fn desc(&self) -> (r: &'static str)
        ensures
            r@ == self@.desc,
    {
        self.desc
    }

    /// The detail of the failure, if it has one.
    pub fn detail(&self) -> (r: Option<&str>)
        ensures
            match r {
                Some(d) => self@.detail == Some(d@),
                None => self@.detail is None,
            },
    {
        match &self.detail {
            Some(d) => Some(d.as_str()),
            None => None,
        }
    }
}

/// Every failure of the codec and of the exchange.
#[derive(Debug)]
pub enum Error {
    /// The transport failed; the text is its description of the failure.
    IoError(String),
    EncoderError(rustc_serialize::json::EncoderError),
    ParserError(rustc_serialize::json::ParserError),
    ProtocolError(ProtocolError),
    InternalError(InternalError),
    NotUtf8,
}

impl From<rustc_serialize::json::EncoderError> for Error {
    fn from(err: rustc_serialize::json::EncoderError) -> (r: Error) {
        Error::EncoderError(err)
    }
}

impl vstd::std_specs::convert::FromSpecImpl<rustc_serialize::json::EncoderError> for Error {
    open spec fn obeys_from_spec() -> bool {
        true
    }

    open spec fn from_spec(err: rustc_serialize::json::EncoderError) -> Error {
        Error::EncoderError(err)
    }
}

impl From<rustc_serialize::json::ParserError> for Error {
    fn from(err: rustc_serialize::json::ParserError) -> (r: Error) {
        Error::ParserError(err)
    }
}

impl vstd::std_specs::convert::FromSpecImpl<rustc_serialize::json::ParserError> for Error {
    open spec fn obeys_from_spec() -> bool {
        true
    }

    open spec fn from_spec(err: rustc_serialize::json::ParserError) -> Error {
        Error::ParserError(err)
    }
}

/// The error object with a text, where there is one, as its `data`.
pub open spec fn error_with_text(code: i64, message: Seq<char>, text: Option<Seq<char>>)
    -> ProtocolErrorView {
    ProtocolErrorView {
        code: code,
        message: message,
        data: match text {
            Some(t) => Some(ValueView::String(t)),
            None => None,
        },
    }
}

/// The error object that stands on the wire for each failure.
pub open spec fn wire_error(e: Error) -> ProtocolErrorView {
    match e {
        Error::IoError(description) => error_with_text(
            errors::ERRCODE_IO_FAILURE,
            "Server error"@,
            Some(description@),
        ),
        Error::EncoderError(_) => error_with_text(
            errors::ERRCODE_ENCODE_FAILURE,
            "Server error"@,
            Some("encoder error"@),
        ),
        Error::ParserError(_) => error_with_text(
            errors::ERRCODE_PARSE_ERROR,
            "Parse error"@,
            Some("failed to parse json"@),
        ),
        Error::ProtocolError(err) => err@,
        Error::InternalError(err) => match err@.kind {
            InternalErrorKind::InvalidVersion | InternalErrorKind::InvalidRequest => error_with_text(
                errors::ERRCODE_INVALID_REQUEST,
                "Invalid Request"@,
                err@.detail,
            ),
            InternalErrorKind::InvalidResponse => error_with_text(
                errors::ERRCODE_INTERNAL_ERROR,
                "Internal error"@,
                err@.detail,
            ),
            InternalErrorKind::MethodNotFound => error_with_text(
                errors::ERRCODE_METHOD_NOT_FOUND,
                "Method not found"@,
                err@.detail,
            ),
        },
        Error::NotUtf8 => error_with_text(errors::ERRCODE_INVALID_REQUEST, "Invalid Request"@, None),
    }
}

/// A text as the `data` of an error object.
fn text_detail(text: Option<&str>) -> (r: Option<Value>)
    ensures
        option_view(r) == match text {
            Some(t) => Some(ValueView::String(t@)),
            None => None,
        },
{
    match text {
        Some(t) => Some(Value::String(String::from_str(t))),
        None => None,
    }
}

impl Error {
    /// The error object that tells the peer of this failure.
    pub fn to_protocol_error(&self) -> (r: ProtocolError)
        ensures
            r@ == wire_error(*self),
    {
        match self {
            Error::IoError(description) => {
                errors::ServerError::with_detail(errors::ERRCODE_IO_FAILURE, Some(Value::String(description.clone())))
            },
            Error::EncoderError(err) => {
                errors::ServerError::with_detail(
                    errors::ERRCODE_ENCODE_FAILURE,
                    Some(Value::String(encoder_error_description(err))),
                )
            },
            Error::ParserError(err) => {
                let detail = Some(Value::String(parser_error_description(err)));
                errors::ParseError::with_detail(detail)
            },
            Error::ProtocolError(err) => err.clone(),
            Error::InternalError(err) => {
                match err.kind() {
                    InternalErrorKind::InvalidVersion | InternalErrorKind::InvalidRequest => {
                        errors::InvalidRequest::with_detail(text_detail(err.detail()))
                    },
                    InternalErrorKind::InvalidResponse => {
                        errors::InternalError::with_detail(text_detail(err.detail()))
                    },
                    InternalErrorKind::MethodNotFound => {
                        errors::MethodNotFound::with_detail(text_detail(err.detail()))
                    },
                }
            },
            Error::NotUtf8 => errors::InvalidRequest::new(),
        }
    }
}

/// What the codec and the endpoints return.
pub type Result<T> = std::result::Result<T, Error>;

} // verus!
