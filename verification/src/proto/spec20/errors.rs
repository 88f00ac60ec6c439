//! The catalogue of standard error objects.

use vstd::prelude::*;
use vstd::string::*;
use crate::proto::{ProtocolError, ProtocolErrorView, option_view};
use crate::value::Value;

verus! {

pub const ERRCODE_PARSE_ERROR: i64 = -32700;
pub const ERRCODE_INVALID_REQUEST: i64 = -32600;
pub const ERRCODE_METHOD_NOT_FOUND: i64 = -32601;
pub const ERRCODE_INVALID_PARAMS: i64 = -32602;
pub const ERRCODE_INTERNAL_ERROR: i64 = -32603;

/// The server error that reports a failure of the transport.
pub const ERRCODE_IO_FAILURE: i64 = -32000;

/// The server error that reports a value that could not be encoded.
pub const ERRCODE_ENCODE_FAILURE: i64 = -32001;

/// Invalid JSON was received.
pub struct ParseError;

impl ParseError {
    pub fn new() -> (r: ProtocolError)
        ensures
            r@ == (ProtocolErrorView { code: ERRCODE_PARSE_ERROR, message: "Parse error"@, data: None }),
    {
        ParseError::with_detail(None)
    }

    pub fn with_detail(detail: Option<Value>) -> (r: ProtocolError)
        ensures
            r@ == (ProtocolErrorView {
                code: ERRCODE_PARSE_ERROR,
                message: "Parse error"@,
                data: option_view(detail),
            }),
    {
        ProtocolError::new(ERRCODE_PARSE_ERROR, String::from_str("Parse error"), detail)
    }
}

/// The JSON sent is not a valid request.
pub struct InvalidRequest;

impl InvalidRequest {
    pub fn new() -> (r: ProtocolError)
        ensures
            r@ == (ProtocolErrorView { code: ERRCODE_INVALID_REQUEST, message: "Invalid Request"@, data: None }),
    {
        InvalidRequest::with_detail(None)
    }

    pub fn with_detail(detail: Option<Value>) -> (r: ProtocolError)
        ensures
            r@ == (ProtocolErrorView {
                code: ERRCODE_INVALID_REQUEST,
                message: "Invalid Request"@,
                data: option_view(detail),
            }),
    {
        ProtocolError::new(ERRCODE_INVALID_REQUEST, String::from_str("Invalid Request"), detail)
    }
}

/// The method does not exist.
pub struct MethodNotFound;

impl MethodNotFound {
    pub fn new() -> (r: ProtocolError)
        ensures
            r@ == (ProtocolErrorView { code: ERRCODE_METHOD_NOT_FOUND, message: "Method not found"@, data: None }),
    {
        MethodNotFound::with_detail(None)
    }

    pub fn with_detail(detail: Option<Value>) -> (r: ProtocolError)
        ensures
            r@ == (ProtocolErrorView {
                code: ERRCODE_METHOD_NOT_FOUND,
                message: "Method not found"@,
                data: option_view(detail),
            }),
    {
        ProtocolError::new(ERRCODE_METHOD_NOT_FOUND, String::from_str("Method not found"), detail)
    }
}

/// The parameters of the method are invalid.
pub struct InvalidParams;

impl InvalidParams {
    pub fn new() -> (r: ProtocolError)
        ensures
            r@ == (ProtocolErrorView { code: ERRCODE_INVALID_PARAMS, message: "Invalid params"@, data: None }),
    {
        InvalidParams::with_detail(None)
    }

    pub fn with_detail(detail: Option<Value>) -> (r: ProtocolError)
        ensures
            r@ == (ProtocolErrorView {
                code: ERRCODE_INVALID_PARAMS,
                message: "Invalid params"@,
                data: option_view(detail),
            }),
    {
        ProtocolError::new(ERRCODE_INVALID_PARAMS, String::from_str("Invalid params"), detail)
    }
}

/// An error inside the JSON-RPC machinery.
pub struct InternalError;

impl InternalError {
    pub fn new() -> (r: ProtocolError)
        ensures
            r@ == (ProtocolErrorView { code: ERRCODE_INTERNAL_ERROR, message: "Internal error"@, data: None }),
    {
        InternalError::with_detail(None)
    }

    pub fn with_detail(detail: Option<Value>) -> (r: ProtocolError)
        ensures
            r@ == (ProtocolErrorView {
                code: ERRCODE_INTERNAL_ERROR,
                message: "Internal error"@,
                data: option_view(detail),
            }),
    {
        ProtocolError::new(ERRCODE_INTERNAL_ERROR, String::from_str("Internal error"), detail)
    }
}

/// Whether `code` lies in the range that is left to the application.
pub open spec fn is_server_error_code(code: i64) -> bool {
    -32099 <= code <= -32000
}

/// An error that the application defines.
pub struct ServerError;

impl ServerError {
    pub fn new(code: i64) -> (r: ProtocolError)
        requires
            is_server_error_code(code),
        ensures
            r@ == (ProtocolErrorView { code: code, message: "Server error"@, data: None }),
    {
        ServerError::with_detail(code, None)
    }

    pub fn with_detail(code: i64, detail: Option<Value>) -> (r: ProtocolError)
        requires
            is_server_error_code(code),
        ensures
            r@ == (ProtocolErrorView {
                code: code,
                message: "Server error"@,
                data: option_view(detail),
            }),
    {
        ProtocolError::new(code, String::from_str("Server error"), detail)
    }
}

} // verus!
