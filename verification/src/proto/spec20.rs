//! JSON-RPC 2.0: the envelope, the version gate and the endpoints of an
//! exchange.

use vstd::prelude::*;
use vstd::string::*;
use vstd::utf8::{decode_utf8, decode_utf8_encode_utf8, encode_utf8, valid_utf8};
use crate::proto::{Error, InternalError, InternalErrorKind, InternalErrorView, Request, Response};
use crate::proto::spec20::client::{
    decode_server_response, request_envelopes, request_members, request_to_json,
    requests_to_json, response_from_json,
};
use crate::proto::spec20::server::{
    decode_client_request, request_from_json, response_envelopes, response_members,
    response_to_json, responses_to_json,
};
use crate::proto::trans::{
    ClientRequest, GetRequest, GetResponse, SendRequest, SendResponse, ServerResponse,
    requests_view, responses_view,
};
use crate::limits::{has_exponent, has_trailing_comma, within_limits};
use crate::stream::Stream;
use crate::text::{
    debug_text, encode_text, json_debug, json_parse, parse_text, utf8_text, wire_bytes,
};
use crate::value::{Object, Value, ValueView};
use rustc_serialize::json::EncoderError;

pub mod client;
pub mod errors;
pub mod laws;
pub mod server;

verus! {

/// The member of an envelope under `key`, where there is one.
pub open spec fn member(members: Map<Seq<char>, ValueView>, key: Seq<char>) -> Option<ValueView> {
    if members.contains_key(key) {
        Some(members[key])
    } else {
        None
    }
}

/// The names of the members of an envelope are pairwise different texts.
pub proof fn lemma_member_names()
    ensures
        "jsonrpc"@ != "method"@,
        "jsonrpc"@ != "params"@,
        "jsonrpc"@ != "id"@,
        "jsonrpc"@ != "result"@,
        "jsonrpc"@ != "error"@,
        "method"@ != "params"@,
        "method"@ != "id"@,
        "params"@ != "id"@,
        "result"@ != "error"@,
        "result"@ != "id"@,
        "error"@ != "id"@,
{
    reveal_strlit("jsonrpc");
    reveal_strlit("method");
    reveal_strlit("params");
    reveal_strlit("id");
    reveal_strlit("result");
    reveal_strlit("error");
    assert("jsonrpc"@[0] == 'j');
    assert("method"@[0] == 'm');
    assert("params"@[0] == 'p');
    assert("result"@[0] == 'r');
    assert("error"@[0] == 'e');
}

/// Whether `e` is the internal error whose model is `expected`.
pub open spec fn is_internal(e: Error, expected: InternalErrorView) -> bool {
    e matches Error::InternalError(err) && err@ == expected
}

/// Whether the members of an envelope name version 2.0 of the protocol.
pub open spec fn version_ok(members: Map<Seq<char>, ValueView>) -> bool {
    members.contains_key("jsonrpc"@) && members["jsonrpc"@] == ValueView::String("2.0"@)
}

/// The failure that an envelope of another version, or of none, is
/// rejected with.
pub open spec fn version_failure(members: Map<Seq<char>, ValueView>) -> InternalErrorView {
    InternalErrorView {
        kind: InternalErrorKind::InvalidVersion,
        desc: "Invalid JSON-RPC version"@,
        detail: Some(
            if !members.contains_key("jsonrpc"@) {
                "Missing `jsonrpc` field"@
            } else {
                match members["jsonrpc"@] {
                    ValueView::String(version) => "Expecting JSON-RPC 2.0, but found "@ + version,
                    other => "Expecting JSON-RPC 2.0, but found Some("@ + json_debug(other) + ")"@,
                }
            },
        ),
    }
}

/// Accepts an envelope exactly where its `jsonrpc` member is the string
/// `"2.0"`.
pub fn check_version(obj: &Object) -> (r: crate::proto::Result<()>)
    ensures
        match r {
            Ok(_) => version_ok(obj@),
            Err(e) => !version_ok(obj@) && is_internal(e, version_failure(obj@)),
        },
{
    match obj.get("jsonrpc") {
        None => {
            let ierr = InternalError::new(
                InternalErrorKind::InvalidVersion,
                "Invalid JSON-RPC version",
                Some(String::from_str("Missing `jsonrpc` field")),
            );
            Err(Error::InternalError(ierr))
        },
        Some(Value::String(ver)) => {
            if crate::value::same_text(ver.as_str(), "2.0") {
                Ok(())
            } else {
                let ierr = InternalError::new(
                    InternalErrorKind::InvalidVersion,
                    "Invalid JSON-RPC version",
                    Some(String::from_str("Expecting JSON-RPC 2.0, but found ").concat(ver.as_str())),
                );
                Err(Error::InternalError(ierr))
            }
        },
        Some(v) => {
            let found = String::from_str("Expecting JSON-RPC 2.0, but found Some(").concat(
                debug_text(v).as_str(),
            ).concat(")");
            let ierr = InternalError::new(
                InternalErrorKind::InvalidVersion,
                "Invalid JSON-RPC version",
                Some(found),
            );
            Err(Error::InternalError(ierr))
        },
    }
}

/// Writes a message that was printed to the end of the stream, as UTF-8.
/// Where printing failed, the failure is handed on as an encode failure and
/// the stream is left as it is.
pub fn send_text(stream: &mut Stream, printed: Result<String, EncoderError>) -> (r:
    crate::proto::Result<()>)
    ensures
        match printed {
            Ok(text) => r is Ok && final(stream)@ == old(stream)@ + encode_utf8(text@),
            Err(failure) => {
                &&& r matches Err(Error::EncoderError(e)) && e == failure
                &&& final(stream)@ == old(stream)@
            },
        },
{
    match printed {
        Ok(text) => {
            stream.write(text.as_str().as_bytes());
            Ok(())
        },
        Err(e) => Err(Error::EncoderError(e)),
    }
}

/// Writes the JSON text of `value` to the end of the stream.
pub fn send(stream: &mut Stream, value: &Value) -> (r: crate::proto::Result<()>)
    ensures
        r is Ok,
        final(stream)@ == old(stream)@ + wire_bytes(value@),
{
    send_text(stream, encode_text(value))
}

/// The failure that a text beyond the limits of the parser is rejected
/// with, on the side that classifies its failures as `kind`.
pub open spec fn beyond_limits(kind: InternalErrorKind) -> InternalErrorView {
    InternalErrorView {
        kind: kind,
        desc: "JSON text beyond the limits"@,
        detail: Some(
            "Too long, nested too deep, too many bytes of keys, or too many digits of an exponent"@,
        ),
    }
}

/// Whether `r` is what a stream that held `input` hands over: nothing where
/// it was empty, and else the one JSON value that all of `input` spells.
/// Bytes that are no UTF-8 and a text beyond the limits are rejected
/// unread, and so is a text with a comma before the end of an object, as
/// the parse failure that it is. Of a text with an exponent no more is
/// known than that it gives a value or a parse failure.
pub open spec fn received(
    r: crate::proto::Result<Option<Value>>,
    input: Seq<u8>,
    kind: InternalErrorKind,
) -> bool {
    if input.len() == 0 {
        r matches Ok(None)
    } else if !valid_utf8(input) {
        r matches Err(Error::NotUtf8)
    } else if !within_limits(input) {
        r matches Err(e) && is_internal(e, beyond_limits(kind))
    } else if has_trailing_comma(input) {
        r matches Err(Error::ParserError(_))
    } else if has_exponent(input) {
        r matches Ok(Some(_)) || r matches Err(Error::ParserError(_))
    } else {
        match json_parse(decode_utf8(input)) {
            Some(value) => r matches Ok(Some(found)) && found@ == value,
            None => r matches Err(Error::ParserError(_)),
        }
    }
}

/// Takes all that waits in the stream and reads it as one JSON value. An
/// empty stream is the end of the exchange, not a failure. What cannot be
/// read is classified as `kind`.
pub fn receive(stream: &mut Stream, kind: InternalErrorKind) -> (r: crate::proto::Result<
    Option<Value>,
>)
    ensures
        final(stream)@ == Seq::<u8>::empty(),
        received(r, old(stream)@, kind),
{
    let input = stream.read_to_end();
    if input.len() == 0 {
        return Ok(None);
    }
    match utf8_text(input.as_slice()) {
        None => Err(Error::NotUtf8),
        Some(text) => {
            proof {
                decode_utf8_encode_utf8(input@);
            }
            match parse_text(text) {
                None => {
                    let ierr = InternalError::new(
                        kind,
                        "JSON text beyond the limits",
                        Some(
                            String::from_str(
                                "Too long, nested too deep, too many bytes of keys, or too many digits of an exponent",
                            ),
                        ),
                    );
                    Err(Error::InternalError(ierr))
                },
                Some(Ok(value)) => Ok(Some(value)),
                Some(Err(e)) => Err(Error::ParserError(e)),
            }
        },
    }
}

/// Whether `r` is what `response_from_json` makes of a value.
pub open spec fn response_read(
    r: crate::proto::Result<Option<ServerResponse>>,
    value: ValueView,
) -> bool {
    match r {
        Ok(Some(response)) => decode_server_response(value) == Ok::<_, InternalErrorView>(
            response@,
        ),
        Ok(None) => false,
        Err(e) => decode_server_response(value) is Err && is_internal(
            e,
            decode_server_response(value)->Err_0,
        ),
    }
}

/// Whether `r` is what `request_from_json` makes of a value.
pub open spec fn request_read(
    r: crate::proto::Result<Option<ClientRequest>>,
    value: ValueView,
) -> bool {
    match r {
        Ok(Some(request)) => decode_client_request(value) == Ok::<_, InternalErrorView>(request@),
        Ok(None) => false,
        Err(e) => decode_client_request(value) is Err && is_internal(
            e,
            decode_client_request(value)->Err_0,
        ),
    }
}

/// Whether `r` is what a client finds in a stream that held `input`.
pub open spec fn response_received(
    r: crate::proto::Result<Option<ServerResponse>>,
    input: Seq<u8>,
) -> bool {
    if input.len() == 0 {
        r matches Ok(None)
    } else if !valid_utf8(input) {
        r matches Err(Error::NotUtf8)
    } else if !within_limits(input) {
        r matches Err(e) && is_internal(e, beyond_limits(InternalErrorKind::InvalidResponse))
    } else if has_trailing_comma(input) {
        r matches Err(Error::ParserError(_))
    } else if has_exponent(input) {
        r matches Err(Error::ParserError(_)) || exists|value: ValueView| response_read(r, value)
    } else {
        match json_parse(decode_utf8(input)) {
            Some(value) => response_read(r, value),
            None => r matches Err(Error::ParserError(_)),
        }
    }
}

/// Whether `r` is what a server finds in a stream that held `input`.
pub open spec fn request_received(
    r: crate::proto::Result<Option<ClientRequest>>,
    input: Seq<u8>,
) -> bool {
    if input.len() == 0 {
        r matches Ok(None)
    } else if !valid_utf8(input) {
        r matches Err(Error::NotUtf8)
    } else if !within_limits(input) {
        r matches Err(e) && is_internal(e, beyond_limits(InternalErrorKind::InvalidRequest))
    } else if has_trailing_comma(input) {
        r matches Err(Error::ParserError(_))
    } else if has_exponent(input) {
        r matches Err(Error::ParserError(_)) || exists|value: ValueView| request_read(r, value)
    } else {
        match json_parse(decode_utf8(input)) {
            Some(value) => request_read(r, value),
            None => r matches Err(Error::ParserError(_)),
        }
    }
}

/// Reads the response, or the batch of responses, that waits in a stream.
pub fn read_response(stream: &mut Stream) -> (r: crate::proto::Result<Option<ServerResponse>>)
    ensures
        final(stream)@ == Seq::<u8>::empty(),
        response_received(r, old(stream)@),
{
    match receive(stream, InternalErrorKind::InvalidResponse) {
        Ok(Some(value)) => {
            let ghost found = value@;
            let r = match response_from_json(value) {
                Ok(response) => Ok(Some(response)),
                Err(e) => Err(e),
            };
            assert(response_read(r, found));
            r
        },
        Ok(None) => Ok(None),
        Err(e) => Err(e),
    }
}

/// Reads the request, or the batch of requests, that waits in a stream.
pub fn read_request(stream: &mut Stream) -> (r: crate::proto::Result<Option<ClientRequest>>)
    ensures
        final(stream)@ == Seq::<u8>::empty(),
        request_received(r, old(stream)@),
{
    match receive(stream, InternalErrorKind::InvalidRequest) {
        Ok(Some(value)) => {
            let ghost found = value@;
            let r = match request_from_json(value) {
                Ok(request) => Ok(Some(request)),
                Err(e) => Err(e),
            };
            assert(request_read(r, found));
            r
        },
        Ok(None) => Ok(None),
        Err(e) => Err(e),
    }
}

/// Whether a sender did its work: it succeeded, and the message stands at
/// the end of the stream.
pub open spec fn sent(
    r: crate::proto::Result<()>,
    before: Seq<u8>,
    after: Seq<u8>,
    message: ValueView,
) -> bool {
    r is Ok && after == before + wire_bytes(message)
}

/// A client on a stream that carries both directions.
pub struct Client<'a> {
    pub stream: &'a mut Stream,
}

impl<'a> Client<'a> {
    /// The stream that the client works on.
    pub open spec fn stream(self) -> &'a mut Stream {
        self.stream
    }

    /// Starts work on a stream, which is borrowed for as long as the value
    /// lives.
    pub fn new(stream: &'a mut Stream) -> (r: Client<'a>)
        ensures
            *r.stream() == *old(stream),
            *final(r.stream()) == *final(stream),
    {
        Client { stream: stream }
    }
}

impl<'a> SendRequest for Client<'a> {
    fn request(&mut self, request: Request) -> (r: crate::proto::Result<()>)
        ensures
            *final(final(self).stream()) == *final(old(self).stream()),
            sent(
                r,
                (*old(self).stream())@,
                (*final(self).stream())@,
                ValueView::Object(request_members(request@)),
            ),
    {
        let obj = request_to_json(request);
        send(self.stream, &obj)
    }

    fn batch_request(&mut self, requests: Vec<Request>) -> (r: crate::proto::Result<()>)
        ensures
            *final(final(self).stream()) == *final(old(self).stream()),
            sent(
                r,
                (*old(self).stream())@,
                (*final(self).stream())@,
                ValueView::Array(request_envelopes(requests_view(requests@))),
            ),
    {
        let arr = requests_to_json(requests);
        send(self.stream, &arr)
    }
}

impl<'a> GetResponse for Client<'a> {
    fn get_response(&mut self) -> (r: crate::proto::Result<Option<ServerResponse>>)
        ensures
            *final(final(self).stream()) == *final(old(self).stream()),
            (*final(self).stream())@ == Seq::<u8>::empty(),
            response_received(r, (*old(self).stream())@),
    {
        read_response(self.stream)
    }
}

/// A server on a stream that carries both directions.
pub struct Server<'a> {
    pub stream: &'a mut Stream,
}

impl<'a> Server<'a> {
    /// The stream that the server works on.
    pub open spec fn stream(self) -> &'a mut Stream {
        self.stream
    }

    /// Starts work on a stream, which is borrowed for as long as the value
    /// lives.
    pub fn new(s: &'a mut Stream) -> (r: Server<'a>)
        ensures
            *r.stream() == *old(s),
            *final(r.stream()) == *final(s),
    {
        Server { stream: s }
    }
}

impl<'a> SendResponse for Server<'a> {
    fn response(&mut self, response: Response) -> (r: crate::proto::Result<()>)
        ensures
            *final(final(self).stream()) == *final(old(self).stream()),
            sent(
                r,
                (*old(self).stream())@,
                (*final(self).stream())@,
                ValueView::Object(response_members(response@)),
            ),
    {
        let obj = response_to_json(response);
        send(self.stream, &obj)
    }

    fn batch_response(&mut self, responses: Vec<Response>) -> (r: crate::proto::Result<()>)
        ensures
            *final(final(self).stream()) == *final(old(self).stream()),
            sent(
                r,
                (*old(self).stream())@,
                (*final(self).stream())@,
                ValueView::Array(response_envelopes(responses_view(responses@))),
            ),
    {
        let arr = responses_to_json(responses);
        send(self.stream, &arr)
    }
}

impl<'a> GetRequest for Server<'a> {
    fn get_request(&mut self) -> (r: crate::proto::Result<Option<ClientRequest>>)
        ensures
            *final(final(self).stream()) == *final(old(self).stream()),
            (*final(self).stream())@ == Seq::<u8>::empty(),
            request_received(r, (*old(self).stream())@),
    {
        read_request(self.stream)
    }
}

} // verus!
