//! The client's side: writing requests and reading responses.

use vstd::prelude::*;
use vstd::string::*;
use crate::proto::{
    Error, InternalError, InternalErrorKind, InternalErrorView, Request, RequestView, Response,
    ResponseView,
};
use crate::proto::spec20::{check_version, is_internal, lemma_member_names, member, version_failure,
    version_ok};
use crate::proto::spec20::{read_response, response_received, send, sent};
use crate::proto::trans::{
    GetResponse, SendRequest, ServerResponse, ServerResponseView, requests_view, responses_view,
};
use crate::stream::Stream;
use crate::value::items_view;
use crate::text::{debug_text, json_debug};
use crate::value::{Object, Value, ValueView};

verus! {

/// A client on a stream that carries both directions.
pub struct ClientStream<'a> {
    pub stream: &'a mut Stream,
}

/// The receiving half of a client.
pub struct ClientReader<'a> {
    pub reader: &'a mut Stream,
}

/// The sending half of a client.
pub struct ClientWriter<'a> {
    pub writer: &'a mut Stream,
}

impl<'a> ClientStream<'a> {
    /// The stream that the client works on.
    pub open spec fn stream(self) -> &'a mut Stream {
        self.stream
    }

    /// Starts work on a stream, which is borrowed for as long as the value
    /// lives.
    pub fn new(stream: &'a mut Stream) -> (r: ClientStream<'a>)
        ensures
            *r.stream() == *old(stream),
            *final(r.stream()) == *final(stream),
    {
        ClientStream { stream: stream }
    }
}

impl<'a> ClientReader<'a> {
    /// The stream that the client reads.
    pub open spec fn stream(self) -> &'a mut Stream {
        self.reader
    }

    /// Starts work on a stream, which is borrowed for as long as the value
    /// lives.
    pub fn new(reader: &'a mut Stream) -> (r: ClientReader<'a>)
        ensures
            *r.stream() == *old(reader),
            *final(r.stream()) == *final(reader),
    {
        ClientReader { reader: reader }
    }
}

impl<'a> ClientWriter<'a> {
    /// The stream that the client writes.
    pub open spec fn stream(self) -> &'a mut Stream {
        self.writer
    }

    /// Starts work on a stream, which is borrowed for as long as the value
    /// lives.
    pub fn new(writer: &'a mut Stream) -> (r: ClientWriter<'a>)
        ensures
            *r.stream() == *old(writer),
            *final(r.stream()) == *final(writer),
    {
        ClientWriter { writer: writer }
    }
}

impl<'a> SendRequest for ClientWriter<'a> {
    fn request(&mut self, request: Request) -> (r: crate::proto::Result<()>)
        ensures
            *final(final(self).stream()) == *final(old(self).stream()),
            sent(
                r,
                (*old(self).stream())@,
                (*final(self).stream())@,
                ValueView::Object(request_members(request@)),
            ),
    {
        let obj = request_to_json(request);
        send(self.writer, &obj)
    }

    fn batch_request(&mut self, requests: Vec<Request>) -> (r: crate::proto::Result<()>)
        ensures
            *final(final(self).stream()) == *final(old(self).stream()),
            sent(
                r,
                (*old(self).stream())@,
                (*final(self).stream())@,
                ValueView::Array(request_envelopes(requests_view(requests@))),
            ),
    {
        let arr = requests_to_json(requests);
        send(self.writer, &arr)
    }
}

impl<'a> GetResponse for ClientReader<'a> {
    fn get_response(&mut self) -> (r: crate::proto::Result<Option<ServerResponse>>)
        ensures
            *final(final(self).stream()) == *final(old(self).stream()),
            (*final(self).stream())@ == Seq::<u8>::empty(),
            response_received(r, (*old(self).stream())@),
    {
        read_response(self.reader)
    }
}

impl<'a> SendRequest for ClientStream<'a> {
    fn request(&mut self, request: Request) -> (r: crate::proto::Result<()>)
        ensures
            *final(final(self).stream()) == *final(old(self).stream()),
            sent(
                r,
                (*old(self).stream())@,
                (*final(self).stream())@,
                ValueView::Object(request_members(request@)),
            ),
    {
        ClientWriter::new(self.stream).request(request)
    }

    fn batch_request(&mut self, requests: Vec<Request>) -> (r: crate::proto::Result<()>)
        ensures
            *final(final(self).stream()) == *final(old(self).stream()),
            sent(
                r,
                (*old(self).stream())@,
                (*final(self).stream())@,
                ValueView::Array(request_envelopes(requests_view(requests@))),
            ),
    {
        ClientWriter::new(self.stream).batch_request(requests)
    }
}

impl<'a> GetResponse for ClientStream<'a> {
    fn get_response(&mut self) -> (r: crate::proto::Result<Option<ServerResponse>>)
        ensures
            *final(final(self).stream()) == *final(old(self).stream()),
            (*final(self).stream())@ == Seq::<u8>::empty(),
            response_received(r, (*old(self).stream())@),
    {
        ClientReader::new(self.stream).get_response()
    }
}

/// The members of the envelope of a request: the version, the method, and
/// `params` and `id` where the request has them. A notification has no
/// member `id`.
pub open spec fn request_members(request: RequestView) -> Map<Seq<char>, ValueView> {
    let base = Map::<Seq<char>, ValueView>::empty().insert(
        "jsonrpc"@,
        ValueView::String("2.0"@),
    ).insert("method"@, ValueView::String(request.method));
    let with_params = match request.params {
        Some(params) => base.insert("params"@, params),
        None => base,
    };
    match request.id {
        Some(id) => with_params.insert("id"@, id),
        None => with_params,
    }
}

/// The envelope of a request.
pub fn request_to_json(request: Request) -> (r: Value)
    ensures
        r@ == ValueView::Object(request_members(request@)),
{
    let mut obj = Object::new();
    obj.insert(String::from_str("jsonrpc"), Value::String(String::from_str("2.0")));
    obj.insert(String::from_str("method"), Value::String(request.method));
    if let Some(params) = request.params {
        obj.insert(String::from_str("params"), params);
    }
    if let Some(id) = request.id {
        obj.insert(String::from_str("id"), id);
    }
    Value::Object(obj)
}

/// The envelopes of a batch of requests, in order.
pub open spec fn request_envelopes(requests: Seq<RequestView>) -> Seq<ValueView> {
    requests.map_values(|r: RequestView| ValueView::Object(request_members(r)))
}

/// The array of the envelopes of a batch of requests, in the order of the
/// batch.
pub fn requests_to_json(requests: Vec<Request>) -> (r: Value)
    ensures
        r@ == ValueView::Array(request_envelopes(requests_view(requests@))),
{
    let mut requests = requests;
    let ghost batch = requests_view(requests@);
    let mut envelopes: Vec<Value> = Vec::with_capacity(requests.len());
    let mut i: usize = 0;
    while i < requests.len()
        invariant
            i <= requests.len(),
            requests.len() == batch.len(),
            envelopes.len() == i,
            forall|j: int| i <= j < requests.len() ==> requests[j]@ == batch[j],
            forall|j: int| 0 <= j < i ==> envelopes[j]@ == request_envelopes(batch)[j],
        decreases requests.len() - i,
    {
        let mut request = Request::new_notify(String::new(), None);
        core::mem::swap(&mut request, &mut requests[i]);
        envelopes.push(request_to_json(request));
        i += 1;
    }
    assert(items_view(&envelopes) =~= request_envelopes(batch));
    Value::Array(envelopes)
}

/// The response that the members of an envelope spell, or the failure that
/// the envelope is rejected with. The version is checked first; `result`
/// and `error` are taken as they are found, both or neither too; the id
/// must be there.
pub open spec fn decode_response(members: Map<Seq<char>, ValueView>) -> Result<
    ResponseView,
    InternalErrorView,
> {
    if !version_ok(members) {
        Err(version_failure(members))
    } else if !members.contains_key("id"@) {
        Err(
            InternalErrorView {
                kind: InternalErrorKind::InvalidResponse,
                desc: "Invalid JSON-RPC response"@,
                detail: Some("`id` is required"@),
            },
        )
    } else {
        Ok(
            ResponseView {
                result: member(members, "result"@),
                error: member(members, "error"@),
                id: members["id"@],
            },
        )
    }
}

/// Whether `r` is what `expected` asks for: the response of that model, or
/// the internal error of that model.
pub open spec fn response_outcome(
    r: crate::proto::Result<Response>,
    expected: Result<ResponseView, InternalErrorView>,
) -> bool {
    match r {
        Ok(response) => expected == Ok::<ResponseView, InternalErrorView>(response@),
        Err(e) => expected is Err && is_internal(e, expected->Err_0),
    }
}

/// Reads a response out of the members of its envelope.
pub fn json_to_response(obj: Object) -> (r: crate::proto::Result<Response>)
    ensures
        response_outcome(r, decode_response(obj@)),
{
    let mut obj = obj;
    proof {
        lemma_member_names();
    }
    match check_version(&obj) {
        Ok(_) => {},
        Err(e) => {
            return Err(e);
        },
    }
    let result = obj.remove("result");
    let error = obj.remove("error");
    let id = match obj.remove("id") {
        Some(id) => id,
        None => {
            let ierr = InternalError::new(
                InternalErrorKind::InvalidResponse,
                "Invalid JSON-RPC response",
                Some(String::from_str("`id` is required")),
            );
            return Err(Error::InternalError(ierr));
        },
    };
    Ok(Response::new(result, error, id))
}

/// The failure that a batch element which is no object is rejected with.
pub open spec fn not_a_response_object(found: ValueView) -> InternalErrorView {
    InternalErrorView {
        kind: InternalErrorKind::InvalidResponse,
        desc: "Invalid JSON-RPC response"@,
        detail: Some("Expecting a Response object, but found "@ + json_debug(found)),
    }
}

/// The failure that a value which is neither an object nor an array is
/// rejected with.
pub open spec fn not_a_response(found: ValueView) -> InternalErrorView {
    InternalErrorView {
        kind: InternalErrorKind::InvalidResponse,
        desc: "Invalid JSON-RPC response"@,
        detail: Some("Expecting JSON-RPC response, but found "@ + json_debug(found)),
    }
}

/// The response that one element of a batch spells.
pub open spec fn decode_response_element(value: ValueView) -> Result<
    ResponseView,
    InternalErrorView,
> {
    match value {
        ValueView::Object(members) => decode_response(members),
        other => Err(not_a_response_object(other)),
    }
}

/// The responses that the elements of a batch spell, in order, or the
/// failure of the first element that spells none.
pub open spec fn decode_response_batch(items: Seq<ValueView>) -> Result<
    Seq<ResponseView>,
    InternalErrorView,
>
    decreases items.len(),
{
    if items.len() == 0 {
        Ok(Seq::empty())
    } else {
        match decode_response_batch(items.drop_last()) {
            Ok(responses) => match decode_response_element(items.last()) {
                Ok(response) => Ok(responses.push(response)),
                Err(e) => Err(e),
            },
            Err(e) => Err(e),
        }
    }
}

/// What a JSON value is on the client's side: an object is one response, an
/// array is a batch, and anything else is rejected.
pub open spec fn decode_server_response(value: ValueView) -> Result<
    ServerResponseView,
    InternalErrorView,
> {
    match value {
        ValueView::Object(members) => match decode_response(members) {
            Ok(response) => Ok(ServerResponseView::Single(response)),
            Err(e) => Err(e),
        },
        ValueView::Array(items) => match decode_response_batch(items) {
            Ok(responses) => Ok(ServerResponseView::Batch(responses)),
            Err(e) => Err(e),
        },
        other => Err(not_a_response(other)),
    }
}

/// Whether `r` is what `expected` asks for.
pub open spec fn server_response_outcome(
    r: crate::proto::Result<ServerResponse>,
    expected: Result<ServerResponseView, InternalErrorView>,
) -> bool {
    match r {
        Ok(response) => expected == Ok::<ServerResponseView, InternalErrorView>(response@),
        Err(e) => expected is Err && is_internal(e, expected->Err_0),
    }
}

/// Reads what a server sent out of a JSON value: one response or a batch.
/// A batch is read whole or not at all.
pub fn response_from_json(resp: Value) -> (r: crate::proto::Result<ServerResponse>)
    ensures
        server_response_outcome(r, decode_server_response(resp@)),
{
    let ghost whole = resp@;
    match resp {
        Value::Object(obj) => {
            match json_to_response(obj) {
                Ok(response) => Ok(ServerResponse::Single(response)),
                Err(e) => Err(e),
            }
        },
        Value::Array(arr) => {
            let mut arr = arr;
            let ghost items = crate::value::items_view(&arr);
            let mut batch: Vec<Response> = Vec::with_capacity(arr.len());
            let mut i: usize = 0;
            proof {
                assert(items.take(0) =~= Seq::<ValueView>::empty());
                assert(responses_view(batch@) =~= Seq::<ResponseView>::empty());
            }
            while i < arr.len()
                invariant
                    i <= arr.len(),
                    whole == resp@,
                    whole == ValueView::Array(items),
                    arr.len() == items.len(),
                    forall|j: int| i <= j < arr.len() ==> arr[j]@ == items[j],
                    decode_response_batch(items.take(i as int)) == Ok::<
                        Seq<ResponseView>,
                        InternalErrorView,
                    >(responses_view(batch@)),
                decreases arr.len() - i,
            {
                let mut item = Value::Null;
                core::mem::swap(&mut item, &mut arr[i]);
                proof {
                    assert(items.take(i as int + 1).drop_last() =~= items.take(i as int));
                    assert(items.take(i as int + 1).last() == items[i as int]);
                }
                let outcome = match item {
                    Value::Object(obj) => json_to_response(obj),
                    other => {
                        let ierr = InternalError::new(
                            InternalErrorKind::InvalidResponse,
                            "Invalid JSON-RPC response",
                            Some(
                                String::from_str("Expecting a Response object, but found ").concat(
                                    debug_text(&other).as_str(),
                                ),
                            ),
                        );
                        Err(Error::InternalError(ierr))
                    },
                };
                match outcome {
                    Ok(response) => {
                        let ghost before = batch@;
                        batch.push(response);
                        assert(responses_view(batch@) =~= responses_view(before).push(response@));
                    },
                    Err(e) => {
                        proof {
                            lemma_response_batch_failure(items, i as int + 1);
                        }
                        return Err(e);
                    },
                }
                i += 1;
            }
            assert(items.take(i as int) =~= items);
            Ok(ServerResponse::Batch(batch))
        },
        other => {
            let ierr = InternalError::new(
                InternalErrorKind::InvalidResponse,
                "Invalid JSON-RPC response",
                Some(
                    String::from_str("Expecting JSON-RPC response, but found ").concat(
                        debug_text(&other).as_str(),
                    ),
                ),
            );
            Err(Error::InternalError(ierr))
        },
    }
}

/// A batch fails as soon as one of its prefixes fails, and with the same
/// failure.
pub proof fn lemma_response_batch_failure(items: Seq<ValueView>, n: int)
    requires
        0 <= n <= items.len(),
        decode_response_batch(items.take(n)) is Err,
    ensures
        decode_response_batch(items) == decode_response_batch(items.take(n)),
    decreases items.len() - n,
{
    if n == items.len() {
        assert(items.take(n) =~= items);
    } else {
        assert(items.take(n + 1).drop_last() =~= items.take(n));
        lemma_response_batch_failure(items, n + 1);
    }
}

} // verus!
