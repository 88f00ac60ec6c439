//! The server's side: reading requests and writing responses.

use vstd::prelude::*;
use vstd::string::*;
use crate::proto::{
    Error, InternalError, InternalErrorKind, InternalErrorView, ProtocolError, ProtocolErrorView,
    Request, RequestView, Response, ResponseView, protocol_error_members,
};
use crate::proto::spec20::{read_request, request_received, send, sent};
use crate::proto::trans::{GetRequest, SendResponse};
use crate::stream::Stream;
use crate::proto::spec20::{check_version, is_internal, lemma_member_names, member, version_failure,
    version_ok};
use crate::proto::trans::{ClientRequest, ClientRequestView, requests_view, responses_view};
use crate::value::items_view;
use crate::text::{debug_text, json_debug};
use crate::value::{Object, Value, ValueView};

verus! {

/// A server on a stream that carries both directions.
pub struct ServerStream<'a> {
    pub stream: &'a mut Stream,
}

/// The receiving half of a server.
pub struct ServerReader<'a> {
    pub reader: &'a mut Stream,
}

/// The sending half of a server.
pub struct ServerWriter<'a> {
    pub writer: &'a mut Stream,
}

impl<'a> ServerStream<'a> {
    /// The stream that the server works on.
    pub open spec fn stream(self) -> &'a mut Stream {
        self.stream
    }

    /// Starts work on a stream, which is borrowed for as long as the value
    /// lives.
    pub fn new(s: &'a mut Stream) -> (r: ServerStream<'a>)
        ensures
            *r.stream() == *old(s),
            *final(r.stream()) == *final(s),
    {
        ServerStream { stream: s }
    }
}

impl<'a> ServerReader<'a> {
    /// The stream that the server reads.
    pub open spec fn stream(self) -> &'a mut Stream {
        self.reader
    }

    /// Starts work on a stream, which is borrowed for as long as the value
    /// lives.
    pub fn new(r: &'a mut Stream) -> (reader: ServerReader<'a>)
        ensures
            *reader.stream() == *old(r),
            *final(reader.stream()) == *final(r),
    {
        ServerReader { reader: r }
    }
}

impl<'a> ServerWriter<'a> {
    /// The stream that the server writes.
    pub open spec fn stream(self) -> &'a mut Stream {
        self.writer
    }

    /// Starts work on a stream, which is borrowed for as long as the value
    /// lives.
    pub fn new(w: &'a mut Stream) -> (writer: ServerWriter<'a>)
        ensures
            *writer.stream() == *old(w),
            *final(writer.stream()) == *final(w),
    {
        ServerWriter { writer: w }
    }
}

impl<'a> SendResponse for ServerWriter<'a> {
    fn response(&mut self, response: Response) -> (r: crate::proto::Result<()>)
        ensures
            *final(final(self).stream()) == *final(old(self).stream()),
            sent(
                r,
                (*old(self).stream())@,
                (*final(self).stream())@,
                ValueView::Object(response_members(response@)),
            ),
    {
        let obj = response_to_json(response);
        send(self.writer, &obj)
    }

    fn batch_response(&mut self, responses: Vec<Response>) -> (r: crate::proto::Result<()>)
        ensures
            *final(final(self).stream()) == *final(old(self).stream()),
            sent(
                r,
                (*old(self).stream())@,
                (*final(self).stream())@,
                ValueView::Array(response_envelopes(responses_view(responses@))),
            ),
    {
        let arr = responses_to_json(responses);
        send(self.writer, &arr)
    }
}

impl<'a> GetRequest for ServerReader<'a> {
    fn get_request(&mut self) -> (r: crate::proto::Result<Option<ClientRequest>>)
        ensures
            *final(final(self).stream()) == *final(old(self).stream()),
            (*final(self).stream())@ == Seq::<u8>::empty(),
            request_received(r, (*old(self).stream())@),
    {
        read_request(self.reader)
    }
}

impl<'a> SendResponse for ServerStream<'a> {
    fn response(&mut self, response: Response) -> (r: crate::proto::Result<()>)
        ensures
            *final(final(self).stream()) == *final(old(self).stream()),
            sent(
                r,
                (*old(self).stream())@,
                (*final(self).stream())@,
                ValueView::Object(response_members(response@)),
            ),
    {
        ServerWriter::new(self.stream).response(response)
    }

    fn batch_response(&mut self, responses: Vec<Response>) -> (r: crate::proto::Result<()>)
        ensures
            *final(final(self).stream()) == *final(old(self).stream()),
            sent(
                r,
                (*old(self).stream())@,
                (*final(self).stream())@,
                ValueView::Array(response_envelopes(responses_view(responses@))),
            ),
    {
        ServerWriter::new(self.stream).batch_response(responses)
    }
}

impl<'a> GetRequest for ServerStream<'a> {
    fn get_request(&mut self) -> (r: crate::proto::Result<Option<ClientRequest>>)
        ensures
            *final(final(self).stream()) == *final(old(self).stream()),
            (*final(self).stream())@ == Seq::<u8>::empty(),
            request_received(r, (*old(self).stream())@),
    {
        ServerReader::new(self.stream).get_request()
    }
}

/// The response that answers a request whose handling ended in `outcome`:
/// none for a notification, and for a call the result or the error object
/// under the id of the call.
pub open spec fn answer_view(
    request: RequestView,
    outcome: Result<ValueView, ProtocolErrorView>,
) -> Option<ResponseView> {
    match request.id {
        None => None,
        Some(id) => Some(
            match outcome {
                Ok(result) => ResponseView { result: Some(result), error: None, id: id },
                Err(error) => ResponseView {
                    result: None,
                    error: Some(ValueView::Object(protocol_error_members(error))),
                    id: id,
                },
            },
        ),
    }
}

/// The model of the outcome of a call.
pub open spec fn outcome_view(outcome: Result<Value, ProtocolError>) -> Result<
    ValueView,
    ProtocolErrorView,
> {
    match outcome {
        Ok(result) => Ok(result@),
        Err(error) => Err(error@),
    }
}

/// Builds the response to a request from the outcome of handling it. A
/// notification gets none.
pub fn answer(request: &Request, outcome: Result<Value, ProtocolError>) -> (r: Option<Response>)
    ensures
        match r {
            Some(response) => answer_view(request@, outcome_view(outcome)) == Some(response@),
            None => answer_view(request@, outcome_view(outcome)) is None,
        },
{
    match request.id.clone() {
        None => None,
        Some(id) => match outcome {
            Ok(result) => Some(Response::result(result, id)),
            Err(error) => Some(Response::error(error, id)),
        },
    }
}

/// The responses among the answers to a batch, in the order of the batch.
pub open spec fn calls_answered(answers: Seq<Option<Response>>) -> Seq<ResponseView>
    decreases answers.len(),
{
    if answers.len() == 0 {
        Seq::empty()
    } else {
        let before = calls_answered(answers.drop_last());
        match answers.last() {
            Some(response) => before.push(response@),
            None => before,
        }
    }
}

/// Gathers the responses to a batch: one for each call, in the order of
/// the calls. A notification fills no slot.
pub fn batch_answers(answers: Vec<Option<Response>>) -> (r: Vec<Response>)
    ensures
        responses_view(r@) == calls_answered(answers@),
{
    let mut answers = answers;
    let ghost all = answers@;
    let mut responses: Vec<Response> = Vec::new();
    let mut i: usize = 0;
    proof {
        assert(all.take(0) =~= Seq::<Option<Response>>::empty());
        assert(responses_view(responses@) =~= Seq::<ResponseView>::empty());
    }
    while i < answers.len()
        invariant
            i <= answers.len(),
            answers.len() == all.len(),
            forall|j: int| i <= j < answers.len() ==> answers[j] == all[j],
            responses_view(responses@) == calls_answered(all.take(i as int)),
        decreases answers.len() - i,
    {
        let mut slot: Option<Response> = None;
        core::mem::swap(&mut slot, &mut answers[i]);
        proof {
            assert(all.take(i as int + 1).drop_last() =~= all.take(i as int));
            assert(all.take(i as int + 1).last() == all[i as int]);
        }
        if let Some(response) = slot {
            let ghost before = responses@;
            responses.push(response);
            assert(responses_view(responses@) =~= responses_view(before).push(response@));
        }
        i += 1;
    }
    assert(all.take(i as int) =~= all);
    responses
}

/// Sends the answer to a request. For a notification there is none:
/// nothing is written, and that is success.
pub fn send_answer(stream: &mut Stream, answer: Option<Response>) -> (r: crate::proto::Result<()>)
    ensures
        match answer {
            Some(response) => sent(
                r,
                old(stream)@,
                final(stream)@,
                ValueView::Object(response_members(response@)),
            ),
            None => r is Ok && final(stream)@ == old(stream)@,
        },
{
    match answer {
        Some(response) => {
            let obj = response_to_json(response);
            send(stream, &obj)
        },
        None => Ok(()),
    }
}

/// The members of the envelope of a response: the version, the id, and
/// `result` and `error` where the response has them.
pub open spec fn response_members(response: ResponseView) -> Map<Seq<char>, ValueView> {
    let base = Map::<Seq<char>, ValueView>::empty().insert(
        "jsonrpc"@,
        ValueView::String("2.0"@),
    );
    let with_result = match response.result {
        Some(result) => base.insert("result"@, result),
        None => base,
    };
    let with_error = match response.error {
        Some(error) => with_result.insert("error"@, error),
        None => with_result,
    };
    with_error.insert("id"@, response.id)
}

/// The envelope of a response.
pub fn response_to_json(resp: Response) -> (r: Value)
    ensures
        r@ == ValueView::Object(response_members(resp@)),
{
    let mut obj = Object::new();
    obj.insert(String::from_str("jsonrpc"), Value::String(String::from_str("2.0")));
    if let Some(result) = resp.result {
        obj.insert(String::from_str("result"), result);
    }
    if let Some(error) = resp.error {
        obj.insert(String::from_str("error"), error);
    }
    obj.insert(String::from_str("id"), resp.id);
    Value::Object(obj)
}

/// The envelopes of a batch of responses, in order.
pub open spec fn response_envelopes(responses: Seq<ResponseView>) -> Seq<ValueView> {
    responses.map_values(|r: ResponseView| ValueView::Object(response_members(r)))
}

/// The array of the envelopes of a batch of responses, in the order of the
/// batch.
pub fn responses_to_json(responses: Vec<Response>) -> (r: Value)
    ensures
        r@ == ValueView::Array(response_envelopes(responses_view(responses@))),
{
    let mut responses = responses;
    let ghost batch = responses_view(responses@);
    let mut envelopes: Vec<Value> = Vec::with_capacity(responses.len());
    let mut i: usize = 0;
    while i < responses.len()
        invariant
            i <= responses.len(),
            responses.len() == batch.len(),
            envelopes.len() == i,
            forall|j: int| i <= j < responses.len() ==> responses[j]@ == batch[j],
            forall|j: int| 0 <= j < i ==> envelopes[j]@ == response_envelopes(batch)[j],
        decreases responses.len() - i,
    {
        let mut response = Response::new(None, None, Value::Null);
        core::mem::swap(&mut response, &mut responses[i]);
        envelopes.push(response_to_json(response));
        i += 1;
    }
    assert(items_view(&envelopes) =~= response_envelopes(batch));
    Value::Array(envelopes)
}

/// The request that the members of an envelope spell, or the failure that
/// the envelope is rejected with. The version is checked first, then the
/// method; `params` and `id` are taken as they are found, and a request
/// without an id is a notification.
pub open spec fn decode_request(members: Map<Seq<char>, ValueView>) -> Result<
    RequestView,
    InternalErrorView,
> {
    if !version_ok(members) {
        Err(version_failure(members))
    } else if !members.contains_key("method"@) {
        Err(
            InternalErrorView {
                kind: InternalErrorKind::InvalidRequest,
                desc: "`method` is required"@,
                detail: None,
            },
        )
    } else {
        match members["method"@] {
            ValueView::String(method) => Ok(
                RequestView {
                    method: method,
                    params: member(members, "params"@),
                    id: member(members, "id"@),
                },
            ),
            other => Err(
                InternalErrorView {
                    kind: InternalErrorKind::InvalidRequest,
                    desc: "`method` must be a String"@,
                    detail: Some("Expecting method, but found "@ + json_debug(other)),
                },
            ),
        }
    }
}

/// Whether `r` is what `expected` asks for: the request of that model, or
/// the internal error of that model.
pub open spec fn request_outcome(
    r: crate::proto::Result<Request>,
    expected: Result<RequestView, InternalErrorView>,
) -> bool {
    match r {
        Ok(request) => expected == Ok::<RequestView, InternalErrorView>(request@),
        Err(e) => expected is Err && is_internal(e, expected->Err_0),
    }
}

/// Reads a request out of the members of its envelope.
pub fn json_to_request(obj: Object) -> (r: crate::proto::Result<Request>)
    ensures
        request_outcome(r, decode_request(obj@)),
{
    let mut obj = obj;
    proof {
        lemma_member_names();
    }
    match check_version(&obj) {
        Ok(_) => {},
        Err(e) => {
            return Err(e);
        },
    }
    let method = match obj.remove("method") {
        Some(Value::String(m)) => m,
        Some(other) => {
            let ierr = InternalError::new(
                InternalErrorKind::InvalidRequest,
                "`method` must be a String",
                Some(
                    String::from_str("Expecting method, but found ").concat(
                        debug_text(&other).as_str(),
                    ),
                ),
            );
            return Err(Error::InternalError(ierr));
        },
        None => {
            let ierr = InternalError::new(
                InternalErrorKind::InvalidRequest,
                "`method` is required",
                None,
            );
            return Err(Error::InternalError(ierr));
        },
    };
    let params = obj.remove("params");
    let id = obj.remove("id");
    Ok(Request::new(method, params, id))
}

/// The failure that a batch element which is no object is rejected with.
pub open spec fn not_a_request_object(found: ValueView) -> InternalErrorView {
    InternalErrorView {
        kind: InternalErrorKind::InvalidRequest,
        desc: "Invalid JSON-RPC request"@,
        detail: Some("Expecting a Request object, but found "@ + json_debug(found)),
    }
}

/// The failure that a value which is neither an object nor an array is
/// rejected with.
pub open spec fn not_a_request(found: ValueView) -> InternalErrorView {
    InternalErrorView {
        kind: InternalErrorKind::InvalidRequest,
        desc: "Invalid JSON-RPC request"@,
        detail: Some("Expecting JSON-RPC request, but found "@ + json_debug(found)),
    }
}

/// The request that one element of a batch spells.
pub open spec fn decode_request_element(value: ValueView) -> Result<
    RequestView,
    InternalErrorView,
> {
    match value {
        ValueView::Object(members) => decode_request(members),
        other => Err(not_a_request_object(other)),
    }
}

/// The requests that the elements of a batch spell, in order, or the
/// failure of the first element that spells none.
pub open spec fn decode_request_batch(items: Seq<ValueView>) -> Result<
    Seq<RequestView>,
    InternalErrorView,
>
    decreases items.len(),
{
    if items.len() == 0 {
        Ok(Seq::empty())
    } else {
        match decode_request_batch(items.drop_last()) {
            Ok(requests) => match decode_request_element(items.last()) {
                Ok(request) => Ok(requests.push(request)),
                Err(e) => Err(e),
            },
            Err(e) => Err(e),
        }
    }
}

/// What a JSON value is on the server's side: an object is one request, an
/// array is a batch, and anything else is rejected.
pub open spec fn decode_client_request(value: ValueView) -> Result<
    ClientRequestView,
    InternalErrorView,
> {
    match value {
        ValueView::Object(members) => match decode_request(members) {
            Ok(request) => Ok(ClientRequestView::Single(request)),
            Err(e) => Err(e),
        },
        ValueView::Array(items) => match decode_request_batch(items) {
            Ok(requests) => Ok(ClientRequestView::Batch(requests)),
            Err(e) => Err(e),
        },
        other => Err(not_a_request(other)),
    }
}

/// Whether `r` is what `expected` asks for.
pub open spec fn client_request_outcome(
    r: crate::proto::Result<ClientRequest>,
    expected: Result<ClientRequestView, InternalErrorView>,
) -> bool {
    match r {
        Ok(request) => expected == Ok::<ClientRequestView, InternalErrorView>(request@),
        Err(e) => expected is Err && is_internal(e, expected->Err_0),
    }
}

/// Reads what a client sent out of a JSON value: one request or a batch.
/// A batch is read whole or not at all.
pub fn request_from_json(req: Value) -> (r: crate::proto::Result<ClientRequest>)
    ensures
        client_request_outcome(r, decode_client_request(req@)),
{
    let ghost whole = req@;
    match req {
        Value::Object(obj) => {
            match json_to_request(obj) {
                Ok(request) => Ok(ClientRequest::Single(request)),
                Err(e) => Err(e),
            }
        },
        Value::Array(arr) => {
            let mut arr = arr;
            let ghost items = crate::value::items_view(&arr);
            let mut batch: Vec<Request> = Vec::with_capacity(arr.len());
            let mut i: usize = 0;
            proof {
                assert(items.take(0) =~= Seq::<ValueView>::empty());
                assert(requests_view(batch@) =~= Seq::<RequestView>::empty());
            }
            while i < arr.len()
                invariant
                    i <= arr.len(),
                    whole == req@,
                    whole == ValueView::Array(items),
                    arr.len() == items.len(),
                    forall|j: int| i <= j < arr.len() ==> arr[j]@ == items[j],
                    decode_request_batch(items.take(i as int)) == Ok::<
                        Seq<RequestView>,
                        InternalErrorView,
                    >(requests_view(batch@)),
                decreases arr.len() - i,
            {
                let mut item = Value::Null;
                core::mem::swap(&mut item, &mut arr[i]);
                proof {
                    assert(items.take(i as int + 1).drop_last() =~= items.take(i as int));
                    assert(items.take(i as int + 1).last() == items[i as int]);
                }
                let outcome = match item {
                    Value::Object(obj) => json_to_request(obj),
                    other => {
                        let ierr = InternalError::new(
                            InternalErrorKind::InvalidRequest,
                            "Invalid JSON-RPC request",
                            Some(
                                String::from_str("Expecting a Request object, but found ").concat(
                                    debug_text(&other).as_str(),
                                ),
                            ),
                        );
                        Err(Error::InternalError(ierr))
                    },
                };
                match outcome {
                    Ok(request) => {
                        let ghost before = batch@;
                        batch.push(request);
                        assert(requests_view(batch@) =~= requests_view(before).push(request@));
                    },
                    Err(e) => {
                        proof {
                            lemma_batch_failure(items, i as int + 1);
                        }
                        return Err(e);
                    },
                }
                i += 1;
            }
            assert(items.take(i as int) =~= items);
            Ok(ClientRequest::Batch(batch))
        },
        other => {
            let ierr = InternalError::new(
                InternalErrorKind::InvalidRequest,
                "Invalid JSON-RPC request",
                Some(
                    String::from_str("Expecting JSON-RPC request, but found ").concat(
                        debug_text(&other).as_str(),
                    ),
                ),
            );
            Err(Error::InternalError(ierr))
        },
    }
}

/// A batch fails as soon as one of its prefixes fails, and with the same
/// failure.
pub proof fn lemma_batch_failure(items: Seq<ValueView>, n: int)
    requires
        0 <= n <= items.len(),
        decode_request_batch(items.take(n)) is Err,
    ensures
        decode_request_batch(items) == decode_request_batch(items.take(n)),
    decreases items.len() - n,
{
    if n == items.len() {
        assert(items.take(n) =~= items);
    } else {
        assert(items.take(n + 1).drop_last() =~= items.take(n));
        lemma_batch_failure(items, n + 1);
    }
}

} // verus!
