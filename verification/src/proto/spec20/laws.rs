//! What holds of the codec whatever the message.

use vstd::prelude::*;
use crate::proto::{
    InternalErrorKind, InternalErrorView, ProtocolErrorView, RequestView, Response, ResponseView,
};
use crate::proto::spec20::{lemma_member_names, version_ok};
use crate::proto::spec20::client::{
    decode_response, decode_response_batch, decode_response_element, decode_server_response,
    request_envelopes, request_members,
};
use crate::proto::spec20::server::{
    answer_view, calls_answered, decode_client_request, decode_request, decode_request_batch,
    decode_request_element, response_envelopes, response_members,
};
use crate::proto::trans::{ClientRequestView, ServerResponseView};
use crate::value::ValueView;

verus! {

/// Reading the envelope of a request gives the request back, field for
/// field: the method, and `params` and `id` present or absent as they were.
pub proof fn request_round_trip(request: RequestView)
    ensures
        decode_request(request_members(request)) == Ok::<RequestView, InternalErrorView>(request),
        decode_client_request(ValueView::Object(request_members(request))) == Ok::<
            ClientRequestView,
            InternalErrorView,
        >(ClientRequestView::Single(request)),
{
    lemma_member_names();
}

/// Reading the envelopes of a batch of requests gives the batch back, in
/// order.
pub proof fn request_batch_round_trip(requests: Seq<RequestView>)
    ensures
        decode_request_batch(request_envelopes(requests)) == Ok::<
            Seq<RequestView>,
            InternalErrorView,
        >(requests),
        decode_client_request(ValueView::Array(request_envelopes(requests))) == Ok::<
            ClientRequestView,
            InternalErrorView,
        >(ClientRequestView::Batch(requests)),
    decreases requests.len(),
{
    if requests.len() > 0 {
        request_batch_round_trip(requests.drop_last());
        request_round_trip(requests.last());
        assert(request_envelopes(requests).drop_last() =~= request_envelopes(
            requests.drop_last(),
        ));
        assert(requests.drop_last().push(requests.last()) =~= requests);
    } else {
        assert(requests =~= Seq::<RequestView>::empty());
    }
}

/// Reading the envelope of a response gives the response back.
pub proof fn response_round_trip(response: ResponseView)
    ensures
        decode_response(response_members(response)) == Ok::<ResponseView, InternalErrorView>(
            response,
        ),
        decode_server_response(ValueView::Object(response_members(response))) == Ok::<
            ServerResponseView,
            InternalErrorView,
        >(ServerResponseView::Single(response)),
{
    lemma_member_names();
}

/// Reading the envelopes of a batch of responses gives the batch back, in
/// order.
pub proof fn response_batch_round_trip(responses: Seq<ResponseView>)
    ensures
        decode_response_batch(response_envelopes(responses)) == Ok::<
            Seq<ResponseView>,
            InternalErrorView,
        >(responses),
        decode_server_response(ValueView::Array(response_envelopes(responses))) == Ok::<
            ServerResponseView,
            InternalErrorView,
        >(ServerResponseView::Batch(responses)),
    decreases responses.len(),
{
    if responses.len() > 0 {
        response_batch_round_trip(responses.drop_last());
        response_round_trip(responses.last());
        assert(response_envelopes(responses).drop_last() =~= response_envelopes(
            responses.drop_last(),
        ));
        assert(responses.drop_last().push(responses.last()) =~= responses);
    } else {
        assert(responses =~= Seq::<ResponseView>::empty());
    }
}

/// The envelope of a request has a member `id` exactly where the request
/// has an id: that of a notification has none.
pub proof fn notification_has_no_id(request: RequestView)
    ensures
        request_members(request).contains_key("id"@) <==> request.id is Some,
{
    lemma_member_names();
}

/// A request that is read out of an envelope has an id exactly where the
/// envelope has a member `id`: without one it is a notification.
pub proof fn envelope_without_id_is_notification(members: Map<Seq<char>, ValueView>)
    requires
        decode_request(members) is Ok,
    ensures
        decode_request(members)->Ok_0.id is Some <==> members.contains_key("id"@),
{
}

/// A request that is read out of an envelope without a member `id` gets no
/// answer, whatever the outcome of handling it.
pub proof fn notification_gets_no_answer(
    members: Map<Seq<char>, ValueView>,
    outcome: Result<ValueView, ProtocolErrorView>,
)
    requires
        decode_request(members) is Ok,
        !members.contains_key("id"@),
    ensures
        decode_request(members)->Ok_0.id is None,
        answer_view(decode_request(members)->Ok_0, outcome) is None,
{
}

/// An envelope whose member `jsonrpc` is missing, or is not the string
/// `"2.0"`, is rejected as a request and as a response, with the kind
/// `InvalidVersion`.
pub proof fn version_gate(members: Map<Seq<char>, ValueView>)
    requires
        !version_ok(members),
    ensures
        decode_request(members) is Err,
        decode_request(members)->Err_0.kind == InternalErrorKind::InvalidVersion,
        decode_response(members) is Err,
        decode_response(members)->Err_0.kind == InternalErrorKind::InvalidVersion,
{
}

/// A batch of requests with one element that is rejected is rejected
/// whole.
pub proof fn request_batch_is_atomic(items: Seq<ValueView>, i: int)
    requires
        0 <= i < items.len(),
        decode_request_element(items[i]) is Err,
    ensures
        decode_request_batch(items) is Err,
        decode_client_request(ValueView::Array(items)) is Err,
    decreases items.len(),
{
    if i < items.len() - 1 {
        request_batch_is_atomic(items.drop_last(), i);
    }
}

/// A batch of responses with one element that is rejected is rejected
/// whole.
pub proof fn response_batch_is_atomic(items: Seq<ValueView>, i: int)
    requires
        0 <= i < items.len(),
        decode_response_element(items[i]) is Err,
    ensures
        decode_response_batch(items) is Err,
        decode_server_response(ValueView::Array(items)) is Err,
    decreases items.len(),
{
    if i < items.len() - 1 {
        response_batch_is_atomic(items.drop_last(), i);
    }
}

/// The ids of the calls of a batch, in the order of the batch. A
/// notification has none.
pub open spec fn call_ids(requests: Seq<RequestView>) -> Seq<ValueView>
    decreases requests.len(),
{
    if requests.len() == 0 {
        Seq::empty()
    } else {
        let before = call_ids(requests.drop_last());
        match requests.last().id {
            Some(id) => before.push(id),
            None => before,
        }
    }
}

/// The ids of a sequence of responses, in order.
pub open spec fn response_ids(responses: Seq<ResponseView>) -> Seq<ValueView> {
    responses.map_values(|r: ResponseView| r.id)
}

/// Where each request of a batch has the answer that its outcome asks for,
/// the responses of the batch are those of its calls: one for each call,
/// under the id of the call, in the order of the calls. A notification
/// fills no slot.
pub proof fn batch_answers_follow_calls(
    requests: Seq<RequestView>,
    outcomes: Seq<Result<ValueView, ProtocolErrorView>>,
    answers: Seq<Option<Response>>,
)
    requires
        requests.len() == outcomes.len(),
        requests.len() == answers.len(),
        forall|i: int|
            0 <= i < requests.len() ==> match #[trigger] answers[i] {
                Some(response) => answer_view(requests[i], outcomes[i]) == Some(response@),
                None => answer_view(requests[i], outcomes[i]) is None,
            },
    ensures
        response_ids(calls_answered(answers)) == call_ids(requests),
        calls_answered(answers).len() == call_ids(requests).len(),
    decreases requests.len(),
{
    if requests.len() == 0 {
        assert(response_ids(calls_answered(answers)) =~= call_ids(requests));
    } else {
        let n = requests.len() - 1;
        batch_answers_follow_calls(
            requests.drop_last(),
            outcomes.drop_last(),
            answers.drop_last(),
        );
        let before = calls_answered(answers.drop_last());
        assert(answers.last() == answers[n]);
        match answers.last() {
            Some(response) => {
                assert(answer_view(requests[n], outcomes[n]) == Some(response@));
                assert(response_ids(before.push(response@)) =~= response_ids(before).push(
                    response@.id,
                ));
            },
            None => {
                assert(answer_view(requests[n], outcomes[n]) is None);
            },
        }
    }
}

} // verus!
