//! Single messages and batches.

use vstd::prelude::*;
use crate::proto::{Request, RequestView, Response, ResponseView, Result};

verus! {

/// The models of a sequence of requests, in order.
pub open spec fn requests_view(requests: Seq<Request>) -> Seq<RequestView> {
    requests.map_values(|r: Request| r@)
}

/// The models of a sequence of responses, in order.
pub open spec fn responses_view(responses: Seq<Response>) -> Seq<ResponseView> {
    responses.map_values(|r: Response| r@)
}

/// The model of what a server receives.
pub enum ClientRequestView {
    Single(RequestView),
    Batch(Seq<RequestView>),
}

/// What a server receives: one request, or a batch of them in order.
#[derive(Debug, PartialEq)]
pub enum ClientRequest {
    Single(Request),
    Batch(Vec<Request>),
}

impl View for ClientRequest {
    type V = ClientRequestView;

    open spec fn view(&self) -> ClientRequestView {
        match self {
            ClientRequest::Single(request) => ClientRequestView::Single(request@),
            ClientRequest::Batch(requests) => ClientRequestView::Batch(requests_view(requests@)),
        }
    }
}

/// The model of what a client receives.
pub enum ServerResponseView {
    Single(ResponseView),
    Batch(Seq<ResponseView>),
}

/// What a client receives: one response, or a batch of them in order.
#[derive(Debug, PartialEq)]
pub enum ServerResponse {
    Single(Response),
    Batch(Vec<Response>),
}

impl View for ServerResponse {
    type V = ServerResponseView;

    open spec fn view(&self) -> ServerResponseView {
        match self {
            ServerResponse::Single(response) => ServerResponseView::Single(response@),
            ServerResponse::Batch(responses) => ServerResponseView::Batch(
                responses_view(responses@),
            ),
        }
    }
}

impl Clone for ClientRequest {
    fn clone(&self) -> (r: ClientRequest)
        ensures
            r@ == self@,
    {
        match self {
            ClientRequest::Single(request) => ClientRequest::Single(request.clone()),
            ClientRequest::Batch(requests) => {
                let mut copies: Vec<Request> = Vec::with_capacity(requests.len());
                let mut i: usize = 0;
                while i < requests.len()
                    invariant
                        i <= requests.len(),
                        copies.len() == i,
                        forall|j: int| 0 <= j < i ==> copies[j]@ == requests[j]@,
                    decreases requests.len() - i,
                {
                    copies.push(requests[i].clone());
                    i += 1;
                }
                assert(requests_view(copies@) =~= requests_view(requests@));
                ClientRequest::Batch(copies)
            },
        }
    }
}

impl Clone for ServerResponse {
    fn clone(&self) -> (r: ServerResponse)
        ensures
            r@ == self@,
    {
        match self {
            ServerResponse::Single(response) => ServerResponse::Single(response.clone()),
            ServerResponse::Batch(responses) => {
                let mut copies: Vec<Response> = Vec::with_capacity(responses.len());
                let mut i: usize = 0;
                while i < responses.len()
                    invariant
                        i <= responses.len(),
                        copies.len() == i,
                        forall|j: int| 0 <= j < i ==> copies[j]@ == responses[j]@,
                    decreases responses.len() - i,
                {
                    copies.push(responses[i].clone());
                    i += 1;
                }
                assert(responses_view(copies@) =~= responses_view(responses@));
                ServerResponse::Batch(copies)
            },
        }
    }
}

/// The sending half of a client.
pub trait SendRequest {
    /// Sends one request.
    fn request(&mut self, request: Request) -> Result<()>;

    /// Sends a batch of requests as one message.
    fn batch_request(&mut self, requests: Vec<Request>) -> Result<()>;
}

/// The receiving half of a client.
pub trait GetResponse {
    /// Reads the message that waits, or `None` at the end of the stream.
    fn get_response(&mut self) -> Result<Option<ServerResponse>>;
}

/// The sending half of a server.
pub trait SendResponse {
    /// Sends one response.
    fn response(&mut self, response: Response) -> Result<()>;

    /// Sends a batch of responses as one message.
    fn batch_response(&mut self, responses: Vec<Response>) -> Result<()>;
}

/// The receiving half of a server.
pub trait GetRequest {
    /// Reads the message that waits, or `None` at the end of the stream.
    fn get_request(&mut self) -> Result<Option<ClientRequest>>;
}

} // verus!
