use jsonrpc::proto::spec20::client::{ClientReader, ClientStream, ClientWriter};
use jsonrpc::proto::spec20::server::{
    answer, batch_answers, send_answer, ServerReader, ServerStream, ServerWriter,
};
use jsonrpc::proto::spec20::{errors, receive, send, send_text, Client, Server};
use jsonrpc::proto::trans::{
    ClientRequest, GetRequest, GetResponse, SendRequest, SendResponse, ServerResponse,
};
use jsonrpc::proto::{Error, InternalErrorKind, Request, Response};
use jsonrpc::stream::Stream;
use jsonrpc::value::Value;

fn text(s: &str) -> Value {
    Value::String(s.to_owned())
}

fn stream_of(bytes: &[u8]) -> Stream {
    let mut stream = Stream::new();
    stream.write(bytes);
    stream
}

#[test]
fn spec20_test_spec20_request() {
    let params = vec![text("ping")];

    let request = Request::new("echo".to_owned(), Some(Value::Array(params)), Some(Value::U64(1)));

    let mut buf = Stream::new();

    {
        let mut client = Client::new(&mut buf);
        client.request(request.clone()).unwrap();
    }

    let expected = b"{\"id\":1,\"jsonrpc\":\"2.0\",\"method\":\"echo\",\"params\":[\"ping\"]}";
    assert_eq!(&expected[..], buf.bytes());

    let request_svr = {
        let mut server = Server::new(&mut buf);
        server.get_request().unwrap()
    };

    assert_eq!(Some(ClientRequest::Single(request)), request_svr);
}

#[test]
fn spec20_test_spec20_server_response() {
    let result = text("pong");

    let response = Response::new(Some(result), None, Value::U64(1));

    let mut buf = Stream::new();

    {
        let mut server = Server::new(&mut buf);
        server.response(response.clone()).unwrap();
    }

    let expected = b"{\"id\":1,\"jsonrpc\":\"2.0\",\"result\":\"pong\"}";
    assert_eq!(&expected[..], buf.bytes());

    let response_cli = {
        let mut client = Client::new(&mut buf);
        client.get_response().unwrap()
    };

    assert_eq!(Some(ServerResponse::Single(response)), response_cli);
}

#[test]
fn mod_test_spec20_request() {
    let params = vec![text("ping")];

    let request = Request::new("echo".to_owned(), Some(Value::Array(params)), Some(Value::U64(1)));

    let mut buf = Stream::new();

    {
        let mut client = ClientStream::new(&mut buf);
        client.request(request.clone()).unwrap();
    }

    let expected = b"{\"id\":1,\"jsonrpc\":\"2.0\",\"method\":\"echo\",\"params\":[\"ping\"]}";
    assert_eq!(&expected[..], buf.bytes());

    let request_svr = {
        let mut server = ServerStream::new(&mut buf);
        server.get_request().unwrap()
    };

    assert_eq!(Some(ClientRequest::Single(request)), request_svr);
}

#[test]
fn mod_test_spec20_server_response() {
    let result = text("pong");

    let response = Response::new(Some(result), None, Value::U64(1));

    let mut buf = Stream::new();

    {
        let mut server = ServerStream::new(&mut buf);
        server.response(response.clone()).unwrap();
    }

    let expected = b"{\"id\":1,\"jsonrpc\":\"2.0\",\"result\":\"pong\"}";
    assert_eq!(&expected[..], buf.bytes());

    let response_cli = {
        let mut client = ClientStream::new(&mut buf);
        client.get_response().unwrap()
    };

    assert_eq!(Some(ServerResponse::Single(response)), response_cli);
}

#[test]
fn response_result_has_exact_bytes() {
    let mut buf = Stream::new();
    ServerWriter::new(&mut buf).response(Response::result(text("pong"), Value::U64(1))).unwrap();
    assert_eq!(&b"{\"id\":1,\"jsonrpc\":\"2.0\",\"result\":\"pong\"}"[..], buf.bytes());
}

#[test]
fn error_response_has_exact_bytes() {
    let mut buf = Stream::new();
    let response = Response::error(errors::MethodNotFound::new(), Value::I64(-3));
    ServerWriter::new(&mut buf).response(response).unwrap();
    let expected =
        b"{\"error\":{\"code\":-32601,\"message\":\"Method not found\"},\"id\":-3,\"jsonrpc\":\"2.0\"}";
    assert_eq!(&expected[..], buf.bytes());
}

#[test]
fn notification_is_written_without_id() {
    let mut buf = Stream::new();
    let notify = Request::new_notify("touch".to_owned(), Some(Value::Array(vec![text("x")])));
    ClientWriter::new(&mut buf).request(notify.clone()).unwrap();
    assert_eq!(
        &b"{\"jsonrpc\":\"2.0\",\"method\":\"touch\",\"params\":[\"x\"]}"[..],
        buf.bytes()
    );
    let got = ServerReader::new(&mut buf).get_request().unwrap();
    assert_eq!(Some(ClientRequest::Single(notify)), got);
}

#[test]
fn request_without_params_omits_the_member() {
    let mut buf = Stream::new();
    let request = Request::without_params("ping".to_owned(), Some(text("a")));
    ClientWriter::new(&mut buf).request(request).unwrap();
    assert_eq!(&b"{\"id\":\"a\",\"jsonrpc\":\"2.0\",\"method\":\"ping\"}"[..], buf.bytes());
}

#[test]
fn batch_request_is_an_array_in_order() {
    let first = Request::new("a".to_owned(), None, Some(Value::U64(1)));
    let second = Request::new_notify("b".to_owned(), None);
    let third = Request::new("c".to_owned(), None, Some(Value::U64(3)));
    let batch = vec![first, second, third];
    let mut buf = Stream::new();
    ClientWriter::new(&mut buf).batch_request(batch.clone()).unwrap();
    let expected = b"[{\"id\":1,\"jsonrpc\":\"2.0\",\"method\":\"a\"},{\"jsonrpc\":\"2.0\",\"method\":\"b\"},{\"id\":3,\"jsonrpc\":\"2.0\",\"method\":\"c\"}]";
    assert_eq!(&expected[..], buf.bytes());
    let got = ServerReader::new(&mut buf).get_request().unwrap();
    assert_eq!(Some(ClientRequest::Batch(batch)), got);
}

#[test]
fn batch_response_is_an_array_in_order() {
    let batch = vec![
        Response::result(Value::U64(10), Value::U64(1)),
        Response::error(errors::InvalidParams::new(), Value::U64(2)),
    ];
    let mut buf = Stream::new();
    ServerWriter::new(&mut buf).batch_response(batch.clone()).unwrap();
    let expected = b"[{\"id\":1,\"jsonrpc\":\"2.0\",\"result\":10},{\"error\":{\"code\":-32602,\"message\":\"Invalid params\"},\"id\":2,\"jsonrpc\":\"2.0\"}]";
    assert_eq!(&expected[..], buf.bytes());
    let got = ClientReader::new(&mut buf).get_response().unwrap();
    assert_eq!(Some(ServerResponse::Batch(batch)), got);
}

#[test]
fn empty_batch_round_trips() {
    let mut buf = Stream::new();
    ClientWriter::new(&mut buf).batch_request(vec![]).unwrap();
    assert_eq!(&b"[]"[..], buf.bytes());
    let got = ServerReader::new(&mut buf).get_request().unwrap();
    assert_eq!(Some(ClientRequest::Batch(vec![])), got);
}

#[test]
fn end_of_stream_is_no_error() {
    let mut buf = Stream::new();
    assert_eq!(None, ServerReader::new(&mut buf).get_request().unwrap());
    assert_eq!(None, ClientReader::new(&mut buf).get_response().unwrap());
    assert_eq!(None, receive(&mut buf, InternalErrorKind::InvalidRequest).unwrap());
}

#[test]
fn reading_empties_the_stream() {
    let mut buf = stream_of(b"{\"jsonrpc\":\"2.0\",\"method\":\"m\"}");
    assert!(ServerReader::new(&mut buf).get_request().unwrap().is_some());
    assert!(buf.is_empty());
    assert_eq!(None, ServerReader::new(&mut buf).get_request().unwrap());
}

#[test]
fn malformed_json_is_a_parse_failure() {
    let mut buf = stream_of(b"{\"jsonrpc\":");
    let err = ServerReader::new(&mut buf).get_request().unwrap_err();
    assert!(matches!(err, Error::ParserError(_)));
    let wire = err.to_protocol_error();
    assert_eq!(-32700, wire.code);
    assert_eq!("Parse error", wire.message);
    assert_eq!(Some(text("failed to parse json")), wire.data);
}

#[test]
fn trailing_text_is_a_parse_failure() {
    let mut buf = stream_of(b"{\"jsonrpc\":\"2.0\",\"method\":\"m\"} x");
    let err = ServerReader::new(&mut buf).get_request().unwrap_err();
    assert!(matches!(err, Error::ParserError(_)));
}

#[test]
fn bytes_that_are_no_utf8_are_rejected() {
    let mut buf = stream_of(&[0x7b, 0xff, 0x7d]);
    let err = ServerReader::new(&mut buf).get_request().unwrap_err();
    assert!(matches!(err, Error::NotUtf8));
    let wire = err.to_protocol_error();
    assert_eq!(-32600, wire.code);
    assert_eq!("Invalid Request", wire.message);
    assert_eq!(None, wire.data);
    assert!(buf.is_empty());
}

#[test]
fn text_beyond_ascii_is_read() {
    let mut buf = stream_of("{\"jsonrpc\":\"2.0\",\"method\":\"gr\u{fc}\u{df}\"}".as_bytes());
    let got = ServerReader::new(&mut buf).get_request().unwrap();
    let expected = Request::new_notify("gr\u{fc}\u{df}".to_owned(), None);
    assert_eq!(Some(ClientRequest::Single(expected)), got);
}

#[test]
fn request_without_version_maps_to_invalid_request() {
    let mut buf = stream_of(b"{\"method\":\"add\",\"params\":[1,2]}");
    let err = ServerReader::new(&mut buf).get_request().unwrap_err();
    match &err {
        Error::InternalError(ierr) => {
            assert_eq!(InternalErrorKind::InvalidVersion, ierr.kind());
            assert_eq!("Invalid JSON-RPC version", ierr.desc());
            assert_eq!(Some("Missing `jsonrpc` field"), ierr.detail());
        }
        other => panic!("unexpected {:?}", other),
    }
    let wire = err.to_protocol_error();
    assert_eq!(-32600, wire.code);
    assert_eq!("Invalid Request", wire.message);
    assert_eq!(Some(text("Missing `jsonrpc` field")), wire.data);
}

#[test]
fn request_without_id_is_a_notification_and_gets_no_answer() {
    let mut buf = stream_of(b"{\"jsonrpc\":\"2.0\",\"method\":\"unknown\"}");
    let got = ServerReader::new(&mut buf).get_request().unwrap();
    let request = match got {
        Some(ClientRequest::Single(request)) => request,
        other => panic!("unexpected {:?}", other),
    };
    assert_eq!("unknown", request.method);
    assert_eq!(None, request.params);
    assert_eq!(None, request.id);
    let reply = answer(&request, Err(errors::MethodNotFound::new()));
    assert_eq!(None, reply);
    send_answer(&mut buf, reply).unwrap();
    assert!(buf.is_empty());
}

#[test]
fn call_gets_its_answer_under_its_id() {
    let request = Request::new("echo".to_owned(), None, Some(Value::U64(7)));
    let reply = answer(&request, Ok(text("pong")));
    assert_eq!(Some(Response::result(text("pong"), Value::U64(7))), reply);
    let failed = answer(&request, Err(errors::InvalidParams::new()));
    assert_eq!(Some(Response::error(errors::InvalidParams::new(), Value::U64(7))), failed);
    let mut buf = Stream::new();
    send_answer(&mut buf, reply).unwrap();
    assert_eq!(&b"{\"id\":7,\"jsonrpc\":\"2.0\",\"result\":\"pong\"}"[..], buf.bytes());
}

#[test]
fn batch_answers_skip_notifications_and_keep_order() {
    let requests = vec![
        Request::new("one".to_owned(), None, Some(Value::U64(1))),
        Request::new_notify("two".to_owned(), None),
        Request::new("three".to_owned(), None, Some(Value::U64(3))),
    ];
    let mut answers = Vec::new();
    for request in requests.iter() {
        answers.push(answer(request, Ok(Value::String(request.method.clone()))));
    }
    let responses = batch_answers(answers);
    assert_eq!(
        vec![
            Response::result(text("one"), Value::U64(1)),
            Response::result(text("three"), Value::U64(3)),
        ],
        responses
    );
    let mut buf = Stream::new();
    ServerWriter::new(&mut buf).batch_response(responses).unwrap();
    let expected =
        b"[{\"id\":1,\"jsonrpc\":\"2.0\",\"result\":\"one\"},{\"id\":3,\"jsonrpc\":\"2.0\",\"result\":\"three\"}]";
    assert_eq!(&expected[..], buf.bytes());
}

#[test]
fn batch_answers_of_notifications_alone_is_empty() {
    assert_eq!(Vec::<Response>::new(), batch_answers(vec![None, None]));
    assert_eq!(Vec::<Response>::new(), batch_answers(vec![]));
}

#[test]
fn floats_are_carried_through() {
    let mut buf = stream_of(b"{\"id\":1,\"jsonrpc\":\"2.0\",\"method\":\"m\",\"params\":[1.5,-0.25,1e3]}");
    let value = receive(&mut buf, InternalErrorKind::InvalidRequest).unwrap().unwrap();
    send(&mut buf, &value).unwrap();
    assert_eq!(
        &b"{\"id\":1,\"jsonrpc\":\"2.0\",\"method\":\"m\",\"params\":[1.5,-0.25,1000.0]}"[..],
        buf.bytes()
    );
}

#[test]
fn sending_appends_to_what_waits() {
    let mut buf = stream_of(b"x");
    send(&mut buf, &Value::Null).unwrap();
    send(&mut buf, &Value::Boolean(true)).unwrap();
    send(&mut buf, &text("a\"b")).unwrap();
    assert_eq!(&b"xnulltrue\"a\\\"b\""[..], buf.bytes());
}

#[test]
fn stream_hands_over_all_that_was_written() {
    let mut stream = Stream::new();
    assert!(stream.is_empty());
    stream.write(b"ab");
    stream.write(b"");
    stream.write(b"c");
    assert!(!stream.is_empty());
    assert_eq!(&b"abc"[..], stream.bytes());
    assert_eq!(b"abc".to_vec(), stream.read_to_end());
    assert!(stream.is_empty());
    assert_eq!(Vec::<u8>::new(), stream.read_to_end());
}

#[test]
fn printed_text_is_written_as_utf8() {
    let mut buf = stream_of(b"x");
    send_text(&mut buf, Ok("gr\u{fc}n".to_owned())).unwrap();
    send_text(&mut buf, Ok(String::new())).unwrap();
    assert_eq!(&[0x78, 0x67, 0x72, 0xc3, 0xbc, 0x6e][..], buf.bytes());
}

#[test]
fn failure_to_print_writes_nothing() {
    let mut buf = stream_of(b"x");
    let failure = rustc_serialize::json::EncoderError::BadHashmapKey;
    let err = send_text(&mut buf, Err(failure)).unwrap_err();
    match &err {
        Error::EncoderError(e) => assert_eq!(&failure, e),
        other => panic!("unexpected {:?}", other),
    }
    assert_eq!(&b"x"[..], buf.bytes());
    assert_eq!(-32001, err.to_protocol_error().code);
}
