use jsonrpc::limits::{
    advance, check_limits, scan_text, Level, Marks, Place, Scan, MAX_DEPTH, MAX_EXPONENT_DIGITS,
    MAX_KEY_BYTES, MAX_TEXT_BYTES,
};
use jsonrpc::proto::spec20::client::ClientReader;
use jsonrpc::proto::spec20::receive;
use jsonrpc::proto::spec20::server::ServerReader;
use jsonrpc::proto::trans::{ClientRequest, GetRequest, GetResponse};
use jsonrpc::proto::{Error, InternalErrorKind};
use jsonrpc::stream::Stream;
use jsonrpc::text::parse_text;
use jsonrpc::value::Value;

fn stream_of(bytes: &[u8]) -> Stream {
    let mut stream = Stream::new();
    stream.write(bytes);
    stream
}

fn run(byte: char, count: usize) -> String {
    let mut text = String::new();
    for _ in 0..count {
        text.push(byte);
    }
    text
}

fn beyond(err: Error, kind: InternalErrorKind) {
    match err {
        Error::InternalError(ierr) => {
            assert_eq!(kind, ierr.kind());
            assert_eq!("JSON text beyond the limits", ierr.desc());
            assert_eq!(
                Some("Too long, nested too deep, too many bytes of keys, or too many digits of an exponent"),
                ierr.detail()
            );
        }
        other => panic!("unexpected {:?}", other),
    }
}

fn is_read(text: &str) -> bool {
    matches!(parse_text(text), Some(Ok(_)))
}

#[test]
fn limits_are_what_the_parser_can_take() {
    assert_eq!(4294967295, MAX_TEXT_BYTES);
    assert_eq!(65535, MAX_KEY_BYTES);
    assert_eq!(9, MAX_EXPONENT_DIGITS);
    assert_eq!(128, MAX_DEPTH);
}

#[test]
fn long_message_is_read() {
    let text = format!(
        "{{\"id\":1,\"jsonrpc\":\"2.0\",\"method\":\"m\",\"params\":[\"{}\"]}}",
        run('a', 100000)
    );
    assert!(check_limits(text.as_bytes()));
    let mut buf = stream_of(text.as_bytes());
    match ServerReader::new(&mut buf).get_request().unwrap() {
        Some(ClientRequest::Single(request)) => {
            assert_eq!(Some(Value::Array(vec![Value::String(run('a', 100000))])), request.params);
        }
        other => panic!("unexpected {:?}", other),
    }
}

#[test]
fn long_string_that_is_no_key_is_read() {
    assert!(is_read(&format!("\"{}\"", run('a', 70000))));
    assert!(is_read(&format!("[\"{}\"]", run('a', 70000))));
    assert!(is_read(&format!("{{\"a\":\"{}\"}}", run('a', 70000))));
    assert!(is_read(&format!("{{\"a\":{{\"b\":[\"{}\",\"{}\"]}}}}", run('a', 40000), run('b', 40000))));
}

#[test]
fn longest_key_is_read() {
    let text = format!("{{\"{}\":1}}", run('k', 65535));
    match parse_text(&text).unwrap().unwrap() {
        Value::Object(obj) => assert!(obj.contains_key(&run('k', 65535))),
        other => panic!("unexpected {:?}", other),
    }
    assert!(is_read(&format!("{{\"{}\":{{\"{}\":1}}}}", run('a', 32768), run('b', 32767))));
    assert!(is_read(&format!("{{\"{}\":{{\"{}\":1}}}}", run('a', 30000), run('b', 30000))));
}

#[test]
fn key_one_byte_longer_is_not_read() {
    let text = format!("{{\"{}\":1}}", run('k', 65536));
    assert!(!check_limits(text.as_bytes()));
    assert!(parse_text(&text).is_none());
    let nested = format!("{{\"{}\":{{\"{}\":1}}}}", run('a', 32768), run('b', 32768));
    assert!(parse_text(&nested).is_none());
    let mut buf = stream_of(text.as_bytes());
    beyond(ServerReader::new(&mut buf).get_request().unwrap_err(), InternalErrorKind::InvalidRequest);
    assert!(buf.is_empty());
    let mut buf = stream_of(text.as_bytes());
    beyond(ClientReader::new(&mut buf).get_response().unwrap_err(), InternalErrorKind::InvalidResponse);
    let mut buf = stream_of(text.as_bytes());
    beyond(
        receive(&mut buf, InternalErrorKind::MethodNotFound).unwrap_err(),
        InternalErrorKind::MethodNotFound,
    );
}

#[test]
fn failure_beyond_limits_maps_by_its_side() {
    let text = format!("{{\"{}\":1}}", run('k', 70000));
    let mut buf = stream_of(text.as_bytes());
    let err = ServerReader::new(&mut buf).get_request().unwrap_err();
    assert_eq!(-32600, err.to_protocol_error().code);
    let mut buf = stream_of(text.as_bytes());
    let err = ClientReader::new(&mut buf).get_response().unwrap_err();
    assert_eq!(-32603, err.to_protocol_error().code);
}

#[test]
fn long_keys_are_not_handed_to_the_parser() {
    let two_byte_start = format!("{{\"\u{e9}{}\":1}}", run('k', 65535));
    assert!(parse_text(&two_byte_start).is_none());
    let nested = format!("{{\"{}\":{{\"{}\":1}}}}", run('a', 40000), run('b', 30000));
    assert!(parse_text(&nested).is_none());
    let through_array = format!("{{\"{}\":[1,[{{\"{}\":1}}]]}}", run('a', 40000), run('b', 30000));
    assert!(parse_text(&through_array).is_none());
    let deep_inside = format!(
        "{{\"{}\":{{\"{}\":{{\"{}\":null}}}}}}",
        run('a', 30000),
        run('b', 30000),
        run('c', 5536)
    );
    assert!(parse_text(&deep_inside).is_none());
}

#[test]
fn keys_side_by_side_do_not_add_up() {
    let text = format!(
        "{{\"{}\":1,\"{}\":{{\"x\":2}},\"{}\":[3]}}",
        run('a', 30000),
        run('b', 30000),
        run('c', 30000)
    );
    match parse_text(&text).unwrap().unwrap() {
        Value::Object(obj) => assert_eq!(3, obj.len()),
        other => panic!("unexpected {:?}", other),
    }
    let after = format!("[{{\"{}\":{{}}}},{{\"{}\":{{\"{}\":1}}}}]", run('a', 60000), run('b', 30000), run('c', 30000));
    assert!(is_read(&after));
}

#[test]
fn escapes_in_a_key_count_as_they_are_written() {
    let key = run('\\', 2).repeat(30000);
    assert!(is_read(&format!("{{\"{}\":1}}", key)));
    let key = run('\\', 2).repeat(33000);
    assert!(parse_text(&format!("{{\"{}\":1}}", key)).is_none());
}

#[test]
fn nesting_is_read_to_its_limit() {
    let at_limit = format!("{}{}", run('[', 128), run(']', 128));
    assert!(is_read(&at_limit));
    let mixed = format!("{}1{}", "[{\"a\":".repeat(64), "}]".repeat(64));
    assert!(is_read(&mixed));
    let beyond_limit = format!("{}{}", run('[', 129), run(']', 129));
    assert!(!check_limits(beyond_limit.as_bytes()));
    assert!(parse_text(&beyond_limit).is_none());
    assert!(parse_text(&run('[', 65535)).is_none());
    assert!(parse_text(&"{\"a\":".repeat(129)).is_none());
    assert!(is_read(&format!("[{}]", "[[1]],".repeat(1000) + "2")));
    assert!(is_read(&format!("\"{}\"", run('[', 1000))));
}

#[test]
fn comma_before_the_end_of_an_object_is_a_parse_failure() {
    let cases = [
        "[{\"a\":{\"b\":1,},\"c\":2}]",
        "{\"a\":1,}",
        "{\"a\":1 , \t\r\n }",
        "{\"x\":{\"y\":{\"b\":1,}}}",
        "[[{\"b\":1,},2]]",
        "{,}",
        ",}",
    ];
    for text in cases.iter() {
        assert!(check_limits(text.as_bytes()));
        assert!(scan_text(text.as_bytes()).marks.trailing_comma);
        assert!(matches!(parse_text(text), Some(Err(_))));
        let mut buf = stream_of(text.as_bytes());
        let err = ServerReader::new(&mut buf).get_request().unwrap_err();
        assert!(matches!(err, Error::ParserError(_)));
        assert_eq!(-32700, err.to_protocol_error().code);
        assert!(buf.is_empty());
        let mut buf = stream_of(text.as_bytes());
        let err = ClientReader::new(&mut buf).get_response().unwrap_err();
        assert!(matches!(err, Error::ParserError(_)));
    }
}

#[test]
fn comma_elsewhere_is_left_to_the_parser() {
    assert!(is_read("{\"a\":\",}\"}"));
    assert!(is_read("{\"a\":[1,2],\"b\":{}}"));
    assert!(is_read("[{},{}]"));
    assert!(!scan_text(b"{\"a\":1,\"b\":2}").marks.trailing_comma);
    assert!(!scan_text(b"[1,]").marks.trailing_comma);
    assert!(matches!(parse_text("[1,]"), Some(Err(_))));
    assert!(matches!(parse_text("{\"a\":1,2}"), Some(Err(_))));
}

#[test]
fn exponent_of_nine_digits_is_read() {
    let value = parse_text("[1e000000002,2.5E+000000001,4e-000000002]").unwrap().unwrap();
    let expected = parse_text("[100.0,25.0,0.04]").unwrap().unwrap();
    assert_eq!(expected, value);
    assert!(check_limits(b"1e123456789"));
}

#[test]
fn exponent_of_ten_digits_is_not_read() {
    assert!(!check_limits(b"1e0000000002"));
    assert!(parse_text("1e0000000002").is_none());
    assert!(parse_text("[1,2.5E+1234567890]").is_none());
    assert!(parse_text("{\"a\":1e-00000000000000000001}").is_none());
    assert!(parse_text("1e12345678901234567890").is_none());
    let mut buf = stream_of(b"{\"jsonrpc\":\"2.0\",\"method\":\"m\",\"params\":[1e99999999999999999999]}");
    beyond(ServerReader::new(&mut buf).get_request().unwrap_err(), InternalErrorKind::InvalidRequest);
}

#[test]
fn digits_inside_a_string_are_no_exponent() {
    assert!(check_limits(b"\"1e12345678901234567890\""));
    assert!(!scan_text(b"\"1e12345678901234567890\"").marks.exponent);
    let value = parse_text("\"1e12345678901234567890\"").unwrap().unwrap();
    assert_eq!(Value::String("1e12345678901234567890".to_owned()), value);
    let escaped = "\"a\\\"1e12345678901234567890\\\\\"";
    assert!(check_limits(escaped.as_bytes()));
    assert_eq!(
        Value::String("a\"1e12345678901234567890\\".to_owned()),
        parse_text(escaped).unwrap().unwrap()
    );
    assert!(!check_limits(b"\"a\\\\\"1e12345678901234567890"));
}

#[test]
fn scan_follows_strings_and_numbers() {
    let start = scan_text(b"");
    assert_eq!(
        Scan {
            marks: Marks {
                in_string: false,
                escaped: false,
                is_key: false,
                run: 0,
                place: Place::Elsewhere,
                digits: 0,
                after_comma: false,
                exponent: false,
                long_exponent: false,
                long_key: false,
                deep: false,
                trailing_comma: false,
            },
            levels: vec![],
        },
        start
    );
    assert_eq!(Place::Digit, scan_text(b"12").marks.place);
    assert_eq!(Place::Digit, scan_text(b"1.5").marks.place);
    assert_eq!(Place::Mark, scan_text(b"1.5e").marks.place);
    assert_eq!(Place::Sign, scan_text(b"1.5e-").marks.place);
    assert_eq!(Place::Exponent, scan_text(b"1.5e-3").marks.place);
    assert_eq!(3, scan_text(b"1e123").marks.digits);
    assert_eq!(10, scan_text(b"1e1234567890123").marks.digits);
    assert!(scan_text(b"1e1").marks.exponent);
    assert!(scan_text(b"[1E1,2]").marks.exponent);
    assert!(!scan_text(b"true").marks.exponent);
    assert!(!scan_text(b"false").marks.exponent);
    assert!(!scan_text(b"[1,2.5,-3]").marks.exponent);
    assert!(!scan_text(b"{\"e\":1}").marks.exponent);
    assert_eq!(Place::Elsewhere, scan_text(b"e+").marks.place);
    assert_eq!(Place::Elsewhere, scan_text(b"1+").marks.place);
    assert!(scan_text(b"\"ab").marks.in_string);
    assert!(scan_text(b"\"ab\\").marks.escaped);
    assert!(scan_text(b"\"ab\\\"").marks.in_string);
    assert!(!scan_text(b"\"ab\\\"\"").marks.in_string);
    assert_eq!(4, scan_text(b"\"ab\\\"").marks.run);
    assert!(scan_text(b"1e1234567890").marks.long_exponent);
    assert!(!scan_text(b"1e123456789").marks.long_exponent);
    assert!(scan_text(b"1e1234567890,1").marks.long_exponent);
    assert!(scan_text(b"1,").marks.after_comma);
    assert!(scan_text(b"1, \n").marks.after_comma);
    assert!(!scan_text(b"1,2").marks.after_comma);
}

#[test]
fn scan_follows_levels_and_keys() {
    assert_eq!(
        vec![Level { object: true, key_next: true, key: 0, above: 0 }],
        scan_text(b"{").levels
    );
    assert!(scan_text(b"{\"ab").marks.is_key);
    assert_eq!(
        vec![Level { object: true, key_next: false, key: 2, above: 0 }],
        scan_text(b"{\"ab\"").levels
    );
    assert!(!scan_text(b"{\"ab\":\"cd").marks.is_key);
    assert_eq!(
        vec![Level { object: true, key_next: false, key: 2, above: 0 }],
        scan_text(b"{\"ab\":\"cdef\"").levels
    );
    assert_eq!(
        vec![Level { object: true, key_next: true, key: 2, above: 0 }],
        scan_text(b"{\"ab\":1,").levels
    );
    assert_eq!(
        vec![
            Level { object: true, key_next: false, key: 2, above: 0 },
            Level { object: false, key_next: false, key: 0, above: 2 },
            Level { object: true, key_next: false, key: 3, above: 2 },
            Level { object: true, key_next: true, key: 0, above: 5 },
        ],
        scan_text(b"{\"ab\":[1,{\"cde\":{").levels
    );
    assert_eq!(Vec::<Level>::new(), scan_text(b"{\"ab\":[1,{\"cde\":{}}]}").levels);
    assert_eq!(Vec::<Level>::new(), scan_text(b"]}").levels);
    assert!(!scan_text(b"[\"ab").marks.is_key);
    assert_eq!(
        vec![Level { object: false, key_next: false, key: 0, above: 0 }],
        scan_text(b"[\"ab\",").levels
    );

    let mut s = scan_text(b"{\"a\":1");
    advance(&mut s, b',');
    assert_eq!(scan_text(b"{\"a\":1,"), s);
    advance(&mut s, b'}');
    assert_eq!(scan_text(b"{\"a\":1,}"), s);
    assert!(s.marks.trailing_comma);
}

#[test]
fn text_with_exponent_is_still_read() {
    let mut buf = stream_of(b"{\"id\":1,\"jsonrpc\":\"2.0\",\"method\":\"m\",\"params\":[2e3]}");
    let got = ServerReader::new(&mut buf).get_request().unwrap();
    assert!(got.is_some());
}
