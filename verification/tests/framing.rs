use cox_runtime::framing::{read_message, write_message, FrameDecoder, FrameError, FrameStep};
use cox_runtime::rpc::{ParamValue, Params, Request};
use serde_json::Value;

fn ok<T>(r: Result<T, FrameError>) -> T {
    match r {
        Ok(v) => v,
        Err(e) => panic!("unexpected frame error: {}", e.message()),
    }
}

fn object(entries: Vec<(&str, Value)>) -> Value {
    let mut m = serde_json::Map::new();
    for (k, v) in entries {
        m.insert(k.to_string(), v);
    }
    Value::Object(m)
}

/// The request a decoded JSON message stands for.
fn to_request(v: &Value) -> Request {
    let mut params = Params::new();
    if let Some(Value::Object(p)) = v.get("params") {
        for (k, val) in p {
            let pv = match val {
                Value::String(s) => ParamValue::Str(s.clone()),
                Value::Bool(b) => ParamValue::Bool(*b),
                Value::Number(n) => match n.as_u64() {
                    Some(u) => ParamValue::Uint(u),
                    None => ParamValue::Other,
                },
                _ => ParamValue::Other,
            };
            params.push(k.clone(), pv);
        }
    }
    let method = v.get("method").and_then(Value::as_str).unwrap_or("").to_string();
    Request::new(v.get("id").cloned(), method, params)
}

#[test]
fn round_trips_a_message() {
    let req = object(vec![
        ("jsonrpc", Value::from("2.0")),
        ("id", Value::from(1)),
        ("method", Value::from("health/handshake")),
        ("params", object(vec![("protocol_version", Value::from(1))])),
    ]);

    let mut buf = Vec::new();
    write_message(&mut buf, &serde_json::to_vec(&req).unwrap());

    let text = String::from_utf8(buf.clone()).unwrap();
    assert!(text.starts_with("Content-Length: "));
    assert!(text.contains("\r\n\r\n"));

    let (body, _used) = ok(read_message(&buf));
    let parsed = to_request(&serde_json::from_slice::<Value>(&body).unwrap());
    assert_eq!(parsed.method, "health/handshake");
    assert!(!parsed.is_notification());
}

#[test]
fn reads_two_back_to_back_messages() {
    let mut buf = Vec::new();
    let a = object(vec![
        ("jsonrpc", Value::from("2.0")),
        ("id", Value::from(1)),
        ("method", Value::from("a")),
    ]);
    let b = object(vec![("jsonrpc", Value::from("2.0")), ("method", Value::from("b"))]);
    write_message(&mut buf, &serde_json::to_vec(&a).unwrap());
    write_message(&mut buf, &serde_json::to_vec(&b).unwrap());

    let (first_body, used) = ok(read_message(&buf));
    let (second_body, _) = ok(read_message(&buf[used..]));
    let first = to_request(&serde_json::from_slice::<Value>(&first_body).unwrap());
    let second = to_request(&serde_json::from_slice::<Value>(&second_body).unwrap());
    assert_eq!(first.method, "a");
    assert_eq!(second.method, "b");
    assert!(second.is_notification());
}

#[test]
fn clean_eof_between_messages() {
    let empty: Vec<u8> = Vec::new();
    assert!(matches!(read_message(&empty), Err(FrameError::Eof)));
}

#[test]
fn case_insensitive_header() {
    let buf = b"content-length: 2\r\n\r\n{}".to_vec();
    let (body, used) = ok(read_message(&buf));
    assert_eq!(body, b"{}".to_vec());
    assert_eq!(used, buf.len());
}

#[test]
fn frame_is_header_then_body() {
    let mut buf = Vec::new();
    write_message(&mut buf, b"hello");
    assert_eq!(buf, b"Content-Length: 5\r\n\r\nhello".to_vec());
    let mut empty = Vec::new();
    write_message(&mut empty, b"");
    assert_eq!(empty, b"Content-Length: 0\r\n\r\n".to_vec());
}

#[test]
fn round_trip_reports_bytes_used() {
    let mut buf = Vec::new();
    write_message(&mut buf, b"{\"x\":12}");
    let framed = buf.len();
    buf.extend_from_slice(b"trailing");
    let (body, used) = ok(read_message(&buf));
    assert_eq!(body, b"{\"x\":12}".to_vec());
    assert_eq!(used, framed);
}

#[test]
fn other_headers_are_skipped_and_last_length_wins() {
    let buf = b"X-Other: 1\r\nContent-Length: 9\r\nContent-Length: 3\r\n\r\nabcdef".to_vec();
    let (body, used) = ok(read_message(&buf));
    assert_eq!(body, b"abc".to_vec());
    assert_eq!(used, buf.len() - 3);
}

#[test]
fn bare_newlines_end_headers_too() {
    let buf = b"Content-Length:  4 \n\nabcd".to_vec();
    let (body, _) = ok(read_message(&buf));
    assert_eq!(body, b"abcd".to_vec());
}

#[test]
fn missing_length_is_a_header_error() {
    let buf = b"X-Other: 1\r\n\r\n{}".to_vec();
    match read_message(&buf) {
        Err(FrameError::Header(m)) => assert_eq!(m, "missing Content-Length"),
        _ => panic!("expected header error"),
    }
}

#[test]
fn invalid_length_is_a_header_error() {
    let buf = b"Content-Length: abc\r\n\r\n".to_vec();
    match read_message(&buf) {
        Err(FrameError::Header(m)) => assert_eq!(m, "invalid Content-Length:  abc"),
        _ => panic!("expected header error"),
    }
}

#[test]
fn line_without_colon_is_a_header_error() {
    let buf = b"garbage\r\n\r\n".to_vec();
    match read_message(&buf) {
        Err(e) => {
            assert!(matches!(e, FrameError::Header(_)));
            assert_eq!(e.message(), "malformed header: garbage");
        }
        _ => panic!("expected header error"),
    }
}

#[test]
fn short_body_is_an_io_error() {
    let buf = b"Content-Length: 10\r\n\r\nabc".to_vec();
    match read_message(&buf) {
        Err(FrameError::Io(m)) => assert_eq!(m, "failed to fill whole buffer"),
        _ => panic!("expected io error"),
    }
}

#[test]
fn eof_inside_headers_is_a_truncation() {
    let buf = b"Content-Length: 2\r\n".to_vec();
    match read_message(&buf) {
        Err(FrameError::Io(m)) => assert_eq!(m, "unexpected end of stream"),
        _ => panic!("expected a truncated message"),
    }
    let mut d = FrameDecoder::new();
    assert!(matches!(d.end_of_input(), FrameError::Eof));
    d.feed_line(b"Content-Length: 2\r\n");
    assert!(matches!(d.end_of_input(), FrameError::Io(m) if m == "unexpected end of stream"));
}

#[test]
fn non_utf8_header_is_an_io_error() {
    let buf = vec![0xff, 0xfe, b'\n', b'\n'];
    match read_message(&buf) {
        Err(FrameError::Io(m)) => assert_eq!(m, "stream did not contain valid UTF-8"),
        _ => panic!("expected io error"),
    }
}

#[test]
fn decoder_is_fed_line_by_line() {
    let mut d = FrameDecoder::new();
    assert!(matches!(d.feed_line(b"Content-Length: 7\r\n"), FrameStep::NeedLine));
    assert_eq!(d.content_length, Some(7));
    assert!(matches!(d.feed_line(b"X-Other: y\r\n"), FrameStep::NeedLine));
    assert!(matches!(d.feed_line(b"\r\n"), FrameStep::ReadBody(7)));
    let mut e = FrameDecoder::new();
    assert!(matches!(e.feed_line(b"\n"), FrameStep::Failed(FrameError::Header(_))));
}

#[test]
fn error_messages() {
    assert_eq!(FrameError::Eof.message(), "end of stream");
    assert_eq!(FrameError::Io("x".to_string()).message(), "io error: x");
}
