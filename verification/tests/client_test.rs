use speconn::client::{
    extract_format, get_accept, get_content_type, read_response, split_headers_trailers,
    split_stream_body, stream_request_headers, CallOptions, SpeconnClient, StreamEnd,
    StreamResponse,
};
use speconn::envelope::{encode_envelope, FLAG_END_STREAM};
use speconn::error::Code;
use speconn::str_map::StrMap;
use speconn::transport::HttpResponse;

fn pairs(v: &[(&str, &str)]) -> Vec<(String, String)> {
    v.iter().map(|(k, v)| (k.to_string(), v.to_string())).collect()
}

#[test]
fn call_options_start_empty() {
    let o = CallOptions::new();
    assert!(o.headers.is_empty());
    assert_eq!(o.timeout_ms, None);
    let d = CallOptions::default();
    assert!(d.headers.is_empty());
}

#[test]
fn headers_and_trailers_are_split() {
    let (h, t) = split_headers_trailers(pairs(&[
        ("Content-Type", "application/json"),
        ("Trailer-Grpc-Status", "0"),
        ("trailer-x-count", "3"),
        ("X-Id", "a"),
    ]));
    assert_eq!(h.get("content-type"), Some(&"application/json".to_string()));
    assert_eq!(h.get("x-id"), Some(&"a".to_string()));
    assert_eq!(h.len(), 2);
    assert_eq!(t.get("Grpc-Status"), Some(&"0".to_string()));
    assert_eq!(t.get("x-count"), Some(&"3".to_string()));
    assert_eq!(t.len(), 2);
}

#[test]
fn later_pair_wins() {
    let (h, _) = split_headers_trailers(pairs(&[("X-A", "1"), ("x-a", "2")]));
    assert_eq!(h.get("x-a"), Some(&"2".to_string()));
    assert_eq!(h.len(), 1);
}

#[test]
fn content_type_and_accept_defaults() {
    let mut h = StrMap::new();
    assert_eq!(get_content_type(&h), "application/json");
    assert_eq!(get_accept(&h), "application/json");
    h.insert("content-type".to_string(), "application/msgpack".to_string());
    assert_eq!(get_accept(&h), "application/msgpack");
    h.insert("accept".to_string(), "application/json".to_string());
    assert_eq!(get_accept(&h), "application/json");
    assert_eq!(extract_format(get_content_type(&h)), "msgpack");
    assert_eq!(extract_format(get_accept(&h)), "json");
    assert_eq!(extract_format("application/connect+msgpack"), "msgpack");
}

#[test]
fn client_url_drops_trailing_slashes() {
    let c = SpeconnClient::new("http://localhost:8001//", "/pkg.Svc/Do", 7u8);
    assert_eq!(c.url(), "http://localhost:8001/pkg.Svc/Do");
    assert_eq!(*c.transport(), 7u8);
}

#[test]
fn stream_headers_add_protocol_version() {
    let mut o = CallOptions::new();
    o.headers.insert("x".to_string(), "y".to_string());
    let h = stream_request_headers(&o);
    assert_eq!(h.get("connect-protocol-version"), Some(&"1".to_string()));
    assert_eq!(h.get("x"), Some(&"y".to_string()));
    o.headers.insert("connect-protocol-version".to_string(), "2".to_string());
    let h = stream_request_headers(&o);
    assert_eq!(h.get("connect-protocol-version"), Some(&"2".to_string()));
}

#[test]
fn error_status_hands_back_error_body() {
    let resp = HttpResponse { status: 404, headers: pairs(&[("a", "b")]), body: b"err".to_vec() };
    assert_eq!(read_response(resp).err(), Some(b"err".to_vec()));
    let resp = HttpResponse {
        status: 200,
        headers: pairs(&[("A", "b"), ("Trailer-T", "1")]),
        body: b"ok".to_vec(),
    };
    let (h, t, body) = read_response(resp).ok().unwrap();
    assert_eq!(h.get("a"), Some(&"b".to_string()));
    assert_eq!(t.get("T"), Some(&"1".to_string()));
    assert_eq!(body, b"ok".to_vec());
}

#[test]
fn stream_body_messages_then_clean_end() {
    let mut body = encode_envelope(0, b"one");
    body.extend(encode_envelope(0, b"two"));
    body.extend(encode_envelope(FLAG_END_STREAM, &[]));
    body.extend(encode_envelope(0, b"ignored"));
    let frames = split_stream_body(&body);
    assert_eq!(frames.messages, vec![b"one".to_vec(), b"two".to_vec()]);
    assert!(matches!(frames.end, StreamEnd::Finished));
}

#[test]
fn stream_body_error_trailer() {
    let mut body = encode_envelope(0, b"m");
    body.extend(encode_envelope(FLAG_END_STREAM, b"{\"code\":\"internal\"}"));
    let frames = split_stream_body(&body);
    assert_eq!(frames.messages, vec![b"m".to_vec()]);
    match frames.end {
        StreamEnd::ErrorTrailer(p) => assert_eq!(p, b"{\"code\":\"internal\"}".to_vec()),
        _ => panic!("expected an error trailer"),
    }
}

#[test]
fn stream_body_truncated_frame_and_leftover() {
    let mut body = encode_envelope(0, b"ok");
    body.extend_from_slice(&[0, 0, 0, 0, 9, 1]);
    let frames = split_stream_body(&body);
    assert_eq!(frames.messages, vec![b"ok".to_vec()]);
    match frames.end {
        StreamEnd::BadFrame(e) => {
            assert_eq!(e.code, Code::Internal);
            assert_eq!(e.message, "envelope: expected 9 payload bytes, got 1");
        }
        _ => panic!("expected a bad frame"),
    }
    let mut body = encode_envelope(0, b"ok");
    body.extend_from_slice(&[0, 0, 0]);
    let frames = split_stream_body(&body);
    assert_eq!(frames.messages.len(), 1);
    assert!(matches!(frames.end, StreamEnd::Finished));
}

#[test]
fn stream_response_collects() {
    let mut r: StreamResponse<u32> = StreamResponse::new(StrMap::new());
    r.add_msg(1);
    r.add_msg(2);
    let mut t = StrMap::new();
    t.insert("k".to_string(), "v".to_string());
    r.set_trailers(t);
    assert_eq!(r.trailers.get("k"), Some(&"v".to_string()));
    assert_eq!(r.msgs(), &vec![1, 2]);
    assert_eq!(r.into_msgs(), vec![1, 2]);
}
