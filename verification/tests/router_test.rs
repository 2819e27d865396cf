use speconn::envelope::{encode_envelope, FLAG_END_STREAM};
use speconn::error::{Code, SpeconnError};
use speconn::router::{format_to_mime, json_error, HandleAction, HandleEvent, Handling};
use speconn::str_map::StrMap;

fn routes(paths: &[&str]) -> StrMap<()> {
    let mut m = StrMap::new();
    for p in paths {
        m.insert(p.to_string(), ());
    }
    m
}

fn enc(e: &SpeconnError, fmt: &str) -> Vec<u8> {
    format!("{}|{}|{}", fmt, e.code.as_str(), e.message).into_bytes()
}

#[test]
fn mime_types() {
    assert_eq!(format_to_mime("msgpack", false), "application/msgpack");
    assert_eq!(format_to_mime("json", true), "application/connect+json");
    assert_eq!(format_to_mime("gron", false), "application/json");
}

#[test]
fn json_error_response() {
    let r = json_error(Code::Unauthenticated, b"x".to_vec());
    assert_eq!(r.status, 401);
    assert_eq!(r.content_type, "application/json");
    assert_eq!(r.body, b"x".to_vec());
    assert!(r.headers.is_empty());
}

#[test]
fn unary_request_runs_interceptors_around_handler() {
    let mut headers = StrMap::new();
    headers.insert("Speconn-Timeout-Ms".to_string(), "50".to_string());
    headers.insert("speconn-timeout-ms".to_string(), "250".to_string());
    let mut h = Handling::start(
        &routes(&["/a"]),
        &routes(&[]),
        2,
        "/a",
        "application/json",
        "application/msgpack",
        b"req",
        &headers,
    );
    assert_eq!(h.context().deadline_ms(), Some(250));
    assert_eq!(h.context().method_name, "/a");
    assert!(matches!(h.action(), HandleAction::RunBefore(0)));
    assert!(matches!(h.step(HandleEvent::BeforeDone(Ok(()))), HandleAction::RunBefore(1)));
    assert!(matches!(h.step(HandleEvent::BeforeDone(Ok(()))), HandleAction::CallUnary));
    assert_eq!(h.request().body, b"req".to_vec());
    h.context_mut().set_response_header("X-Out", "1").unwrap();
    assert!(matches!(h.step(HandleEvent::UnaryDone(Ok(b"res".to_vec()))), HandleAction::RunAfter(0)));
    h.response_mut().status = 201;
    assert!(matches!(h.step(HandleEvent::AfterDone), HandleAction::RunAfter(1)));
    assert!(!h.context().is_cancelled());
    assert!(matches!(h.step(HandleEvent::AfterDone), HandleAction::Respond));
    assert!(h.context().is_cancelled());
    let r = h.into_response();
    assert_eq!(r.status, 201);
    assert_eq!(r.content_type, "application/msgpack");
    assert_eq!(r.body, b"res".to_vec());
    let x = ("x-out".to_string(), "1".to_string());
    assert_eq!(r.headers, vec![x.clone(), x]);
}

#[test]
fn refused_request_gets_json_error_only() {
    let mut h = Handling::start(
        &routes(&["/a"]),
        &routes(&[]),
        1,
        "/a",
        "application/json",
        "application/json",
        b"",
        &StrMap::new(),
    );
    let refusal = SpeconnError::new(Code::PermissionDenied, "no");
    match h.step(HandleEvent::BeforeDone(Err(refusal.clone()))) {
        HandleAction::Encode(e, fmt) => {
            assert_eq!(e, refusal);
            assert_eq!(fmt, "json");
        }
        _ => panic!("expected an encoding"),
    }
    assert!(h.context().is_cancelled());
    let body = enc(&refusal, "json");
    assert!(matches!(h.step(HandleEvent::Encoded(body.clone())), HandleAction::Respond));
    let r = h.into_response();
    assert_eq!(r.status, 403);
    assert_eq!(r.content_type, "application/json");
    assert_eq!(r.body, body);
    assert!(r.headers.is_empty());
}

#[test]
fn missing_route_is_not_found() {
    let mut h = Handling::start(
        &routes(&["/a"]),
        &routes(&["/s"]),
        0,
        "/b",
        "application/connect+json",
        "application/json",
        b"",
        &StrMap::new(),
    );
    let e = match h.action() {
        HandleAction::Encode(e, fmt) => {
            assert_eq!(fmt, "json");
            e
        }
        _ => panic!("expected an encoding"),
    };
    assert_eq!(e, SpeconnError::new(Code::NotFound, "no route: /b"));
    assert!(matches!(h.step(HandleEvent::Encoded(b"nf".to_vec())), HandleAction::Respond));
    let r = h.into_response();
    assert_eq!(r.status, 404);
    assert_eq!(r.body, b"nf".to_vec());
}

#[test]
fn stream_content_type_without_stream_route_goes_unary() {
    let h = Handling::start(
        &routes(&["/a"]),
        &routes(&[]),
        0,
        "/a",
        "application/connect+json",
        "application/json",
        b"",
        &StrMap::new(),
    );
    assert!(matches!(h.action(), HandleAction::CallUnary));
}

#[test]
fn stream_request_frames_messages_and_end() {
    let mut h = Handling::start(
        &routes(&["/s"]),
        &routes(&["/s"]),
        0,
        "/s",
        "application/connect+json",
        "application/connect+msgpack",
        b"",
        &StrMap::new(),
    );
    assert!(matches!(h.action(), HandleAction::CallStream));
    let sent = vec![b"a".to_vec(), b"bc".to_vec()];
    assert!(matches!(h.step(HandleEvent::StreamDone(sent, Ok(()))), HandleAction::Respond));
    assert!(h.context().headers_sent());
    let r = h.into_response();
    let mut expected = encode_envelope(0, b"a");
    expected.extend(encode_envelope(0, b"bc"));
    expected.extend(encode_envelope(FLAG_END_STREAM, &[]));
    assert_eq!(r.status, 200);
    assert_eq!(r.content_type, "application/connect+msgpack");
    assert_eq!(r.body, expected);
}

#[test]
fn stream_handler_error_ends_with_error_frame() {
    let mut h = Handling::start(
        &routes(&[]),
        &routes(&["/s"]),
        0,
        "/s",
        "application/connect+json",
        "application/connect+msgpack",
        b"",
        &StrMap::new(),
    );
    let err = SpeconnError::new(Code::Aborted, "stop");
    let a = h.step(HandleEvent::StreamDone(vec![b"x".to_vec()], Err(err.clone())));
    let payload = match a {
        HandleAction::Encode(e, fmt) => {
            assert_eq!(e, err);
            assert_eq!(fmt, "msgpack");
            enc(&e, fmt)
        }
        _ => panic!("expected an encoding"),
    };
    assert!(matches!(h.step(HandleEvent::Encoded(payload.clone())), HandleAction::Respond));
    let r = h.into_response();
    let mut expected = encode_envelope(0, b"x");
    expected.extend(encode_envelope(FLAG_END_STREAM, &payload));
    assert_eq!(r.status, 200);
    assert_eq!(r.body, expected);
}

#[test]
fn unexpected_outcome_changes_nothing() {
    let mut h = Handling::start(
        &routes(&["/a"]),
        &routes(&[]),
        0,
        "/a",
        "application/json",
        "application/json",
        b"",
        &StrMap::new(),
    );
    assert!(matches!(h.step(HandleEvent::AfterDone), HandleAction::CallUnary));
    assert!(matches!(h.step(HandleEvent::Encoded(vec![])), HandleAction::CallUnary));
}

#[test]
fn unary_handler_error_is_json_error_with_headers() {
    let mut h = Handling::start(
        &routes(&["/a"]),
        &routes(&[]),
        0,
        "/a",
        "application/json",
        "application/json",
        b"",
        &StrMap::new(),
    );
    h.context_mut().set_response_header("K", "v").unwrap();
    let err = SpeconnError::new(Code::InvalidArgument, "bad");
    assert!(matches!(h.step(HandleEvent::UnaryDone(Err(err))), HandleAction::Encode(_, "json")));
    assert!(matches!(h.step(HandleEvent::Encoded(b"e".to_vec())), HandleAction::Respond));
    let r = h.into_response();
    assert_eq!(r.status, 400);
    assert_eq!(r.headers, vec![("k".to_string(), "v".to_string())]);
}

#[test]
fn malformed_timeout_is_ignored() {
    let mut headers = StrMap::new();
    headers.insert("speconn-timeout-ms".to_string(), "soon".to_string());
    let h = Handling::start(&routes(&[]), &routes(&[]), 0, "/a", "", "", b"", &headers);
    assert_eq!(h.context().deadline_ms(), None);
}
