use speconn::error::{Code, SpeconnError};

const ALL: [Code; 16] = [
    Code::Canceled,
    Code::Unknown,
    Code::InvalidArgument,
    Code::DeadlineExceeded,
    Code::NotFound,
    Code::AlreadyExists,
    Code::PermissionDenied,
    Code::ResourceExhausted,
    Code::FailedPrecondition,
    Code::Aborted,
    Code::OutOfRange,
    Code::Unimplemented,
    Code::Internal,
    Code::Unavailable,
    Code::DataLoss,
    Code::Unauthenticated,
];

#[test]
fn names_read_back_as_codes() {
    for c in ALL {
        assert_eq!(Code::from_str(c.as_str()), c);
    }
}

#[test]
fn some_names() {
    assert_eq!(Code::InvalidArgument.as_str(), "invalid_argument");
    assert_eq!(Code::DeadlineExceeded.as_str(), "deadline_exceeded");
    assert_eq!(Code::DataLoss.as_str(), "data_loss");
}

#[test]
fn unknown_names_are_unknown() {
    assert_eq!(Code::from_str("nope"), Code::Unknown);
    assert_eq!(Code::from_str(""), Code::Unknown);
    assert_eq!(Code::from_str("NOT_FOUND"), Code::Unknown);
}

#[test]
fn http_statuses_of_codes() {
    let expected: [u16; 16] = [499, 500, 400, 504, 404, 409, 403, 429, 400, 409, 400, 501, 500, 503, 500, 401];
    for (c, s) in ALL.iter().zip(expected.iter()) {
        assert_eq!(c.http_status(), *s);
    }
}

#[test]
fn codes_of_http_statuses() {
    assert_eq!(Code::from_http_status(400), Code::Internal);
    assert_eq!(Code::from_http_status(401), Code::Unauthenticated);
    assert_eq!(Code::from_http_status(403), Code::PermissionDenied);
    assert_eq!(Code::from_http_status(404), Code::Unimplemented);
    assert_eq!(Code::from_http_status(429), Code::Unavailable);
    assert_eq!(Code::from_http_status(502), Code::Unavailable);
    assert_eq!(Code::from_http_status(503), Code::Unavailable);
    assert_eq!(Code::from_http_status(504), Code::Unavailable);
    assert_eq!(Code::from_http_status(500), Code::Unknown);
    assert_eq!(Code::from_http_status(200), Code::Unknown);
}

#[test]
fn error_new_and_status() {
    let e = SpeconnError::new(Code::NotFound, "missing");
    assert_eq!(e.code, Code::NotFound);
    assert_eq!(e.message, "missing");
    assert_eq!(e.http_status(), 404);
}

#[test]
fn error_text() {
    let e = SpeconnError::new(Code::PermissionDenied, "no access");
    assert_eq!(e.to_string(), "permission_denied: no access");
}

#[test]
fn error_from_wire_fields() {
    let e = SpeconnError::from_wire_fields(Some(("aborted".to_string(), "retry".to_string())));
    assert_eq!(e, SpeconnError::new(Code::Aborted, "retry"));
    let e = SpeconnError::from_wire_fields(Some(("bogus".to_string(), "m".to_string())));
    assert_eq!(e.code, Code::Unknown);
    assert_eq!(e.message, "m");
    let e = SpeconnError::from_wire_fields(None);
    assert_eq!(e, SpeconnError::new(Code::Unknown, "decode error"));
}
