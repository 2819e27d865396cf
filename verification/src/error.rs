//! Error codes and the error value that travels on the wire.

use vstd::prelude::*;
use crate::text::str_eq;

verus! {

/// The status codes of the protocol.
#[derive(Debug, Clone, Copy, PartialEq, Eq, Structural)]
pub enum Code {
    Canceled,
    Unknown,
    InvalidArgument,
    DeadlineExceeded,
    NotFound,
    AlreadyExists,
    PermissionDenied,
    ResourceExhausted,
    FailedPrecondition,
    Aborted,
    OutOfRange,
    Unimplemented,
    Internal,
    Unavailable,
    DataLoss,
    Unauthenticated,
}

/// The wire name of each code.
pub open spec fn code_name(c: Code) -> Seq<char> {
    match c {
        Code::Canceled => "canceled"@,
        Code::Unknown => "unknown"@,
        Code::InvalidArgument => "invalid_argument"@,
        Code::DeadlineExceeded => "deadline_exceeded"@,
        Code::NotFound => "not_found"@,
        Code::AlreadyExists => "already_exists"@,
        Code::PermissionDenied => "permission_denied"@,
        Code::ResourceExhausted => "resource_exhausted"@,
        Code::FailedPrecondition => "failed_precondition"@,
        Code::Aborted => "aborted"@,
        Code::OutOfRange => "out_of_range"@,
        Code::Unimplemented => "unimplemented"@,
        Code::Internal => "internal"@,
        Code::Unavailable => "unavailable"@,
        Code::DataLoss => "data_loss"@,
        Code::Unauthenticated => "unauthenticated"@,
    }
}

/// The code whose wire name is `s`; `Unknown` for any other text.
pub open spec fn code_from_name(s: Seq<char>) -> Code {
    if s == "canceled"@ {
        Code::Canceled
    } else if s == "unknown"@ {
        Code::Unknown
    } else if s == "invalid_argument"@ {
        Code::InvalidArgument
    } else if s == "deadline_exceeded"@ {
        Code::DeadlineExceeded
    } else if s == "not_found"@ {
        Code::NotFound
    } else if s == "already_exists"@ {
        Code::AlreadyExists
    } else if s == "permission_denied"@ {
        Code::PermissionDenied
    } else if s == "resource_exhausted"@ {
        Code::ResourceExhausted
    } else if s == "failed_precondition"@ {
        Code::FailedPrecondition
    } else if s == "aborted"@ {
        Code::Aborted
    } else if s == "out_of_range"@ {
        Code::OutOfRange
    } else if s == "unimplemented"@ {
        Code::Unimplemented
    } else if s == "internal"@ {
        Code::Internal
    } else if s == "unavailable"@ {
        Code::Unavailable
    } else if s == "data_loss"@ {
        Code::DataLoss
    } else if s == "unauthenticated"@ {
        Code::Unauthenticated
    } else {
        Code::Unknown
    }
}

/// The HTTP status that answers a request failing with code `c`.
pub open spec fn code_http_status(c: Code) -> u16 {
    match c {
        Code::InvalidArgument | Code::FailedPrecondition | Code::OutOfRange => 400,
        Code::Unauthenticated => 401,
        Code::PermissionDenied => 403,
        Code::NotFound => 404,
        Code::AlreadyExists | Code::Aborted => 409,
        Code::ResourceExhausted => 429,
        Code::Canceled => 499,
        Code::Unimplemented => 501,
        Code::Unavailable => 503,
        Code::DeadlineExceeded => 504,
        _ => 500,
    }
}

/// The code that a bare HTTP status stands for.
pub open spec fn code_from_http_status(status: u16) -> Code {
    if status == 400 {
        Code::Internal
    } else if status == 401 {
        Code::Unauthenticated
    } else if status == 403 {
        Code::PermissionDenied
    } else if status == 404 {
        Code::Unimplemented
    } else if status == 429 {
        Code::Unavailable
    } else if status == 502 || status == 503 || status == 504 {
        Code::Unavailable
    } else {
        Code::Unknown
    }
}

impl Code {
    /// The wire name of the code.
    pub fn as_str(&self) -> (s: &'static str)
        ensures
            s@ == code_name(*self),
    {
        match self {
            Code::Canceled => "canceled",
            Code::Unknown => "unknown",
            Code::InvalidArgument => "invalid_argument",
            Code::DeadlineExceeded => "deadline_exceeded",
            Code::NotFound => "not_found",
            Code::AlreadyExists => "already_exists",
            Code::PermissionDenied => "permission_denied",
            Code::ResourceExhausted => "resource_exhausted",
            Code::FailedPrecondition => "failed_precondition",
            Code::Aborted => "aborted",
            Code::OutOfRange => "out_of_range",
            Code::Unimplemented => "unimplemented",
            Code::Internal => "internal",
            Code::Unavailable => "unavailable",
            Code::DataLoss => "data_loss",
            Code::Unauthenticated => "unauthenticated",
        }
    }

    /// The code named `s`; any name that is not a code's gives `Unknown`.
    pub fn from_str(s: &str) -> (c: Code)
        ensures
            c == code_from_name(s@),
    {
        if str_eq(s, "canceled") {
            Code::Canceled
        } else if str_eq(s, "unknown") {
            Code::Unknown
        } else if str_eq(s, "invalid_argument") {
            Code::InvalidArgument
        } else if str_eq(s, "deadline_exceeded") {
            Code::DeadlineExceeded
        } else if str_eq(s, "not_found") {
            Code::NotFound
        } else if str_eq(s, "already_exists") {
            Code::AlreadyExists
        } else if str_eq(s, "permission_denied") {
            Code::PermissionDenied
        } else if str_eq(s, "resource_exhausted") {
            Code::ResourceExhausted
        } else if str_eq(s, "failed_precondition") {
            Code::FailedPrecondition
        } else if str_eq(s, "aborted") {
            Code::Aborted
        } else if str_eq(s, "out_of_range") {
            Code::OutOfRange
        } else if str_eq(s, "unimplemented") {
            Code::Unimplemented
        } else if str_eq(s, "internal") {
            Code::Internal
        } else if str_eq(s, "unavailable") {
            Code::Unavailable
        } else if str_eq(s, "data_loss") {
            Code::DataLoss
        } else if str_eq(s, "unauthenticated") {
            Code::Unauthenticated
        } else {
            Code::Unknown
        }
    }

    /// The HTTP status of a response that fails with this code.
    pub fn http_status(&self) -> (status: u16)
        ensures
            status == code_http_status(*self),
    {
        match self {
            Code::InvalidArgument | Code::FailedPrecondition | Code::OutOfRange => 400,
            Code::Unauthenticated => 401,
            Code::PermissionDenied => 403,
            Code::NotFound => 404,
            Code::AlreadyExists | Code::Aborted => 409,
            Code::ResourceExhausted => 429,
            Code::Canceled => 499,
            Code::Unimplemented => 501,
            Code::Unavailable => 503,
            Code::DeadlineExceeded => 504,
            _ => 500,
        }
    }

    /// The code that an HTTP status without an error body stands for.
    pub fn from_http_status(status: u16) -> (c: Code)
        ensures
            c == code_from_http_status(status),
    {
        match status {
            400 => Code::Internal,
            401 => Code::Unauthenticated,
            403 => Code::PermissionDenied,
            404 => Code::Unimplemented,
            429 => Code::Unavailable,
            502 | 503 | 504 => Code::Unavailable,
            _ => Code::Unknown,
        }
    }
}

/// An error: a code and a message.
#[derive(Debug, Clone, PartialEq, Eq)]
pub struct SpeconnError {
    pub code: Code,
    pub message: String,
}

/// The text that shows an error: its code's name, a colon, then the message.
pub open spec fn error_text(code: Code, message: Seq<char>) -> Seq<char> {
    code_name(code) + ": "@ + message
}

impl SpeconnError {
    /// An error with `code` and `message`.
    pub fn new(code: Code, message: &str) -> (e: Self)
        ensures
            e.code == code,
            e.message@ == message@,
    {
        SpeconnError { code, message: message.to_owned() }
    }

    /// The HTTP status of a response that carries this error.
    pub fn http_status(&self) -> (status: u16)
        ensures
            status == code_http_status(self.code),
    {
        self.code.http_status()
    }

    /// The text that shows this error: `"<code name>: <message>"`.
    pub fn to_string(&self) -> (s: String)
        ensures
            s@ == error_text(self.code, self.message@),
    {
        let mut s = self.code.as_str().to_owned();
        s.append(": ");
        s.append(self.message.as_str());
        s
    }

    /// The error that a decoded error body stands for: the code named by its
    /// `code` field (`Unknown` for an unknown or missing name) with its
    /// `message` field, or, when the body could not be decoded at all,
    /// `Unknown` with the message "decode error".
    pub fn from_wire_fields(fields: Option<(String, String)>) -> (e: Self)
        ensures
            match fields {
                Some((code, message)) => e.code == code_from_name(code@) && e.message@
                    == message@,
                None => e.code == Code::Unknown && e.message@ == "decode error"@,
            },
    {
        match fields {
            Some((code, message)) => SpeconnError { code: Code::from_str(code.as_str()), message },
            None => SpeconnError::new(Code::Unknown, "decode error"),
        }
    }
}

/// The wire name of each code is its fixed protocol name, and each of those
/// names reads as its code.
pub proof fn lemma_code_names()
    ensures
        code_name(Code::Canceled) == "canceled"@,
        code_name(Code::Unknown) == "unknown"@,
        code_name(Code::InvalidArgument) == "invalid_argument"@,
        code_name(Code::DeadlineExceeded) == "deadline_exceeded"@,
        code_name(Code::NotFound) == "not_found"@,
        code_name(Code::AlreadyExists) == "already_exists"@,
        code_name(Code::PermissionDenied) == "permission_denied"@,
        code_name(Code::ResourceExhausted) == "resource_exhausted"@,
        code_name(Code::FailedPrecondition) == "failed_precondition"@,
        code_name(Code::Aborted) == "aborted"@,
        code_name(Code::OutOfRange) == "out_of_range"@,
        code_name(Code::Unimplemented) == "unimplemented"@,
        code_name(Code::Internal) == "internal"@,
        code_name(Code::Unavailable) == "unavailable"@,
        code_name(Code::DataLoss) == "data_loss"@,
        code_name(Code::Unauthenticated) == "unauthenticated"@,
        code_from_name("canceled"@) == Code::Canceled,
        code_from_name("unknown"@) == Code::Unknown,
        code_from_name("invalid_argument"@) == Code::InvalidArgument,
        code_from_name("deadline_exceeded"@) == Code::DeadlineExceeded,
        code_from_name("not_found"@) == Code::NotFound,
        code_from_name("already_exists"@) == Code::AlreadyExists,
        code_from_name("permission_denied"@) == Code::PermissionDenied,
        code_from_name("resource_exhausted"@) == Code::ResourceExhausted,
        code_from_name("failed_precondition"@) == Code::FailedPrecondition,
        code_from_name("aborted"@) == Code::Aborted,
        code_from_name("out_of_range"@) == Code::OutOfRange,
        code_from_name("unimplemented"@) == Code::Unimplemented,
        code_from_name("internal"@) == Code::Internal,
        code_from_name("unavailable"@) == Code::Unavailable,
        code_from_name("data_loss"@) == Code::DataLoss,
        code_from_name("unauthenticated"@) == Code::Unauthenticated,
{
    lemma_code_name_roundtrip(Code::Canceled);
    lemma_code_name_roundtrip(Code::Unknown);
    lemma_code_name_roundtrip(Code::InvalidArgument);
    lemma_code_name_roundtrip(Code::DeadlineExceeded);
    lemma_code_name_roundtrip(Code::NotFound);
    lemma_code_name_roundtrip(Code::AlreadyExists);
    lemma_code_name_roundtrip(Code::PermissionDenied);
    lemma_code_name_roundtrip(Code::ResourceExhausted);
    lemma_code_name_roundtrip(Code::FailedPrecondition);
    lemma_code_name_roundtrip(Code::Aborted);
    lemma_code_name_roundtrip(Code::OutOfRange);
    lemma_code_name_roundtrip(Code::Unimplemented);
    lemma_code_name_roundtrip(Code::Internal);
    lemma_code_name_roundtrip(Code::Unavailable);
    lemma_code_name_roundtrip(Code::DataLoss);
    lemma_code_name_roundtrip(Code::Unauthenticated);
}

/// The HTTP status of each code is the fixed protocol one; every code's
/// status is an error status (400 or more), and a bare error status maps
/// back to the fixed code: 400 to `Internal`, 401 to `Unauthenticated`,
/// 403 to `PermissionDenied`, 404 to `Unimplemented`, 429, 502, 503 and
/// 504 to `Unavailable`, and any other status to `Unknown`.
pub proof fn lemma_code_http_statuses(c: Code, status: u16)
    ensures
        code_http_status(Code::Canceled) == 499,
        code_http_status(Code::Unknown) == 500,
        code_http_status(Code::InvalidArgument) == 400,
        code_http_status(Code::DeadlineExceeded) == 504,
        code_http_status(Code::NotFound) == 404,
        code_http_status(Code::AlreadyExists) == 409,
        code_http_status(Code::PermissionDenied) == 403,
        code_http_status(Code::ResourceExhausted) == 429,
        code_http_status(Code::FailedPrecondition) == 400,
        code_http_status(Code::Aborted) == 409,
        code_http_status(Code::OutOfRange) == 400,
        code_http_status(Code::Unimplemented) == 501,
        code_http_status(Code::Internal) == 500,
        code_http_status(Code::Unavailable) == 503,
        code_http_status(Code::DataLoss) == 500,
        code_http_status(Code::Unauthenticated) == 401,
        code_http_status(c) >= 400,
        code_from_http_status(400) == Code::Internal,
        code_from_http_status(401) == Code::Unauthenticated,
        code_from_http_status(403) == Code::PermissionDenied,
        code_from_http_status(404) == Code::Unimplemented,
        code_from_http_status(429) == Code::Unavailable,
        code_from_http_status(502) == Code::Unavailable,
        code_from_http_status(503) == Code::Unavailable,
        code_from_http_status(504) == Code::Unavailable,
        status != 400 && status != 401 && status != 403 && status != 404 && status != 429
            && status != 502 && status != 503 && status != 504 ==> code_from_http_status(status)
            == Code::Unknown,
{
}

/// Every code's wire name reads back as that code.
pub proof fn lemma_code_name_roundtrip(c: Code)
    ensures
        code_from_name(code_name(c)) == c,
{
    reveal_strlit("canceled");
    reveal_strlit("unknown");
    reveal_strlit("invalid_argument");
    reveal_strlit("deadline_exceeded");
    reveal_strlit("not_found");
    reveal_strlit("already_exists");
    reveal_strlit("permission_denied");
    reveal_strlit("resource_exhausted");
    reveal_strlit("failed_precondition");
    reveal_strlit("aborted");
    reveal_strlit("out_of_range");
    reveal_strlit("unimplemented");
    reveal_strlit("internal");
    reveal_strlit("unavailable");
    reveal_strlit("data_loss");
    reveal_strlit("unauthenticated");
    assert("canceled"@.len() == 8);
    assert("unknown"@.len() == 7);
    assert("invalid_argument"@.len() == 16);
    assert("deadline_exceeded"@.len() == 17);
    assert("not_found"@.len() == 9);
    assert("already_exists"@.len() == 14);
    assert("permission_denied"@.len() == 17);
    assert("resource_exhausted"@.len() == 18);
    assert("failed_precondition"@.len() == 19);
    assert("aborted"@.len() == 7);
    assert("out_of_range"@.len() == 12);
    assert("unimplemented"@.len() == 13);
    assert("internal"@.len() == 8);
    assert("unavailable"@.len() == 11);
    assert("data_loss"@.len() == 9);
    assert("unauthenticated"@.len() == 15);
    match c {
        Code::Internal => {
            assert(code_name(c)[0] != "canceled"@[0]);
        },
        Code::Aborted => {
            assert(code_name(c)[0] != "unknown"@[0]);
        },
        Code::PermissionDenied => {
            assert(code_name(c)[0] != "deadline_exceeded"@[0]);
        },
        Code::DataLoss => {
            assert(code_name(c)[0] != "not_found"@[0]);
        },
        _ => {},
    }
}

} // verus!
