//! The client side: call options, header and trailer handling, response
//! checks and the reading of a stream of frames.

use vstd::prelude::*;
use crate::envelope::{
    announced_len, decode_envelope, decoded_envelope, truncated_message, FLAG_END_STREAM,
};
use crate::error::{Code, SpeconnError};
use crate::str_map::StrMap;
use crate::text::{
    contains, has_prefix, has_substring, lowercase, skip_chars, starts_with, to_lowercase,
    trim_end_slashes, trim_trailing_slashes,
};
use crate::transport::HttpResponse;

verus! {

/// Per-call settings: request headers and an optional timeout.
pub struct CallOptions {
    pub headers: StrMap<String>,
    pub timeout_ms: Option<u64>,
}

impl CallOptions {
    /// No headers and no timeout.
    pub fn new() -> (o: Self)
        ensures
            o.headers@ == Map::<Seq<char>, String>::empty(),
            o.headers.entries() == Seq::<(String, String)>::empty(),
            o.timeout_ms is None,
    {
        CallOptions { headers: StrMap::new(), timeout_ms: None }
    }
}

impl Default for CallOptions {
    fn default() -> (o: Self)
        ensures
            o.headers@ == Map::<Seq<char>, String>::empty(),
            o.headers.entries() == Seq::<(String, String)>::empty(),
            o.timeout_ms is None,
    {
        Self::new()
    }
}

/// The answer to a unary call: the message, response headers and trailers.
pub struct Response<T> {
    pub msg: T,
    pub headers: StrMap<String>,
    pub trailers: StrMap<String>,
}

/// The answer to a streaming call: headers, trailers and the messages read.
pub struct StreamResponse<T> {
    pub headers: StrMap<String>,
    pub trailers: StrMap<String>,
    msgs: Vec<T>,
}

impl<T> StreamResponse<T> {
    /// The messages read so far, in order.
    pub closed spec fn messages(self) -> Seq<T> {
        self.msgs@
    }

    /// The response headers.
    pub closed spec fn header_map(self) -> StrMap<String> {
        self.headers
    }

    /// The response trailers.
    pub closed spec fn trailer_map(self) -> StrMap<String> {
        self.trailers
    }

    /// A response with `headers`, no trailers and no messages yet.
    pub fn new(headers: StrMap<String>) -> (r: Self)
        ensures
            r.header_map() == headers,
            r.trailer_map()@ == Map::<Seq<char>, String>::empty(),
            r.messages() == Seq::<T>::empty(),
    {
        StreamResponse { headers, trailers: StrMap::new(), msgs: Vec::new() }
    }

    /// Appends a message.
    pub fn add_msg(&mut self, msg: T)
        ensures
            final(self).messages() == old(self).messages().push(msg),
            final(self).header_map() == old(self).header_map(),
            final(self).trailer_map() == old(self).trailer_map(),
    {
        self.msgs.push(msg);
    }

    /// Replaces the trailers.
    pub fn set_trailers(&mut self, t: StrMap<String>)
        ensures
            final(self).trailer_map() == t,
            final(self).header_map() == old(self).header_map(),
            final(self).messages() == old(self).messages(),
    {
        self.trailers = t;
    }

    /// The messages, in the order they were read.
    pub fn msgs(&self) -> (m: &Vec<T>)
        ensures
            m@ == self.messages(),
    {
        &self.msgs
    }

    /// Gives up the response for its messages.
    pub fn into_msgs(self) -> (m: Vec<T>)
        ensures
            m@ == self.messages(),
    {
        self.msgs
    }
}

/// `s` without its first `n` characters; empty when it is no longer.
pub open spec fn drop_chars(s: Seq<char>, n: nat) -> Seq<char> {
    if n < s.len() {
        s.skip(n as int)
    } else {
        Seq::<char>::empty()
    }
}

/// The header and trailer maps that the received pairs `raw` give, read in
/// order, a later pair overriding an earlier one with the same key. A pair
/// whose lowercased name begins with `trailer-` is a trailer named by the
/// rest of the name as received; any other pair is a header under its
/// lowercased name.
pub open spec fn split_headers(raw: Seq<(String, String)>) -> (
    Map<Seq<char>, String>,
    Map<Seq<char>, String>,
)
    decreases raw.len(),
{
    if raw.len() == 0 {
        (Map::empty(), Map::empty())
    } else {
        let prev = split_headers(raw.drop_last());
        let k = raw.last().0@;
        let v = raw.last().1;
        if has_prefix(lowercase(k), "trailer-"@) {
            (prev.0, prev.1.insert(drop_chars(k, 8), v))
        } else {
            (prev.0.insert(lowercase(k), v), prev.1)
        }
    }
}

/// Sorts received header pairs into headers and trailers, as
/// `split_headers` says.
pub fn split_headers_trailers(raw_headers: Vec<(String, String)>) -> (res: (
    StrMap<String>,
    StrMap<String>,
))
    ensures
        (res.0@, res.1@) == split_headers(raw_headers@),
{
    let mut headers: StrMap<String> = StrMap::new();
    let mut trailers: StrMap<String> = StrMap::new();
    let mut i: usize = 0;
    while i < raw_headers.len()
        invariant
            i <= raw_headers@.len(),
            (headers@, trailers@) == split_headers(raw_headers@.subrange(0, i as int)),
        decreases raw_headers@.len() - i,
    {
        let ghost prefix = raw_headers@.subrange(0, i + 1);
        assert(prefix.drop_last() =~= raw_headers@.subrange(0, i as int));
        let k = &raw_headers[i].0;
        let v = raw_headers[i].1.clone();
        let lower = to_lowercase(k.as_str());
        if starts_with(lower.as_str(), "trailer-") {
            let name = skip_chars(k.as_str(), 8);
            trailers.insert(name, v);
        } else {
            headers.insert(lower, v);
        }
        i = i + 1;
    }
    assert(raw_headers@.subrange(0, raw_headers@.len() as int) =~= raw_headers@);
    (headers, trailers)
}

/// The content type that `headers` ask for: their `content-type` header, or
/// `application/json`.
pub open spec fn content_type_of(headers: Map<Seq<char>, String>) -> Seq<char> {
    if headers.contains_key("content-type"@) {
        headers["content-type"@]@
    } else {
        "application/json"@
    }
}

/// The response type that `headers` ask for: their `accept` header, or else
/// their content type.
pub open spec fn accept_of(headers: Map<Seq<char>, String>) -> Seq<char> {
    if headers.contains_key("accept"@) {
        headers["accept"@]@
    } else {
        content_type_of(headers)
    }
}

/// The codec format that a MIME type names: `msgpack` when the type
/// mentions it, else `json`.
pub open spec fn format_of(mime: Seq<char>) -> Seq<char> {
    if has_substring(mime, "msgpack"@) {
        "msgpack"@
    } else {
        "json"@
    }
}

/// The `content-type` header, or `application/json`.
pub fn get_content_type(headers: &StrMap<String>) -> (ct: &str)
    ensures
        ct@ == content_type_of(headers@),
{
    match headers.get("content-type") {
        Some(v) => v.as_str(),
        None => "application/json",
    }
}

/// The `accept` header, or else the content type.
pub fn get_accept(headers: &StrMap<String>) -> (accept: &str)
    ensures
        accept@ == accept_of(headers@),
{
    match headers.get("accept") {
        Some(v) => v.as_str(),
        None => get_content_type(headers),
    }
}

/// `msgpack` when `mime` mentions it, else `json`.
pub fn extract_format(mime: &str) -> (fmt: &'static str)
    ensures
        fmt@ == format_of(mime@),
{
    if contains(mime, "msgpack") {
        "msgpack"
    } else {
        "json"
    }
}

/// A client for one procedure: the service's base URL, the procedure's
/// path, and the transport that carries the requests.
pub struct SpeconnClient<T> {
    base_url: String,
    path: String,
    transport: T,
}

impl<T> SpeconnClient<T> {
    /// The base URL, without trailing slashes.
    pub closed spec fn base_url_view(self) -> Seq<char> {
        self.base_url@
    }

    /// The procedure's path.
    pub closed spec fn path_view(self) -> Seq<char> {
        self.path@
    }

    /// The transport.
    pub closed spec fn transport_view(self) -> T {
        self.transport
    }

    /// A client for `path` on the service at `base_url`; the slashes at the
    /// end of `base_url` are dropped.
    pub fn new(base_url: &str, path: &str, transport: T) -> (c: Self)
        ensures
            c.base_url_view() == trim_trailing_slashes(base_url@),
            c.path_view() == path@,
            c.transport_view() == transport,
    {
        SpeconnClient {
            base_url: trim_end_slashes(base_url).to_owned(),
            path: path.to_owned(),
            transport,
        }
    }

    /// The URL that requests go to: the base URL followed by the path.
    pub fn url(&self) -> (u: String)
        ensures
            u@ == self.base_url_view() + self.path_view(),
    {
        let mut u = self.base_url.clone();
        u.append(self.path.as_str());
        u
    }

    /// The transport.
    pub fn transport(&self) -> (t: &T)
        ensures
            *t == self.transport_view(),
    {
        &self.transport
    }
}

/// The request headers of a streaming call: the call's headers, with
/// `connect-protocol-version: 1` added when they do not set it.
pub fn stream_request_headers(options: &CallOptions) -> (h: StrMap<String>)
    ensures
        h@ == (if options.headers@.contains_key("connect-protocol-version"@) {
            options.headers@
        } else {
            options.headers@.insert("connect-protocol-version"@, h@["connect-protocol-version"@])
        }),
        !options.headers@.contains_key("connect-protocol-version"@) ==> h@["connect-protocol-version"@]@
            == "1"@,
{
    let mut h = options.headers.clone();
    if !h.contains_key("connect-protocol-version") {
        h.insert("connect-protocol-version".to_owned(), "1".to_owned());
    }
    h
}

/// Checks the status of a response. A status of 400 or more fails the call,
/// and the body is the error to decode; otherwise the header pairs are
/// sorted into headers and trailers, and the body is the message.
pub fn read_response(resp: HttpResponse) -> (res: Result<
    (StrMap<String>, StrMap<String>, Vec<u8>),
    Vec<u8>,
>)
    ensures
        match res {
            Ok((headers, trailers, body)) => resp.status < 400 && (headers@, trailers@)
                == split_headers(resp.headers@) && body == resp.body,
            Err(body) => resp.status >= 400 && body == resp.body,
        },
{
    if resp.status >= 400 {
        return Err(resp.body);
    }
    let (headers, trailers) = split_headers_trailers(resp.headers);
    Ok((headers, trailers, resp.body))
}

/// How reading a stream body ended.
pub enum StreamEnd {
    /// The body ran out, or an end-of-stream frame came without an error.
    Finished,
    /// A frame's payload was cut short; reading stopped there.
    BadFrame(SpeconnError),
    /// An end-of-stream frame carried this error payload, to be decoded.
    ErrorTrailer(Vec<u8>),
}

/// How reading a stream body ends, over plain values.
pub enum StreamEndView {
    Finished,
    BadFrame(Seq<char>),
    ErrorTrailer(Seq<u8>),
}

/// The messages of a stream body and how it ends. Frames are read from the
/// start; reading stops when fewer than five bytes are left, at a frame
/// whose payload is cut short, or at a frame flagged end-of-stream.
pub open spec fn stream_frames(body: Seq<u8>) -> (Seq<Seq<u8>>, StreamEndView)
    decreases body.len(),
{
    if body.len() < 5 {
        (Seq::empty(), StreamEndView::Finished)
    } else if body.len() - 5 < announced_len(body) {
        (
            Seq::empty(),
            StreamEndView::BadFrame(truncated_message(announced_len(body), (body.len() - 5) as nat)),
        )
    } else {
        let payload = body.subrange(5, 5 + announced_len(body) as int);
        if body[0] & FLAG_END_STREAM != 0 {
            if payload.len() > 0 {
                (Seq::empty(), StreamEndView::ErrorTrailer(payload))
            } else {
                (Seq::empty(), StreamEndView::Finished)
            }
        } else {
            let rest = stream_frames(body.subrange(5 + announced_len(body) as int, body.len() as int));
            (seq![payload] + rest.0, rest.1)
        }
    }
}

/// What a stream body was read into: the message payloads in order, and
/// how reading ended.
pub struct StreamFrames {
    pub messages: Vec<Vec<u8>>,
    pub end: StreamEnd,
}

/// The plain view of a `StreamEnd`; a bad frame is an `Internal` error
/// whose message is the framing error.
pub open spec fn stream_end_matches(end: StreamEnd, view: StreamEndView) -> bool {
    match (end, view) {
        (StreamEnd::Finished, StreamEndView::Finished) => true,
        (StreamEnd::BadFrame(e), StreamEndView::BadFrame(m)) => e.code == Code::Internal
            && e.message@ == m,
        (StreamEnd::ErrorTrailer(p), StreamEndView::ErrorTrailer(q)) => p@ == q,
        _ => false,
    }
}

/// Reads a stream body into its message payloads and how it ends, as
/// `stream_frames` says.
pub fn split_stream_body(body: &[u8]) -> (frames: StreamFrames)
    ensures
        frames.messages@.map_values(|m: Vec<u8>| m@) == stream_frames(body@).0,
        stream_end_matches(frames.end, stream_frames(body@).1),
{
    let mut messages: Vec<Vec<u8>> = Vec::new();
    let mut pos: usize = 0;
    let len = body.len();
    assert(body@.subrange(0, len as int) =~= body@);
    assert(messages@.map_values(|m: Vec<u8>| m@) + stream_frames(body@).0 =~= stream_frames(
        body@,
    ).0);
    loop
        invariant
            len == body@.len(),
            pos <= len,
            stream_frames(body@).0 == messages@.map_values(|m: Vec<u8>| m@) + stream_frames(
                body@.subrange(pos as int, len as int),
            ).0,
            stream_frames(body@).1 == stream_frames(body@.subrange(pos as int, len as int)).1,
        decreases len - pos,
    {
        let ghost rest = body@.subrange(pos as int, len as int);
        if len - pos < 5 {
            assert(messages@.map_values(|m: Vec<u8>| m@) =~= stream_frames(body@).0);
            return StreamFrames { messages, end: StreamEnd::Finished };
        }
        let frame = &body[pos..len];
        assert(frame@ == rest);
        match decode_envelope(frame) {
            Err(e) => {
                assert(messages@.map_values(|m: Vec<u8>| m@) =~= stream_frames(body@).0);
                return StreamFrames {
                    messages,
                    end: StreamEnd::BadFrame(SpeconnError { code: Code::Internal, message: e }),
                };
            },
            Ok((flags, payload)) => {
                let plen = payload.len();
                if flags & FLAG_END_STREAM != 0 {
                    assert(messages@.map_values(|m: Vec<u8>| m@) =~= stream_frames(body@).0);
                    if plen != 0 {
                        let p = vstd::slice::slice_to_vec(payload);
                        return StreamFrames { messages, end: StreamEnd::ErrorTrailer(p) };
                    }
                    return StreamFrames { messages, end: StreamEnd::Finished };
                }
                let ghost before = messages@;
                let p = vstd::slice::slice_to_vec(payload);
                messages.push(p);
                let ghost next = rest.subrange(5 + plen as int, rest.len() as int);
                assert(next =~= body@.subrange(pos + 5 + plen, len as int));
                assert(messages@.map_values(|m: Vec<u8>| m@) =~= before.map_values(
                    |m: Vec<u8>| m@,
                ).push(payload@));
                assert(seq![payload@] + stream_frames(next).0 == stream_frames(rest).0);
                assert(stream_frames(body@).0 =~= messages@.map_values(|m: Vec<u8>| m@)
                    + stream_frames(next).0);
                pos = pos + 5 + plen;
            },
        }
    }
}

} // verus!
