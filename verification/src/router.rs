//! The server side: what a request is answered with. The order of work for
//! one request stands in `Handling`, a machine that says at each step what
//! to run next (an interceptor, a handler, an error encoding) and takes the
//! outcome.

use vstd::prelude::*;
use crate::client::{extract_format, format_of, stream_frames, StreamEndView};
use crate::context::SpeconnContext;
use crate::envelope::{encode_envelope, envelope_bytes, lemma_envelope_prefix, FLAG_END_STREAM};
use crate::error::{code_http_status, Code, SpeconnError};
use crate::str_map::StrMap;
use crate::text::{contains, has_substring, parse_u32, parsed_u32, str_eq};

verus! {

/// A response of the router.
pub struct RouterResponse {
    pub status: u16,
    pub content_type: String,
    pub body: Vec<u8>,
    pub headers: Vec<(String, String)>,
}

/// A request as the router and its interceptors see it.
pub struct SpeconnRequest {
    pub path: String,
    pub headers: StrMap<String>,
    pub body: Vec<u8>,
    pub content_type: String,
    pub accept: String,
}

/// The MIME type of a response in format `fmt`: `application/msgpack` or
/// `application/json`, with `connect+` before the format for a stream.
pub open spec fn mime_of(fmt: Seq<char>, stream: bool) -> Seq<char> {
    let base = if fmt == "msgpack"@ {
        "msgpack"@
    } else {
        "json"@
    };
    if stream {
        "application/connect+"@ + base
    } else {
        "application/"@ + base
    }
}

/// The MIME type of a response in format `fmt`, for a stream or not.
pub fn format_to_mime(fmt: &str, stream: bool) -> (mime: String)
    ensures
        mime@ == mime_of(fmt@, stream),
{
    let base = if str_eq(fmt, "msgpack") {
        "msgpack"
    } else {
        "json"
    };
    let mut mime = if stream {
        "application/connect+".to_owned()
    } else {
        "application/".to_owned()
    };
    mime.append(base);
    mime
}

/// The response that reports an error with `code` as JSON: the code's HTTP
/// status, content type `application/json`, and `body`, the error encoded
/// as JSON.
pub fn json_error(code: Code, body: Vec<u8>) -> (resp: RouterResponse)
    ensures
        resp.status == code_http_status(code),
        resp.content_type@ == "application/json"@,
        resp.body == body,
        resp.headers@ == Seq::<(String, String)>::empty(),
{
    RouterResponse {
        status: code.http_status(),
        content_type: "application/json".to_owned(),
        body,
        headers: Vec::new(),
    }
}

/// The frames of messages `payloads`, in order, none flagged.
pub open spec fn message_frames(payloads: Seq<Seq<u8>>) -> Seq<u8>
    decreases payloads.len(),
{
    if payloads.len() == 0 {
        Seq::empty()
    } else {
        message_frames(payloads.drop_last()) + envelope_bytes(0, payloads.last())
    }
}

/// The body of a stream response: a frame for each message, then the
/// end-of-stream frame carrying `end_payload` (empty when the stream ended
/// without error).
pub open spec fn stream_body(payloads: Seq<Seq<u8>>, end_payload: Seq<u8>) -> Seq<u8> {
    message_frames(payloads) + envelope_bytes(FLAG_END_STREAM, end_payload)
}

proof fn lemma_message_frames_prepend(p: Seq<u8>, rest: Seq<Seq<u8>>)
    ensures
        message_frames(seq![p] + rest) == envelope_bytes(0, p) + message_frames(rest),
    decreases rest.len(),
{
    if rest.len() == 0 {
        assert(seq![p] + rest =~= seq![p]);
        assert(seq![p].drop_last() =~= Seq::<Seq<u8>>::empty());
        assert(message_frames(seq![p].drop_last()) == Seq::<u8>::empty());
        assert(message_frames(seq![p]) =~= envelope_bytes(0, p));
        assert(envelope_bytes(0, p) + message_frames(rest) =~= envelope_bytes(0, p));
    } else {
        lemma_message_frames_prepend(p, rest.drop_last());
        assert((seq![p] + rest).drop_last() =~= seq![p] + rest.drop_last());
        assert((seq![p] + rest).last() == rest.last());
        assert(message_frames(seq![p] + rest) == message_frames(seq![p] + rest.drop_last())
            + envelope_bytes(0, rest.last()));
        assert(envelope_bytes(0, p) + message_frames(rest) =~= envelope_bytes(0, p)
            + message_frames(rest.drop_last()) + envelope_bytes(0, rest.last()));
    }
}

/// Reading back a stream body that the server wrote gives the messages it
/// sent, in order, and how it ended: an error trailer when the end frame
/// carries a payload, else a clean finish. This holds whenever every
/// payload's length fits in a frame's length field.
pub proof fn lemma_stream_body_reads_back(payloads: Seq<Seq<u8>>, end_payload: Seq<u8>)
    requires
        forall|i: int| 0 <= i < payloads.len() ==> #[trigger] payloads[i].len() < 0x1_0000_0000,
        end_payload.len() < 0x1_0000_0000,
    ensures
        stream_frames(stream_body(payloads, end_payload)) == (
            payloads,
            if end_payload.len() > 0 {
                StreamEndView::ErrorTrailer(end_payload)
            } else {
                StreamEndView::Finished
            },
        ),
    decreases payloads.len(),
{
    let end_frame = envelope_bytes(FLAG_END_STREAM, end_payload);
    if payloads.len() == 0 {
        assert(stream_body(payloads, end_payload) =~= end_frame + Seq::<u8>::empty());
        lemma_envelope_prefix(FLAG_END_STREAM, end_payload, Seq::empty());
        assert(FLAG_END_STREAM & FLAG_END_STREAM != 0) by (bit_vector);
    } else {
        let p = payloads[0];
        let tail = payloads.drop_first();
        assert(payloads =~= seq![p] + tail);
        lemma_message_frames_prepend(p, tail);
        let rest = message_frames(tail) + end_frame;
        assert(stream_body(payloads, end_payload) =~= envelope_bytes(0, p) + rest);
        lemma_envelope_prefix(0, p, rest);
        assert(0u8 & FLAG_END_STREAM == 0) by (bit_vector);
        assert forall|i: int| 0 <= i < tail.len() implies #[trigger] tail[i].len() < 0x1_0000_0000 by {
            assert(tail[i] == payloads[i + 1]);
        }
        lemma_stream_body_reads_back(tail, end_payload);
        assert(rest == stream_body(tail, end_payload));
        assert(seq![p] + tail == payloads);
    }
}

/// Frames each of `payloads` as a message.
pub fn frame_messages(payloads: &Vec<Vec<u8>>) -> (body: Vec<u8>)
    ensures
        body@ == message_frames(payloads@.map_values(|p: Vec<u8>| p@)),
{
    let ghost views = payloads@.map_values(|p: Vec<u8>| p@);
    let mut body: Vec<u8> = Vec::new();
    let mut i: usize = 0;
    while i < payloads.len()
        invariant
            i <= payloads@.len(),
            views == payloads@.map_values(|p: Vec<u8>| p@),
            body@ == message_frames(views.subrange(0, i as int)),
        decreases payloads@.len() - i,
    {
        let frame = encode_envelope(0, payloads[i].as_slice());
        append_bytes(&mut body, &frame);
        assert(views.subrange(0, i + 1).drop_last() =~= views.subrange(0, i as int));
        i = i + 1;
    }
    assert(views.subrange(0, payloads@.len() as int) =~= views);
    body
}

/// Appends `bytes` to `buf`.
fn append_bytes(buf: &mut Vec<u8>, bytes: &Vec<u8>)
    ensures
        final(buf)@ == old(buf)@ + bytes@,
{
    let mut i: usize = 0;
    while i < bytes.len()
        invariant
            i <= bytes@.len(),
            buf@ == old(buf)@ + bytes@.subrange(0, i as int),
        decreases bytes@.len() - i,
    {
        buf.push(bytes[i]);
        i = i + 1;
        assert(buf@ =~= old(buf)@ + bytes@.subrange(0, i as int));
    }
    assert(bytes@.subrange(0, bytes@.len() as int) =~= bytes@);
}

/// The header pairs of `m`, in its order.
fn header_pairs(m: &StrMap<String>) -> (v: Vec<(String, String)>)
    ensures
        v@ == m.entries(),
{
    let mut v: Vec<(String, String)> = Vec::new();
    let mut i: usize = 0;
    while i < m.len()
        invariant
            i <= m.entries().len(),
            v@ == m.entries().subrange(0, i as int),
        decreases m.entries().len() - i,
    {
        let (k, val) = m.entry(i);
        v.push((k.clone(), val.clone()));
        i = i + 1;
        assert(v@ =~= m.entries().subrange(0, i as int));
    }
    assert(m.entries().subrange(0, m.entries().len() as int) =~= m.entries());
    v
}

/// The timeout that request headers ask for: header `speconn-timeout-ms`
/// read as a `u32`, when it is one.
pub open spec fn requested_timeout(headers: Map<Seq<char>, String>) -> Option<u32> {
    if headers.contains_key("speconn-timeout-ms"@) {
        parsed_u32(headers["speconn-timeout-ms"@]@)
    } else {
        None
    }
}

/// The timeout that `headers` ask for.
pub fn timeout_from_headers(headers: &StrMap<String>) -> (t: Option<u32>)
    ensures
        t == requested_timeout(headers@),
{
    match headers.get("speconn-timeout-ms") {
        Some(v) => parse_u32(v.as_str()),
        None => None,
    }
}

/// Where a request goes.
#[derive(Debug, Clone, Copy, PartialEq, Eq, Structural)]
pub enum Route {
    Unary,
    Stream,
    NotFound,
}

/// Where a request goes: a request whose content type mentions `connect+`
/// goes to a stream route for its path, or else a unary one; any other goes
/// to a unary route. Without such a route it is not found.
pub open spec fn route_of(content_type: Seq<char>, has_stream: bool, has_unary: bool) -> Route {
    if has_substring(content_type, "connect+"@) && has_stream {
        Route::Stream
    } else if has_unary {
        Route::Unary
    } else {
        Route::NotFound
    }
}

/// Where the handling of a request stands, and what it waits for.
pub enum Phase {
    /// Waiting for interceptor `i`'s `before`.
    Before(usize),
    /// An interceptor refused the request with this error; waiting for the
    /// error encoded as JSON.
    Refusing(SpeconnError),
    /// Waiting for the unary handler.
    CallingUnary,
    /// The unary handler failed with this error; waiting for it encoded as
    /// JSON.
    UnaryFailing(SpeconnError),
    /// No route takes the request; waiting for this not-found error encoded
    /// as JSON.
    NoRoute(SpeconnError),
    /// Waiting for the stream handler.
    CallingStream,
    /// The stream handler failed with this error after the messages framed
    /// in the bytes; waiting for the error encoded in the response format.
    StreamFailing(SpeconnError, Vec<u8>),
    /// Waiting for interceptor `i`'s `after`.
    After(usize),
    /// The response is ready.
    Done,
}

/// What to run next for a request.
pub enum HandleAction {
    /// Run interceptor `i`'s `before` on the context and request; report
    /// `BeforeDone`.
    RunBefore(usize),
    /// Run the unary handler of the request's path on the context, body,
    /// content type and accept type; report `UnaryDone`.
    CallUnary,
    /// Run the stream handler of the request's path likewise, collecting
    /// the payloads it sends; report `StreamDone`.
    CallStream,
    /// Encode the error (its code's name and its message) in the format;
    /// report `Encoded`.
    Encode(SpeconnError, &'static str),
    /// Run interceptor `i`'s `after` on the context and response; report
    /// `AfterDone`.
    RunAfter(usize),
    /// The response is ready.
    Respond,
}

/// The outcome of an action.
pub enum HandleEvent {
    BeforeDone(Result<(), SpeconnError>),
    UnaryDone(Result<Vec<u8>, SpeconnError>),
    StreamDone(Vec<Vec<u8>>, Result<(), SpeconnError>),
    Encoded(Vec<u8>),
    AfterDone,
}

/// Whether a machine in `phase` waits for `event`.
pub open spec fn expects(phase: Phase, event: HandleEvent) -> bool {
    match (phase, event) {
        (Phase::Before(_), HandleEvent::BeforeDone(_)) => true,
        (Phase::Refusing(_), HandleEvent::Encoded(_)) => true,
        (Phase::CallingUnary, HandleEvent::UnaryDone(_)) => true,
        (Phase::UnaryFailing(_), HandleEvent::Encoded(_)) => true,
        (Phase::NoRoute(_), HandleEvent::Encoded(_)) => true,
        (Phase::CallingStream, HandleEvent::StreamDone(_, _)) => true,
        (Phase::StreamFailing(_, _), HandleEvent::Encoded(_)) => true,
        (Phase::After(_), HandleEvent::AfterDone) => true,
        _ => false,
    }
}

/// The action that a machine in `phase` asks for; `accept` is the
/// request's accept type, whose format stream errors are encoded in.
pub open spec fn action_for(phase: Phase, accept: Seq<char>, action: HandleAction) -> bool {
    match (phase, action) {
        (Phase::Before(i), HandleAction::RunBefore(j)) => i == j,
        (Phase::Refusing(e), HandleAction::Encode(e2, fmt)) => e2 == e && fmt@ == "json"@,
        (Phase::CallingUnary, HandleAction::CallUnary) => true,
        (Phase::UnaryFailing(e), HandleAction::Encode(e2, fmt)) => e2 == e && fmt@ == "json"@,
        (Phase::NoRoute(e), HandleAction::Encode(e2, fmt)) => e2 == e && fmt@ == "json"@,
        (Phase::CallingStream, HandleAction::CallStream) => true,
        (Phase::StreamFailing(e, _), HandleAction::Encode(e2, fmt)) => e2 == e && fmt@ == format_of(
            accept,
        ),
        (Phase::After(i), HandleAction::RunAfter(j)) => i == j,
        (Phase::Done, HandleAction::Respond) => true,
        _ => false,
    }
}

/// `b` is `a` cancelled.
pub open spec fn cancelled_from(a: SpeconnContext, b: SpeconnContext) -> bool {
    b.same_but_flags(a) && b.is_cancelled_spec() && b.sent() == a.sent()
}

/// `b` is `a` with its response headers marked sent.
pub open spec fn marked_sent_from(a: SpeconnContext, b: SpeconnContext) -> bool {
    b.same_but_flags(a) && b.sent() && b.is_cancelled_spec() == a.is_cancelled_spec()
}

/// `r` has the given status, content type, body and header pairs.
pub open spec fn response_is(
    r: RouterResponse,
    status: u16,
    content_type: Seq<char>,
    body: Seq<u8>,
    headers: Seq<(String, String)>,
) -> bool {
    r.status == status && r.content_type@ == content_type && r.body@ == body && r.headers@ == headers
}

/// The handling of one request.
pub struct Handling {
    ctx: SpeconnContext,
    req: SpeconnRequest,
    route: Route,
    interceptors: usize,
    phase: Phase,
    response: RouterResponse,
}

impl Handling {
    /// The request's context.
    pub closed spec fn context_view(self) -> SpeconnContext {
        self.ctx
    }

    /// The request.
    pub closed spec fn request_view(self) -> SpeconnRequest {
        self.req
    }

    /// Where the request goes.
    pub closed spec fn route_view(self) -> Route {
        self.route
    }

    /// How many interceptors the router has.
    pub closed spec fn interceptor_count(self) -> usize {
        self.interceptors
    }

    /// Where the handling stands.
    pub closed spec fn phase_view(self) -> Phase {
        self.phase
    }

    /// The response built so far.
    pub closed spec fn response_view(self) -> RouterResponse {
        self.response
    }

    /// `n` is `o` after the handler's response `r` (before the context's
    /// response headers are added to it) was built from context `ctx`: the
    /// context's response headers follow those of `r`, then the `after`
    /// interceptors run, or, when there are none, the request is cancelled
    /// and the response is ready.
    pub open spec fn handler_finished(
        o: Handling,
        n: Handling,
        ctx: SpeconnContext,
        status: u16,
        content_type: Seq<char>,
        body: Seq<u8>,
        headers: Seq<(String, String)>,
    ) -> bool {
        &&& response_is(
            n.response_view(),
            status,
            content_type,
            body,
            headers + ctx.response_header_map().entries(),
        )
        &&& if o.interceptor_count() > 0 {
            n.phase_view() == Phase::After(0) && n.context_view() == ctx
        } else {
            n.phase_view() == Phase::Done && cancelled_from(ctx, n.context_view())
        }
    }

    /// `n` is `o` once the interceptors let the request through: it goes to
    /// its route. A stream handler starts with the response headers marked
    /// sent when some were set.
    pub open spec fn dispatched(o: Handling, n: Handling) -> bool {
        &&& n.response_view() == o.response_view()
        &&& match o.route_view() {
            Route::Unary => n.phase_view() == Phase::CallingUnary && n.context_view()
                == o.context_view(),
            Route::Stream => n.phase_view() == Phase::CallingStream && (
            if o.context_view().response_header_map()@.dom().is_empty() {
                n.context_view() == o.context_view()
            } else {
                marked_sent_from(o.context_view(), n.context_view())
            }),
            Route::NotFound => n.context_view() == o.context_view() && (match n.phase_view() {
                Phase::NoRoute(e) => e.code == Code::NotFound && e.message@ == "no route: "@
                    + o.request_view().path@,
                _ => false,
            }),
        }
    }

    /// `n` is `o` after `event`, which `o` waits for.
    pub open spec fn transition(o: Handling, event: HandleEvent, n: Handling) -> bool {
        let accept = o.request_view().accept@;
        let pairs = o.context_view().response_header_map().entries();
        &&& n.request_view() == o.request_view()
        &&& n.route_view() == o.route_view()
        &&& n.interceptor_count() == o.interceptor_count()
        &&& match (o.phase_view(), event) {
            (Phase::Before(i), HandleEvent::BeforeDone(Ok(()))) => if i + 1 < o.interceptor_count() {
                n.phase_view() == Phase::Before((i + 1) as usize) && n.context_view() == o.context_view()
                    && n.response_view() == o.response_view()
            } else {
                Handling::dispatched(o, n)
            },
            (Phase::Before(_), HandleEvent::BeforeDone(Err(e))) => n.phase_view() == Phase::Refusing(e)
                && cancelled_from(o.context_view(), n.context_view()) && n.response_view()
                == o.response_view(),
            (Phase::Refusing(e), HandleEvent::Encoded(b)) => n.phase_view() == Phase::Done
                && n.context_view() == o.context_view() && response_is(
                n.response_view(),
                code_http_status(e.code),
                "application/json"@,
                b@,
                Seq::empty(),
            ),
            (Phase::CallingUnary, HandleEvent::UnaryDone(Ok(res))) => Handling::handler_finished(
                o,
                n,
                o.context_view(),
                200,
                mime_of(format_of(accept), false),
                res@,
                pairs,
            ),
            (Phase::CallingUnary, HandleEvent::UnaryDone(Err(e))) => n.phase_view()
                == Phase::UnaryFailing(e) && n.context_view() == o.context_view()
                && n.response_view() == o.response_view(),
            (Phase::UnaryFailing(e), HandleEvent::Encoded(b)) => Handling::handler_finished(
                o,
                n,
                o.context_view(),
                code_http_status(e.code),
                "application/json"@,
                b@,
                Seq::empty(),
            ),
            (Phase::NoRoute(e), HandleEvent::Encoded(b)) => Handling::handler_finished(
                o,
                n,
                o.context_view(),
                code_http_status(e.code),
                "application/json"@,
                b@,
                Seq::empty(),
            ),
            (Phase::CallingStream, HandleEvent::StreamDone(sent, Ok(()))) => exists|ctx: SpeconnContext|
                #[trigger] marked_sent_from(o.context_view(), ctx) && Handling::handler_finished(
                    o,
                    n,
                    ctx,
                    200,
                    mime_of(format_of(accept), true),
                    stream_body(sent@.map_values(|p: Vec<u8>| p@), Seq::empty()),
                    pairs,
                ),
            (Phase::CallingStream, HandleEvent::StreamDone(sent, Err(e))) => (match n.phase_view() {
                Phase::StreamFailing(e2, frames) => e2 == e && frames@ == message_frames(
                    sent@.map_values(|p: Vec<u8>| p@),
                ),
                _ => false,
            }) && n.context_view() == o.context_view() && n.response_view() == o.response_view(),
            (Phase::StreamFailing(_, frames), HandleEvent::Encoded(b)) => exists|ctx: SpeconnContext|
                #[trigger] marked_sent_from(o.context_view(), ctx) && Handling::handler_finished(
                    o,
                    n,
                    ctx,
                    200,
                    mime_of(format_of(accept), true),
                    frames@ + envelope_bytes(FLAG_END_STREAM, b@),
                    pairs,
                ),
            (Phase::After(i), HandleEvent::AfterDone) => n.response_view() == o.response_view() && (if i
                + 1 < o.interceptor_count() {
                n.phase_view() == Phase::After((i + 1) as usize) && n.context_view() == o.context_view()
            } else {
                n.phase_view() == Phase::Done && cancelled_from(o.context_view(), n.context_view())
            }),
            _ => false,
        }
    }
}

impl Handling {
    /// The interceptor that a phase waits for is one the router has.
    pub open spec fn well_formed(self) -> bool {
        match self.phase_view() {
            Phase::Before(i) => i < self.interceptor_count(),
            Phase::After(i) => i < self.interceptor_count(),
            _ => true,
        }
    }

    /// The most steps that the handling can still take before it is done.
    pub open spec fn steps_left(self) -> nat {
        let n = self.interceptor_count() as nat;
        match self.phase_view() {
            Phase::Before(i) => ((n - i) + 2 + n) as nat,
            Phase::Refusing(_) => 1,
            Phase::CallingUnary | Phase::CallingStream => 2 + n,
            Phase::UnaryFailing(_) | Phase::NoRoute(_) | Phase::StreamFailing(_, _) => 1 + n,
            Phase::After(i) => (n - i) as nat,
            Phase::Done => 0,
        }
    }
}

/// Handling a request always finishes: each outcome that the machine waits
/// for takes it one step closer to done, and a done machine waits for
/// nothing, so every request is answered after at most `steps_left` steps.
pub proof fn lemma_handling_progresses(o: Handling, event: HandleEvent, n: Handling)
    requires
        o.well_formed(),
        expects(o.phase_view(), event),
        Handling::transition(o, event, n),
    ensures
        n.well_formed(),
        n.steps_left() < o.steps_left(),
        o.phase_view() != Phase::Done,
{
}

/// Any content type that contains `connect+`, whatever format follows it,
/// sends a request whose path has a stream route to that route; the choice
/// depends only on whether `connect+` occurs, so two content types that
/// both contain it (or both lack it) are routed alike.
pub proof fn lemma_connect_content_types_stream(
    before: Seq<char>,
    after: Seq<char>,
    other: Seq<char>,
    has_unary: bool,
)
    ensures
        route_of(before + "connect+"@ + after, true, has_unary) == Route::Stream,
        has_substring(other, "connect+"@) ==> route_of(other, true, has_unary) == Route::Stream,
        has_substring(other, "connect+"@) == has_substring(before + "connect+"@ + after, "connect+"@)
            ==> route_of(other, true, has_unary) == route_of(
            before + "connect+"@ + after,
            true,
            has_unary,
        ),
        !has_substring(other, "connect+"@) ==> route_of(other, true, true) == Route::Unary,
{
    let ct = before + "connect+"@ + after;
    let i = before.len() as int;
    assert(ct.subrange(i, i + "connect+"@.len()) =~= "connect+"@);
    assert(has_substring(ct, "connect+"@));
}

/// The MIME type of a response: `application/` (with `connect+` for a
/// stream) followed by the format the accept type names.
proof fn lemma_mime_of_format(accept: Seq<char>, stream: bool)
    ensures
        mime_of(format_of(accept), stream) == (if stream {
            "application/connect+"@
        } else {
            "application/"@
        }) + format_of(accept),
{
}

/// A unary handler that succeeds is answered with status 200, a success
/// status that clients accept, with the handler's bytes as the body and
/// content type `application/` followed by the accept type's format.
pub proof fn lemma_unary_success_answer(o: Handling, res: Vec<u8>, n: Handling)
    requires
        o.phase_view() == Phase::CallingUnary,
        Handling::transition(o, HandleEvent::UnaryDone(Ok(res)), n),
    ensures
        n.response_view().status == 200,
        n.response_view().status < 400,
        n.response_view().body@ == res@,
        n.response_view().content_type@ == "application/"@ + format_of(o.request_view().accept@),
{
    lemma_mime_of_format(o.request_view().accept@, false);
}

/// Every stream answer has content type `application/connect+` followed by
/// the accept type's format, and status 200, whether the stream handler
/// finished or failed.
pub proof fn lemma_stream_answer_content_type(o: Handling, event: HandleEvent, n: Handling)
    requires
        (o.phase_view() == Phase::CallingStream && event matches HandleEvent::StreamDone(_, Ok(())))
            || (o.phase_view() is StreamFailing && event is Encoded),
        Handling::transition(o, event, n),
    ensures
        n.response_view().content_type@ == "application/connect+"@ + format_of(
            o.request_view().accept@,
        ),
        n.response_view().status == 200,
{
    lemma_mime_of_format(o.request_view().accept@, true);
}

/// With at least one interceptor, the `after` interceptors run on every
/// answer built for a request that got through: once the handler's
/// outcome, success or error, or the not-found error is in the response,
/// the next step is interceptor 0's `after`. The only way to be done
/// without passing through the `after` interceptors is a refusal by a
/// `before` interceptor.
pub proof fn lemma_after_interceptors_run(o: Handling, event: HandleEvent, n: Handling)
    requires
        expects(o.phase_view(), event),
        Handling::transition(o, event, n),
    ensures
        o.interceptor_count() > 0 && n.response_view() != o.response_view() && !(
        o.phase_view() is Refusing) ==> n.phase_view() == Phase::After(0),
        o.interceptor_count() > 0 && ((o.phase_view() == Phase::CallingUnary
            && event matches HandleEvent::UnaryDone(Ok(_))) || (o.phase_view() is UnaryFailing)
            || (o.phase_view() is NoRoute) || (o.phase_view() == Phase::CallingStream
            && event matches HandleEvent::StreamDone(_, Ok(()))) || (o.phase_view() is StreamFailing))
            ==> n.phase_view() == Phase::After(0),
        n.phase_view() == Phase::Done && !(o.phase_view() is After) ==> o.phase_view() is Refusing
            || o.interceptor_count() == 0,
{
}

/// A request that an interceptor refuses is answered with that error
/// encoded as JSON, under its code's HTTP status, with no response headers;
/// the request is cancelled, and neither a handler nor an `after`
/// interceptor runs: the answer is ready right after the encoding.
pub proof fn lemma_refused_request_answer(
    o: Handling,
    e: SpeconnError,
    refusing: Handling,
    encoded: Vec<u8>,
    n: Handling,
)
    requires
        o.phase_view() is Before,
        Handling::transition(o, HandleEvent::BeforeDone(Err(e)), refusing),
        Handling::transition(refusing, HandleEvent::Encoded(encoded), n),
    ensures
        refusing.phase_view() == Phase::Refusing(e),
        forall|ev: HandleEvent| expects(refusing.phase_view(), ev) ==> ev is Encoded,
        n.phase_view() == Phase::Done,
        n.response_view().status == code_http_status(e.code),
        n.response_view().content_type@ == "application/json"@,
        n.response_view().body@ == encoded@,
        n.response_view().headers@ == Seq::<(String, String)>::empty(),
        n.context_view().is_cancelled_spec(),
{
}

fn clone_error(e: &SpeconnError) -> (c: SpeconnError)
    ensures
        c == *e,
{
    SpeconnError { code: e.code, message: e.message.clone() }
}

impl Handling {
    /// Starts the handling of a request to `path` with the given content
    /// type, accept type, body and headers, on a router whose unary and
    /// stream routes are keyed by path and which has `interceptors`
    /// interceptors. The context gets the headers (names lowercased), the
    /// path as the method name and the timeout that the headers ask for.
    /// The interceptors' `before` runs first, if there are any.
    pub fn start<U, S>(
        unary_routes: &StrMap<U>,
        stream_routes: &StrMap<S>,
        interceptors: usize,
        path: &str,
        content_type: &str,
        accept: &str,
        body: &[u8],
        headers: &StrMap<String>,
    ) -> (h: Handling)
        ensures
            h.request_view().path@ == path@,
            h.request_view().headers.entries() == headers.entries(),
            h.request_view().body@ == body@,
            h.request_view().content_type@ == content_type@,
            h.request_view().accept@ == accept@,
            h.route_view() == route_of(
                content_type@,
                stream_routes@.contains_key(path@),
                unary_routes@.contains_key(path@),
            ),
            h.interceptor_count() == interceptors,
            h.well_formed(),
            h.context_view().request_headers()@ == crate::context::lowercase_keys(headers.entries()),
            h.context_view().response_header_map()@ == Map::<Seq<char>, String>::empty(),
            h.context_view().response_trailer_map()@ == Map::<Seq<char>, String>::empty(),
            h.context_view().value_map()@ == Map::<Seq<char>, crate::context_key::ContextValue>::empty(),
            h.context_view().method() == path@,
            h.context_view().local() is None,
            h.context_view().remote() is None,
            !h.context_view().sent(),
            !h.context_view().is_cancelled_spec(),
            h.context_view().timeout() == requested_timeout(headers@),
            interceptors > 0 ==> h.phase_view() == Phase::Before(0),
            interceptors == 0 ==> match h.route_view() {
                Route::Unary => h.phase_view() == Phase::CallingUnary,
                Route::Stream => h.phase_view() == Phase::CallingStream,
                Route::NotFound => match h.phase_view() {
                    Phase::NoRoute(e) => e.code == Code::NotFound && e.message@ == "no route: "@
                        + path@,
                    _ => false,
                },
            },
    {
        let timeout = timeout_from_headers(headers);
        let ctx = SpeconnContext::new(headers.clone(), path.to_owned(), None, None, timeout);
        let req = SpeconnRequest {
            path: path.to_owned(),
            headers: headers.clone(),
            body: vstd::slice::slice_to_vec(body),
            content_type: content_type.to_owned(),
            accept: accept.to_owned(),
        };
        let is_stream = contains(req.content_type.as_str(), "connect+");
        let route = if is_stream && stream_routes.contains_key(path) {
            Route::Stream
        } else if unary_routes.contains_key(path) {
            Route::Unary
        } else {
            Route::NotFound
        };
        let mut h = Handling {
            ctx,
            req,
            route,
            interceptors,
            phase: Phase::Before(0),
            response: RouterResponse {
                status: 0,
                content_type: String::new(),
                body: Vec::new(),
                headers: Vec::new(),
            },
        };
        if interceptors == 0 {
            h.dispatch();
        }
        h
    }

    /// Sends the request to its route.
    fn dispatch(&mut self)
        ensures
            Handling::dispatched(*old(self), *final(self)),
            final(self).request_view() == old(self).request_view(),
            final(self).route_view() == old(self).route_view(),
            final(self).interceptor_count() == old(self).interceptor_count(),
    {
        match self.route {
            Route::Unary => {
                self.phase = Phase::CallingUnary;
            },
            Route::Stream => {
                if !self.ctx.response_header_entries().is_empty() {
                    self.ctx.mark_headers_sent();
                }
                proof {
                    if old(self).ctx.response_header_map()@.dom().is_empty() {
                        assert(old(self).ctx.response_header_map()@ =~= Map::<Seq<char>, String>::empty());
                    }
                }
                self.phase = Phase::CallingStream;
            },
            Route::NotFound => {
                let mut message = "no route: ".to_owned();
                message.append(self.req.path.as_str());
                self.phase = Phase::NoRoute(SpeconnError { code: Code::NotFound, message });
            },
        }
    }

    /// Sets the handler's response, adds the context's response headers to
    /// it, and moves on to the `after` interceptors or finishes.
    fn finish_handler(
        &mut self,
        status: u16,
        content_type: String,
        body: Vec<u8>,
        headers: Vec<(String, String)>,
    )
        ensures
            Handling::handler_finished(
                *old(self),
                *final(self),
                old(self).context_view(),
                status,
                content_type@,
                body@,
                headers@,
            ),
            final(self).request_view() == old(self).request_view(),
            final(self).route_view() == old(self).route_view(),
            final(self).interceptor_count() == old(self).interceptor_count(),
    {
        let mut all = headers;
        let more = header_pairs(self.ctx.response_header_entries());
        let mut i: usize = 0;
        let ghost start = all@;
        while i < more.len()
            invariant
                i <= more@.len(),
                all@ == start + more@.subrange(0, i as int),
            decreases more@.len() - i,
        {
            all.push((more[i].0.clone(), more[i].1.clone()));
            i = i + 1;
            assert(all@ =~= start + more@.subrange(0, i as int));
        }
        assert(more@.subrange(0, more@.len() as int) =~= more@);
        self.response = RouterResponse { status, content_type, body, headers: all };
        if self.interceptors > 0 {
            self.phase = Phase::After(0);
        } else {
            self.ctx.cleanup();
            self.phase = Phase::Done;
        }
    }

    /// What the machine asks for now.
    pub fn action(&self) -> (a: HandleAction)
        ensures
            action_for(self.phase_view(), self.request_view().accept@, a),
    {
        match &self.phase {
            Phase::Before(i) => HandleAction::RunBefore(*i),
            Phase::Refusing(e) => HandleAction::Encode(clone_error(e), "json"),
            Phase::CallingUnary => HandleAction::CallUnary,
            Phase::UnaryFailing(e) => HandleAction::Encode(clone_error(e), "json"),
            Phase::NoRoute(e) => HandleAction::Encode(clone_error(e), "json"),
            Phase::CallingStream => HandleAction::CallStream,
            Phase::StreamFailing(e, _) => HandleAction::Encode(
                clone_error(e),
                extract_format(self.req.accept.as_str()),
            ),
            Phase::After(i) => HandleAction::RunAfter(*i),
            Phase::Done => HandleAction::Respond,
        }
    }

    /// Takes the outcome of the last action and says what to run next. An
    /// outcome that the machine does not wait for changes nothing.
    pub fn step(&mut self, event: HandleEvent) -> (a: HandleAction)
        ensures
            expects(old(self).phase_view(), event) ==> Handling::transition(
                *old(self),
                event,
                *final(self),
            ),
            !expects(old(self).phase_view(), event) ==> *final(self) == *old(self),
            old(self).well_formed() ==> final(self).well_formed(),
            action_for(final(self).phase_view(), final(self).request_view().accept@, a),
    {
        let ghost o = *self;
        let ghost ev = event;
        let mut phase = Phase::Done;
        std::mem::swap(&mut phase, &mut self.phase);
        match (phase, event) {
            (Phase::Before(i), HandleEvent::BeforeDone(Ok(()))) => {
                if self.interceptors > 0 && i < self.interceptors - 1 {
                    self.phase = Phase::Before(i + 1);
                } else {
                    self.dispatch();
                }
            },
            (Phase::Before(_), HandleEvent::BeforeDone(Err(e))) => {
                self.ctx.cleanup();
                self.phase = Phase::Refusing(e);
            },
            (Phase::Refusing(e), HandleEvent::Encoded(b)) => {
                self.response = json_error(e.code, b);
                self.phase = Phase::Done;
            },
            (Phase::CallingUnary, HandleEvent::UnaryDone(Ok(res))) => {
                let mime = format_to_mime(extract_format(self.req.accept.as_str()), false);
                let pairs = header_pairs(self.ctx.response_header_entries());
                self.finish_handler(200, mime, res, pairs);
            },
            (Phase::CallingUnary, HandleEvent::UnaryDone(Err(e))) => {
                self.phase = Phase::UnaryFailing(e);
            },
            (Phase::UnaryFailing(e), HandleEvent::Encoded(b)) => {
                let r = json_error(e.code, b);
                self.finish_handler(r.status, r.content_type, r.body, r.headers);
            },
            (Phase::NoRoute(e), HandleEvent::Encoded(b)) => {
                let r = json_error(e.code, b);
                self.finish_handler(r.status, r.content_type, r.body, r.headers);
            },
            (Phase::CallingStream, HandleEvent::StreamDone(sent, Ok(()))) => {
                let ghost views = sent@.map_values(|p: Vec<u8>| p@);
                let mut body = frame_messages(&sent);
                let no_payload: Vec<u8> = Vec::new();
                let end = encode_envelope(FLAG_END_STREAM, no_payload.as_slice());
                append_bytes(&mut body, &end);
                assert(body@ == stream_body(views, Seq::empty()));
                self.ctx.mark_headers_sent();
                let mime = format_to_mime(extract_format(self.req.accept.as_str()), true);
                let pairs = header_pairs(self.ctx.response_header_entries());
                let ghost marked = self.ctx;
                self.finish_handler(200, mime, body, pairs);
                assert(marked_sent_from(o.context_view(), marked));
                assert(Handling::handler_finished(
                    o,
                    *self,
                    marked,
                    200,
                    mime_of(format_of(o.req.accept@), true),
                    stream_body(views, Seq::empty()),
                    o.ctx.response_header_map().entries(),
                ));
            },
            (Phase::CallingStream, HandleEvent::StreamDone(sent, Err(e))) => {
                let frames = frame_messages(&sent);
                self.phase = Phase::StreamFailing(e, frames);
            },
            (Phase::StreamFailing(_, frames), HandleEvent::Encoded(b)) => {
                let ghost framed = frames@;
                let mut body = frames;
                let end = encode_envelope(FLAG_END_STREAM, b.as_slice());
                append_bytes(&mut body, &end);
                self.ctx.mark_headers_sent();
                let mime = format_to_mime(extract_format(self.req.accept.as_str()), true);
                let pairs = header_pairs(self.ctx.response_header_entries());
                let ghost marked = self.ctx;
                self.finish_handler(200, mime, body, pairs);
                assert(marked_sent_from(o.context_view(), marked));
                assert(Handling::handler_finished(
                    o,
                    *self,
                    marked,
                    200,
                    mime_of(format_of(o.req.accept@), true),
                    framed + envelope_bytes(FLAG_END_STREAM, b@),
                    o.ctx.response_header_map().entries(),
                ));
            },
            (Phase::After(i), HandleEvent::AfterDone) => {
                if self.interceptors > 0 && i < self.interceptors - 1 {
                    self.phase = Phase::After(i + 1);
                } else {
                    self.ctx.cleanup();
                    self.phase = Phase::Done;
                }
            },
            (phase, _) => {
                self.phase = phase;
            },
        }
        proof {
            if o.well_formed() && expects(o.phase_view(), ev) {
                lemma_handling_progresses(o, ev, *self);
            }
        }
        self.action()
    }

    /// The request's context.
    pub fn context(&self) -> (c: &SpeconnContext)
        ensures
            *c == self.context_view(),
    {
        &self.ctx
    }

    /// The request's context, for a handler or interceptor to change.
    pub fn context_mut(&mut self) -> (c: &mut SpeconnContext)
        ensures
            *c == old(self).context_view(),
            final(self).context_view() == *final(c),
            final(self).request_view() == old(self).request_view(),
            final(self).route_view() == old(self).route_view(),
            final(self).interceptor_count() == old(self).interceptor_count(),
            final(self).phase_view() == old(self).phase_view(),
            final(self).response_view() == old(self).response_view(),
    {
        &mut self.ctx
    }

    /// The context, for a handler or interceptor to change, together with
    /// the request it reads.
    pub fn context_and_request(&mut self) -> (cr: (&mut SpeconnContext, &SpeconnRequest))
        ensures
            *cr.0 == old(self).context_view(),
            *cr.1 == old(self).request_view(),
            final(self).context_view() == *final(cr.0),
            final(self).request_view() == old(self).request_view(),
            final(self).route_view() == old(self).route_view(),
            final(self).interceptor_count() == old(self).interceptor_count(),
            final(self).phase_view() == old(self).phase_view(),
            final(self).response_view() == old(self).response_view(),
    {
        (&mut self.ctx, &self.req)
    }

    /// The response built so far, for an `after` interceptor to change,
    /// together with the context it reads.
    pub fn context_and_response(&mut self) -> (cr: (&SpeconnContext, &mut RouterResponse))
        ensures
            *cr.0 == old(self).context_view(),
            *cr.1 == old(self).response_view(),
            final(self).response_view() == *final(cr.1),
            final(self).request_view() == old(self).request_view(),
            final(self).route_view() == old(self).route_view(),
            final(self).interceptor_count() == old(self).interceptor_count(),
            final(self).phase_view() == old(self).phase_view(),
            final(self).context_view() == old(self).context_view(),
    {
        (&self.ctx, &mut self.response)
    }

    /// The request.
    pub fn request(&self) -> (r: &SpeconnRequest)
        ensures
            *r == self.request_view(),
    {
        &self.req
    }

    /// The response built so far, for an `after` interceptor to change.
    pub fn response_mut(&mut self) -> (r: &mut RouterResponse)
        ensures
            *r == old(self).response_view(),
            final(self).response_view() == *final(r),
            final(self).request_view() == old(self).request_view(),
            final(self).route_view() == old(self).route_view(),
            final(self).interceptor_count() == old(self).interceptor_count(),
            final(self).phase_view() == old(self).phase_view(),
            final(self).context_view() == old(self).context_view(),
    {
        &mut self.response
    }

    /// The response, once the handling is done.
    pub fn into_response(self) -> (r: RouterResponse)
        ensures
            r == self.response_view(),
    {
        self.response
    }
}

} // verus!