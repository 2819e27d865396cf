//! The state of one request on the server: its headers, what the handler
//! sets for the response, typed values, and whether it was cancelled.

use vstd::prelude::*;
use crate::context_key::ContextValue;
use crate::str_map::StrMap;
use crate::text::{lowercase, to_lowercase};

verus! {

/// One request's context. Request header names are lowercase; response
/// header and trailer names are lowercased when set. Once the response
/// headers are sent they can no longer be changed.
pub struct SpeconnContext {
    pub headers: StrMap<String>,
    pub response_headers: StrMap<String>,
    pub response_trailers: StrMap<String>,
    pub method_name: String,
    pub local_addr: Option<String>,
    pub remote_addr: Option<String>,
    pub values: StrMap<ContextValue>,
    headers_sent: bool,
    cancelled: bool,
    timeout_ms: Option<u32>,
}

/// The map of `entries` read in order with each name lowercased; a later
/// entry wins over an earlier one whose name lowercases the same.
pub open spec fn lowercase_keys(entries: Seq<(String, String)>) -> Map<Seq<char>, String>
    decreases entries.len(),
{
    if entries.len() == 0 {
        Map::empty()
    } else {
        lowercase_keys(entries.drop_last()).insert(lowercase(entries.last().0@), entries.last().1)
    }
}

/// The text of the error that refuses a change to sent headers.
pub open spec fn headers_sent_message() -> Seq<char> {
    "headers already sent"@
}

/// The value that `add_response_header` leaves under a name that held
/// `existing`: the old value, a comma and a space, then the new one.
pub open spec fn joined_value(existing: Seq<char>, value: Seq<char>) -> Seq<char> {
    existing + ", "@ + value
}

impl SpeconnContext {
    /// The request headers.
    pub closed spec fn request_headers(self) -> StrMap<String> {
        self.headers
    }

    /// The response headers set so far.
    pub closed spec fn response_header_map(self) -> StrMap<String> {
        self.response_headers
    }

    /// The response trailers set so far.
    pub closed spec fn response_trailer_map(self) -> StrMap<String> {
        self.response_trailers
    }

    /// The values stored under keys.
    pub closed spec fn value_map(self) -> StrMap<ContextValue> {
        self.values
    }

    /// The procedure's name.
    pub closed spec fn method(self) -> Seq<char> {
        self.method_name@
    }

    /// The local address, if known.
    pub closed spec fn local(self) -> Option<String> {
        self.local_addr
    }

    /// The peer's address, if known.
    pub closed spec fn remote(self) -> Option<String> {
        self.remote_addr
    }

    /// Whether the response headers were sent.
    pub closed spec fn sent(self) -> bool {
        self.headers_sent
    }

    /// Whether the request was cancelled.
    pub closed spec fn is_cancelled_spec(self) -> bool {
        self.cancelled
    }

    /// The timeout the request came with.
    pub closed spec fn timeout(self) -> Option<u32> {
        self.timeout_ms
    }

    /// The two contexts agree on everything but the response headers.
    pub open spec fn same_but_response_headers(self, other: Self) -> bool {
        &&& self.request_headers() == other.request_headers()
        &&& self.response_trailer_map() == other.response_trailer_map()
        &&& self.value_map() == other.value_map()
        &&& self.method() == other.method()
        &&& self.local() == other.local()
        &&& self.remote() == other.remote()
        &&& self.sent() == other.sent()
        &&& self.is_cancelled_spec() == other.is_cancelled_spec()
        &&& self.timeout() == other.timeout()
    }

    /// The two contexts agree on everything but the response trailers.
    pub open spec fn same_but_response_trailers(self, other: Self) -> bool {
        &&& self.request_headers() == other.request_headers()
        &&& self.response_header_map() == other.response_header_map()
        &&& self.value_map() == other.value_map()
        &&& self.method() == other.method()
        &&& self.local() == other.local()
        &&& self.remote() == other.remote()
        &&& self.sent() == other.sent()
        &&& self.is_cancelled_spec() == other.is_cancelled_spec()
        &&& self.timeout() == other.timeout()
    }

    /// The two contexts agree on everything but the stored values.
    pub open spec fn same_but_values(self, other: Self) -> bool {
        &&& self.request_headers() == other.request_headers()
        &&& self.response_header_map() == other.response_header_map()
        &&& self.response_trailer_map() == other.response_trailer_map()
        &&& self.method() == other.method()
        &&& self.local() == other.local()
        &&& self.remote() == other.remote()
        &&& self.sent() == other.sent()
        &&& self.is_cancelled_spec() == other.is_cancelled_spec()
        &&& self.timeout() == other.timeout()
    }

    /// The two contexts agree on everything but the two flags.
    pub open spec fn same_but_flags(self, other: Self) -> bool {
        &&& self.request_headers() == other.request_headers()
        &&& self.response_header_map() == other.response_header_map()
        &&& self.response_trailer_map() == other.response_trailer_map()
        &&& self.value_map() == other.value_map()
        &&& self.method() == other.method()
        &&& self.local() == other.local()
        &&& self.remote() == other.remote()
        &&& self.timeout() == other.timeout()
    }

    /// A context for a request with `headers`, their names lowercased, to
    /// `method_name`. Nothing is set for the response, no values are
    /// stored, the headers are not sent and the request is not cancelled.
    /// `timeout_ms` is kept for the timer that `deadline_ms` asks for.
    pub fn new(
        headers: StrMap<String>,
        method_name: String,
        local_addr: Option<String>,
        remote_addr: Option<String>,
        timeout_ms: Option<u32>,
    ) -> (ctx: Self)
        ensures
            ctx.request_headers()@ == lowercase_keys(headers.entries()),
            ctx.response_header_map()@ == Map::<Seq<char>, String>::empty(),
            ctx.response_header_map().entries().len() == 0,
            ctx.response_trailer_map()@ == Map::<Seq<char>, String>::empty(),
            ctx.value_map()@ == Map::<Seq<char>, ContextValue>::empty(),
            ctx.method() == method_name@,
            ctx.local() == local_addr,
            ctx.remote() == remote_addr,
            !ctx.sent(),
            !ctx.is_cancelled_spec(),
            ctx.timeout() == timeout_ms,
    {
        let mut normalized: StrMap<String> = StrMap::new();
        let mut i: usize = 0;
        while i < headers.len()
            invariant
                i <= headers.entries().len(),
                normalized@ == lowercase_keys(headers.entries().subrange(0, i as int)),
            decreases headers.entries().len() - i,
        {
            let (k, v) = headers.entry(i);
            let lower = to_lowercase(k.as_str());
            normalized.insert(lower, v.clone());
            assert(headers.entries().subrange(0, i + 1).drop_last() =~= headers.entries().subrange(
                0,
                i as int,
            ));
            i = i + 1;
        }
        assert(headers.entries().subrange(0, headers.entries().len() as int) =~= headers.entries());
        SpeconnContext {
            headers: normalized,
            response_headers: StrMap::new(),
            response_trailers: StrMap::new(),
            method_name,
            local_addr,
            remote_addr,
            values: StrMap::new(),
            headers_sent: false,
            cancelled: false,
            timeout_ms,
        }
    }

    /// The timer to arm for this request: its timeout, when it has one
    /// above zero. When it fires, `cleanup` cancels the request.
    pub fn deadline_ms(&self) -> (d: Option<u32>)
        ensures
            d == (match self.timeout() {
                Some(t) => if t > 0 {
                    Some(t)
                } else {
                    None
                },
                None => None,
            }),
    {
        match self.timeout_ms {
            Some(t) => if t > 0 {
                Some(t)
            } else {
                None
            },
            None => None,
        }
    }

    /// Sets response header `key` (lowercased) to `value`, replacing any
    /// value it had; refused once the headers are sent.
    pub fn set_response_header(&mut self, key: &str, value: &str) -> (r: Result<(), String>)
        ensures
            old(self).sent() ==> (*final(self) == *old(self) && (r matches Err(e) && e@
                == headers_sent_message())),
            !old(self).sent() ==> r is Ok && final(self).same_but_response_headers(*old(self))
                && final(self).response_header_map()@ == old(self).response_header_map()@.insert(
                lowercase(key@),
                final(self).response_header_map()@[lowercase(key@)],
            ) && final(self).response_header_map()@[lowercase(key@)]@ == value@,
    {
        if self.headers_sent {
            return Err("headers already sent".to_owned());
        }
        let lower = to_lowercase(key);
        self.response_headers.insert(lower, value.to_owned());
        Ok(())
    }

    /// Adds `value` to response header `key` (lowercased): a header that
    /// has a value gets `", "` and the new value appended, another is set
    /// to `value`. Refused once the headers are sent.
    pub fn add_response_header(&mut self, key: &str, value: &str) -> (r: Result<(), String>)
        ensures
            old(self).sent() ==> (*final(self) == *old(self) && (r matches Err(e) && e@
                == headers_sent_message())),
            !old(self).sent() ==> r is Ok && final(self).same_but_response_headers(*old(self))
                && final(self).response_header_map()@ == old(self).response_header_map()@.insert(
                lowercase(key@),
                final(self).response_header_map()@[lowercase(key@)],
            ) && final(self).response_header_map()@[lowercase(key@)]@ == (
            if old(self).response_header_map()@.contains_key(lowercase(key@)) {
                joined_value(old(self).response_header_map()@[lowercase(key@)]@, value@)
            } else {
                value@
            }),
    {
        if self.headers_sent {
            return Err("headers already sent".to_owned());
        }
        let lower = to_lowercase(key);
        let joined = match self.response_headers.get(lower.as_str()) {
            Some(existing) => {
                let mut j = existing.clone();
                j.append(", ");
                j.append(value);
                Some(j)
            },
            None => None,
        };
        match joined {
            Some(j) => {
                self.response_headers.insert(lower, j);
            },
            None => {
                self.response_headers.insert(lower, value.to_owned());
            },
        }
        Ok(())
    }

    /// Sets response trailer `key` (lowercased) to `value`.
    pub fn set_response_trailer(&mut self, key: &str, value: &str)
        ensures
            final(self).same_but_response_trailers(*old(self)),
            final(self).response_trailer_map()@ == old(self).response_trailer_map()@.insert(
                lowercase(key@),
                final(self).response_trailer_map()@[lowercase(key@)],
            ),
            final(self).response_trailer_map()@[lowercase(key@)]@ == value@,
    {
        let lower = to_lowercase(key);
        self.response_trailers.insert(lower, value.to_owned());
    }

    /// Marks the response headers as sent; later changes are refused.
    pub fn mark_headers_sent(&mut self)
        ensures
            final(self).same_but_flags(*old(self)),
            final(self).sent(),
            final(self).is_cancelled_spec() == old(self).is_cancelled_spec(),
    {
        self.headers_sent = true;
    }

    /// Whether the response headers were sent.
    pub fn headers_sent(&self) -> (b: bool)
        ensures
            b == self.sent(),
    {
        self.headers_sent
    }

    /// Whether the request was cancelled.
    pub fn is_cancelled(&self) -> (b: bool)
        ensures
            b == self.is_cancelled_spec(),
    {
        self.cancelled
    }

    /// The response headers set so far.
    pub fn response_header_entries(&self) -> (m: &StrMap<String>)
        ensures
            *m == self.response_header_map(),
    {
        &self.response_headers
    }

    /// The value stored under `id`, if any.
    pub fn value(&self, id: &str) -> (v: Option<&ContextValue>)
        ensures
            match v {
                Some(v) => self.value_map()@.contains_key(id@) && *v == self.value_map()@[id@],
                None => !self.value_map()@.contains_key(id@),
            },
    {
        self.values.get(id)
    }

    /// Stores `v` under `id`, replacing what was stored there.
    pub fn store_value(&mut self, id: String, v: ContextValue)
        ensures
            final(self).same_but_values(*old(self)),
            final(self).value_map()@ == old(self).value_map()@.insert(id@, v),
    {
        self.values.insert(id, v);
    }

    /// Removes what is stored under `id`.
    pub fn remove_value(&mut self, id: &str)
        ensures
            final(self).same_but_values(*old(self)),
            final(self).value_map()@ == old(self).value_map()@.remove(id@),
    {
        self.values.remove(id);
    }

    /// Cancels the request.
    pub fn cleanup(&mut self)
        ensures
            final(self).same_but_flags(*old(self)),
            final(self).is_cancelled_spec(),
            final(self).sent() == old(self).sent(),
    {
        self.cancelled = true;
    }
}

} // verus!
