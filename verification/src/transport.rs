//! What a transport hands back for one HTTP request.

use vstd::prelude::*;

verus! {

/// An HTTP response: status, header pairs in the order received, and body.
pub struct HttpResponse {
    pub status: u16,
    pub headers: Vec<(String, String)>,
    pub body: Vec<u8>,
}

} // verus!
