//! Connect-style RPC framing, error codes, header handling, request
//! contexts and routing decisions, with their contracts proved by Verus.

pub mod text;
pub mod envelope;
pub mod error;
pub mod str_map;
pub mod transport;
pub mod client;
pub mod context;
pub mod context_key;
pub mod router;

pub use error::{Code, SpeconnError};
pub use envelope::{decode_envelope, encode_envelope, FLAG_COMPRESSED, FLAG_END_STREAM};
pub use transport::HttpResponse;
pub use client::{CallOptions, Response, SpeconnClient, StreamResponse};
pub use str_map::StrMap;
pub use router::{Handling, HandleAction, HandleEvent, RouterResponse, SpeconnRequest};
pub use context::SpeconnContext;
pub use context_key::{
    delete_value, get_request_id, get_user, get_value, request_id_key, set_request_id, set_user,
    set_value, user_id_key, user_key, ContextKey, ContextType, ContextValue,
};
