//! The response shapes the core manufactures itself. Everything else comes
//! from registered handlers and passes through the transport layer verbatim.

use vstd::prelude::*;

verus! {

/// A response handed back to the transport layer: a numeric status, a
/// human-readable message, and an optional structured payload. The payload
/// is opaque to the core; absence is explicit (`None`), never omitted.
pub struct CustomResponse {
    pub status: u16,
    pub message: String,
    pub data: Option<serde_json::Value>,
}

/// The built-in response for a request whose (path, method) pair is not
/// registered.
pub open spec fn is_not_found_response(r: CustomResponse) -> bool {
    &&& r.status == 404
    &&& r.message@ == "Endpoint not found"@
    &&& r.data is None
}

/// The built-in response for a request denied by the rate limiter, or for a
/// gated request without a resolvable credential (denied fail-closed).
pub open spec fn is_rate_limited_response(r: CustomResponse) -> bool {
    &&& r.status == 429
    &&& r.message@ == "Rate limit exceeded"@
    &&& r.data is None
}

impl CustomResponse {
    /// A response with exactly the given fields.
    pub fn new(status: u16, message: String, data: Option<serde_json::Value>) -> (r: Self)
        ensures
            r.status == status,
            r.message == message,
            r.data == data,
    {
        CustomResponse { status, message, data }
    }

    /// The built-in not-found response: status 404, message
    /// "Endpoint not found", and an explicitly absent payload.
    pub fn not_found() -> (r: Self)
        ensures
            is_not_found_response(r),
    {
        CustomResponse::new(404, "Endpoint not found".to_owned(), None)
    }

    /// The built-in rate-limited response: status 429, message
    /// "Rate limit exceeded", and an explicitly absent payload.
    pub fn rate_limited() -> (r: Self)
        ensures
            is_rate_limited_response(r),
    {
        CustomResponse::new(429, "Rate limit exceeded".to_owned(), None)
    }
}

} // verus!
