//! The response the endpoint returns for one request: a status code, an
//! optional content type, and a text body.

use vstd::prelude::*;
use crate::exposition::text_format;

verus! {

/// What the endpoint answers to one request.
pub struct HttpResponse {
    /// The HTTP status code.
    pub status: u16,
    /// The `Content-Type` header value, where one is set.
    pub content_type: Option<String>,
    /// The response body.
    pub body: String,
}

/// The successful metrics answer: status 200, the encoder's declared
/// format as content type, and the given text as body.
pub open spec fn is_metrics_ok(r: HttpResponse, body: Seq<char>) -> bool {
    &&& r.status == 200
    &&& r.content_type matches Some(ct) && ct@ == text_format()
    &&& r.body@ == body
}

/// The answer to any request outside the metrics route: status 404 with a
/// plain `Not Found` body and no content type.
pub open spec fn is_not_found(r: HttpResponse) -> bool {
    &&& r.status == 404
    &&& r.content_type is None
    &&& r.body@ == "Not Found"@
}

/// The answer when a snapshot could not be encoded: status 500 with a
/// plain body and no content type.
pub open spec fn is_internal_error(r: HttpResponse) -> bool {
    &&& r.status == 500
    &&& r.content_type is None
    &&& r.body@ == "Internal Server Error"@
}

} // verus!
