//! Request correlation ids: an incoming `X-Request-Id` is kept, otherwise a
//! fresh UUID is assigned.
use vstd::prelude::*;

verus! {

/// Header name of the request correlation id.
pub const REQUEST_ID_HEADER: &'static str = "x-request-id";

/// The correlation id of one request.
pub struct RequestId(pub String);

/// The text of a hyphenated UUID: 36 characters, hyphens at 8, 13, 18, 23.
pub open spec fn hyphenated_uuid_shape(t: Seq<char>) -> bool {
    &&& t.len() == 36
    &&& t[8] == '-'
    &&& t[13] == '-'
    &&& t[18] == '-'
    &&& t[23] == '-'
}

/// `uuid::Uuid::new_v4().to_string()`: a random version-4 UUID in the
/// hyphenated form that `Display` writes. Only its shape is stated; the
/// value is random.
#[verifier::external_body]
fn fresh_uuid_text() -> (r: String)
    ensures
        hyphenated_uuid_shape(r@),
{
    uuid::Uuid::new_v4().to_string()
}

/// The id of a request: the incoming header value when there is one,
/// otherwise a fresh random UUID.
pub fn assign_request_id(incoming: Option<String>) -> (r: RequestId)
    ensures
        match incoming {
            Some(h) => r.0@ == h@,
            None => hyphenated_uuid_shape(r.0@),
        },
{
    match incoming {
        Some(h) => RequestId(h),
        None => RequestId(fresh_uuid_text()),
    }
}

} // verus!
