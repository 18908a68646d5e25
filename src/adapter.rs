//! Handing one inbound request to the user's handler.
//!
//! Both transports end here: the local server once it has buffered the whole
//! request body, and the Lambda runtime client once it has the invocation's
//! event and context. The handler sees the request head unchanged and the body
//! as one contiguous byte slice, and its response goes back to the transport.
use vstd::prelude::*;

verus! {

#[verifier::external_type_specification]
#[verifier::external_body]
#[verifier::reject_recursive_types(T)]
pub struct ExRequest<T>(http::Request<T>);

#[verifier::external_type_specification]
#[verifier::external_body]
#[verifier::reject_recursive_types(T)]
pub struct ExResponse<T>(http::Response<T>);

#[verifier::external_type_specification]
#[verifier::external_body]
pub struct ExParts(http::request::Parts);

/// Relies on http::Request::from_parts, which joins a request head and a body
/// into a request.
pub assume_specification<T>[ http::Request::<T>::from_parts ](
    parts: http::request::Parts,
    body: T,
) -> http::Request<T>;

/// Relies on http::Extensions::insert: stores `context` in the request head's
/// extensions, keyed by its type, replacing any value of that type.
#[verifier::external_body]
fn insert_extension<C: Send + Sync + 'static>(parts: &mut http::request::Parts, context: C) {
    parts.extensions.insert(context);
}

/// Calls `handler` once, on the request made of `parts` and the buffered
/// `body`, and returns its response.
pub fn respond<'a, F>(handler: &F, parts: http::request::Parts, body: &'a [u8]) -> (r:
    http::Response<Vec<u8>>) where F: Fn(http::Request<&'a [u8]>) -> http::Response<Vec<u8>>
    requires
        forall|req: http::Request<&'a [u8]>| handler.requires((req,)),
    ensures
        exists|req: http::Request<&'a [u8]>| handler.ensures((req,), r),
{
    let request = http::Request::from_parts(parts, body);
    handler(request)
}

/// Attaches the invocation `context` to the request head as an extension,
/// then calls `handler` once on the request made of that head and `body`, and
/// returns its response.
pub fn respond_with_context<'a, F, C: Send + Sync + 'static>(
    handler: &F,
    parts: http::request::Parts,
    body: &'a [u8],
    context: C,
) -> (r: http::Response<Vec<u8>>) where
    F: Fn(http::Request<&'a [u8]>) -> http::Response<Vec<u8>>,

    requires
        forall|req: http::Request<&'a [u8]>| handler.requires((req,)),
    ensures
        exists|req: http::Request<&'a [u8]>| handler.ensures((req,), r),
{
    let mut parts = parts;
    insert_extension(&mut parts, context);
    respond(handler, parts, body)
}

} // verus!
