//! Connecting to the coordinator.

use vstd::prelude::*;

verus! {

/// A request of the `http` crate without a body.
#[verifier::external_type_specification]
#[verifier::external_body]
#[verifier::reject_recursive_types(T)]
pub struct ExRequest<T>(http::Request<T>);

/// An error of the `http` crate.
#[verifier::external_type_specification]
#[verifier::external_body]
pub struct ExHttpError(http::Error);

/// The request that the builder of the `http` crate makes of a URI and nothing
/// else, or `None` where it does not take the text for a URI.
pub uninterp spec fn request_to(endpoint: Seq<char>) -> Option<http::Request<()>>;

/// Calls `http::Request::builder`, gives it a URI and an empty body. Trusted: what
/// it makes, and whether it makes anything, depends on the text of the URI alone.
#[verifier::external_body]
fn build_request(endpoint: &str) -> (r: Result<http::Request<()>, http::Error>)
    ensures
        match r {
            Ok(request) => request_to(endpoint@) == Some(request),
            Err(_) => request_to(endpoint@) is None,
        },
{
    http::Request::builder().uri(endpoint).body(())
}

/// The request that opens the connection to the coordinator, or `None` where
/// `endpoint` is not a URI.
pub fn connect_to_coordinator(endpoint: &str) -> (r: Option<http::Request<()>>)
    ensures
        r == request_to(endpoint@),
{
    match build_request(endpoint) {
        Ok(request) => Some(request),
        Err(_) => None,
    }
}

} // verus!
