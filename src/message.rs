use vstd::prelude::*;

verus! {

/// The request type of the pipeline, opaque here: only the outside crate
/// reads or builds what is inside.
#[verifier::external_type_specification]
#[verifier::external_body]
#[verifier::reject_recursive_types(T)]
pub struct ExRequest<T>(hyper::Request<T>);

/// The response type of the pipeline, opaque here.
#[verifier::external_type_specification]
#[verifier::external_body]
#[verifier::reject_recursive_types(T)]
pub struct ExResponse<T>(hyper::Response<T>);

/// The body carried by requests and responses, opaque here.
#[verifier::external_type_specification]
#[verifier::external_body]
pub struct ExBody(hyper::Body);

/// The fresh request with an empty body: method GET, URI `/`, no headers.
pub uninterp spec fn empty_request_of(u: ()) -> hyper::Request<hyper::Body>;

/// The default response: status 200, no headers, an empty body.
pub uninterp spec fn default_response_of(u: ()) -> hyper::Response<hyper::Body>;

/// Relies on `Request::new` and `Body::default` (hyper): a fresh request with
/// an empty body, standing in where the incoming request was consumed. It
/// takes no input and builds the same value every time.
#[verifier::external_body]
pub(crate) fn empty_request() -> (r: hyper::Request<hyper::Body>)
    ensures
        r == empty_request_of(()),
{
    hyper::Request::new(hyper::Body::default())
}

/// Relies on `Response::default` (hyper): the response every finished
/// conversion collapses to. It takes no input and builds the same value
/// every time.
#[verifier::external_body]
pub(crate) fn default_response() -> (r: hyper::Response<hyper::Body>)
    ensures
        r == default_response_of(()),
{
    hyper::Response::default()
}

} // verus!
