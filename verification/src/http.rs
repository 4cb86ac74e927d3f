//! Requests, and the heads of answers, carried between the client and the file
//! service.
use hyper::http::response::Parts;
use hyper::Request;
use vstd::prelude::*;

verus! {

/// `hyper::http::response::Parts`: the head of an answer, that is its status,
/// version, headers and extensions. Nothing here looks inside one.
#[verifier::external_type_specification]
#[verifier::external_body]
pub struct ExParts(Parts);

/// `hyper::Request`: a request with its body. Nothing here looks inside one.
#[verifier::external_type_specification]
#[verifier::external_body]
#[verifier::reject_recursive_types(T)]
pub struct ExRequest<T>(Request<T>);

} // verus!
