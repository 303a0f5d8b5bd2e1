//! The request and response envelopes of the HTTP surface. The glue layer
//! moves them between JSON and these plain structs; what goes into them is
//! decided, and verified, in `crate::handlers`.

use vstd::prelude::*;

verus! {

/// The body of a `POST /put` request.
#[derive(Debug, Clone)]
pub struct PutRequest {
    pub key: String,
    pub value: String,
}

/// The body of a successful `POST /put` response.
#[derive(Debug, Clone)]
pub struct PutResponse {
    pub status: String,
    pub message: String,
}

/// The body of a successful `GET /get` response.
#[derive(Debug, Clone)]
pub struct GetResponse {
    pub status: String,
    pub key: String,
    pub value: String,
    pub message: String,
}

/// The body of an error response.
#[derive(Debug, Clone)]
pub struct ErrorResponse {
    pub status: String,
    pub message: String,
}

} // verus!
