//! Response envelopes shared by the REST endpoints.

use vstd::prelude::*;

verus! {

/// A response envelope: a code, an optional message and the payload.
#[derive(Debug, Clone)]
pub struct ApiResponse<T> {
    pub code: i64,
    pub message: Option<String>,
    pub data: T,
}

/// A bare response: a code and an optional message.
#[derive(Debug, Clone)]
pub struct CodeMessage {
    pub code: i64,
    pub message: Option<String>,
}

} // verus!
