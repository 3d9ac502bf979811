//! API keys and authentication tokens.

use vstd::prelude::*;

verus! {

/// An API key as listed by the authentication endpoints.
#[derive(Debug, Clone)]
pub struct ApiKey {
    pub api_key_index: Option<i64>,
    pub public_key: Option<String>,
}

/// An authentication token.
#[derive(Debug, Clone)]
pub struct ApiToken {
    pub code: i64,
    pub message: Option<String>,
    pub token: Option<String>,
}

} // verus!
