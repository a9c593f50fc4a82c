//! The messages that the client and the server exchange.

use vstd::prelude::*;

verus! {

/// What the client posts to the login endpoint.
#[derive(Debug)]
pub struct LoginRequest {
    pub username: String,
    pub password: String,
}

/// The server's answer to a login request.
#[derive(Debug)]
pub struct LoginResponse {
    pub token: String,
    pub success: bool,
    pub msg: Option<String>,
}

/// The body of an error status.
#[derive(Debug)]
pub struct ErrorResponse {
    pub error: String,
}

/// The query of the socket endpoint: the session token.
#[derive(Debug)]
pub struct WsQuery {
    pub token: String,
}

} // verus!
