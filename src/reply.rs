use vstd::prelude::*;

verus! {

/// The payload of a successful reply from the login endpoint.
#[derive(Debug)]
pub struct ApiCredentials {
    pub token: String,
}

/// The payload of a refused login: an application-level code and message.
#[derive(Debug)]
pub struct ApiError {
    pub code: i32,
    pub message: String,
}

/// The two shapes a login reply may take: `{"success": ..}` or `{"error": ..}`.
#[derive(Debug)]
pub enum ApiResponse {
    Success(ApiCredentials),
    Error(ApiError),
}

/// The one kind of failure a login reports: the exchange with the server did
/// not complete, or its reply could not be read in the expected shape.
#[derive(Debug)]
pub enum TransportError {
    /// No response came back (name resolution, connection or TLS failure).
    Connection(String),
    /// A response came back, but its body is not a login reply.
    Decode(String),
}

} // verus!
