//! Two-step login against a business-management web application: a session
//! is first opened at the single-sign-on portal, then exchanged at the
//! application's `/login` endpoint for an API token.
//!
//! The library decides what each request carries and what each reply does to
//! the client's state; sending the requests is left to the caller.
mod client;
mod reply;
mod request;

pub use client::{
    json_string_of, login_body, Client, ClientView, SSO_ORIGIN, SSO_REFERER, SSO_URL,
    SSO_USER_AGENT,
};
pub use reply::{ApiCredentials, ApiError, ApiResponse, TransportError};
pub use request::{pairs_view, HttpRequest, RequestBody};
