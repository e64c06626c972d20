//! Shapes of the HTTP surface that the core owns: the response envelope,
//! the server configuration, and the application state shared by all
//! request handlers. Binding a listener, routing, and serving are the
//! surrounding program's concern.

use vstd::prelude::*;

use crate::service::UserServiceTrait;

verus! {

/// Generic response structure shared by all API responses.
#[derive(Debug, Clone, PartialEq, Eq)]
pub struct ResponseBody<T> {
    pub status_code: u16,
    pub data: T,
}

/// The response data format for all error responses.
#[derive(Debug, Clone, PartialEq, Eq)]
pub struct ErrorResponseData {
    pub message: String,
}

/// Configuration for the HTTP server.
#[derive(Debug, Clone, PartialEq, Eq)]
pub struct HttpServerConfig<'a> {
    pub port: &'a str,
}

/// The global application state shared between all request handlers:
/// a single long-lived handle to the application service, immutable after
/// server start.
pub struct AppState<S: UserServiceTrait> {
    pub user_service: S,
}

} // verus!
