//! Request-dispatch core: an ordered route registry guarded by access-control
//! tags, combined with a per-credential fixed-window rate limiter.
//!
//! External bootstrap code registers routes once at startup; the transport
//! layer then resolves each incoming request through [`manager::EndpointManager`],
//! which applies the rate limiter on policy-gated routes and hands back either
//! a built-in not-found / rate-limited response or the handler to invoke.

pub mod credential;
pub mod ext;
pub mod manager;
pub mod response;
pub mod routes;
