//! The decisions behind the proxy's chat endpoint.

pub mod handlers;
pub mod types;
