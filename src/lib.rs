//! Transport and session layer of a JSON-RPC tool server: message codec,
//! stdio session, authentication, streaming-connection lifecycle, input
//! validation and health/metrics monitoring.

pub mod analysis;
pub mod auth;
pub mod codec;
pub mod config;
pub mod health;
pub mod json;
pub mod metrics;
pub mod protocol;
pub mod sanitize;
pub mod security;
pub mod sse;
pub mod stdio;
pub mod text;
pub mod tools;
pub mod transport;
pub mod validation;
pub mod window;
