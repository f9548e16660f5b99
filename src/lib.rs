//! Request admission for a multi-tenant API: bearer-token authentication
//! against a provider's signing keys, permission checks, and per-client
//! token-bucket rate limiting.

pub mod clock;
pub mod token_bucket;
pub mod error;
pub mod json;
pub mod auth0;
pub mod auth;
pub mod identity;
pub mod ratelimit;
pub mod config;
