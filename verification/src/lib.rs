//! Request authentication against an OpenID Connect identity provider.
//!
//! The crate fetches nothing itself: callers hand in response bodies,
//! headers and the current time, and every decision about freshness,
//! key choice and token validity is made here, under contracts.

pub mod discovery;
pub mod errors;
pub mod gate;
pub mod json;
pub mod keys;
pub mod models;
pub mod request;
pub mod resolve;
pub mod ttl;
pub mod verify;
