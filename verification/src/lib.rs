//! Client library for an exchange's test-trading REST and WebSocket APIs.
//!
//! The crate covers two pieces: the request-signing discipline demanded by
//! the exchange's authentication scheme (a canonical, lexicographically
//! sorted query string, authenticated with HMAC-SHA256 and hex-encoded),
//! and the decoding of the public ticker stream into typed market events.
//! All request construction and frame decoding is verified; the network
//! itself is driven by a thin unverified shell around this library.

pub mod json;
pub mod market_data;
pub mod strutil;
pub mod trading;
