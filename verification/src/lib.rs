//! A typed client core for a vendor transaction-feed HTTP API.
//!
//! The crate holds the verified core of the client: translating filter
//! parameters into query pairs, deciding retries with bounded exponential
//! backoff, and decoding a heterogeneous JSON feed into a closed set of
//! typed transaction variants by ordered structural matching.

pub mod json;
pub mod fields;
pub mod models;
pub mod decode;
pub mod encode;
pub mod roundtrip;
pub mod error;
pub mod response;
pub mod retry;
pub mod constants;
pub mod api;

pub use api::CieloApi;
pub use error::Error;
