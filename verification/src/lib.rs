//! Client-side core for a small image/utility REST API: parameter
//! normalization, percent-encoded query-string construction, the endpoint
//! catalog, and response-shape checking.
//!
//! Network transport lives outside this crate; every function here is pure
//! computation over plain values, specified and verified.

pub mod client;
pub mod encode;
pub mod icons;
pub mod normalize;
pub mod numfmt;
pub mod query;
pub mod response;
pub mod text;
