//! Client library for a rate-limited, key-authenticated HTTP API that
//! serves hierarchical reference data (prefectures and their cities).
//!
//! The heart of the library is the request client: classification of
//! transport failures, HTTP error statuses and application-level status
//! codes embedded in otherwise successful response bodies into a typed
//! error taxonomy, and the decision logic of a bounded fixed-interval
//! retry loop.

pub mod client;
pub mod error;
pub mod http;
pub mod json;
pub mod schema;
pub mod text;
