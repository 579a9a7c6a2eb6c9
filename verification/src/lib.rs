//! A client library for a time-series database spoken to over HTTP.
//!
//! Batches of measurements are serialized into the database's line-oriented
//! wire format, and authenticated write and query requests are built from a
//! client's connection identity. The HTTP dispatch itself is left to the
//! caller, which hands the transport's outcome back for classification.

pub mod client;
pub mod http;
pub mod line_protocol;
pub mod query;
pub mod url_shape;
