//! Request/response normalization core of an edge request adapter: it turns an
//! inbound HTTP request into a single call against a PDF-generation API and
//! maps every failure mode to a well-formed HTTP response.

pub mod adapter;
pub mod body;
pub mod headers;
pub mod json;
pub mod payload;
pub mod response;
pub mod settings;
