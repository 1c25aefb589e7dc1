//! A verified per-record transformation stage: each incoming record's value
//! is decoded as a JSON document, run through a jq-style filter compiled once
//! at startup (with the record key bound as a variable), and every document
//! the filter produces becomes an independent output record carrying the
//! original key.
//!
//! The document codec (serde_json) and the filter engine (jaq) are consumed
//! as black boxes behind trusted wrappers; the record transformation loop,
//! the variable-binding builder and the error semantics around them are
//! verified.

pub mod bindings;
pub mod codec;
pub mod engine;
pub mod laws;
pub mod transform;
