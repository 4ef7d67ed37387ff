//! A transport-agnostic tool bridge: servers expose named, schema-typed
//! tools; clients call a tool by name with an untyped argument object; the
//! bridge validates the arguments against the tool's schema, prepares the
//! downstream call the handler needs, and maps every outcome — success or
//! any failure — into the protocol's result envelope.
//!
//! The bridge itself is pure logic over plain values. Transports (child
//! process pipes, persistent streams, streaming HTTP) and the downstream
//! HTTP round trips live outside the library and hand it plain values.

pub mod adapter;
pub mod config;
pub mod dispatch;
pub mod elastic;
pub mod envelope;
pub mod error;
pub mod github;
pub mod json;
pub mod kwsearch;
pub mod schema;
pub mod tidb;
