//! Validation and translation boundary between a node's wire-format
//! ledger-event stream and a strongly typed domain model.
//!
//! Wire messages arrive as loosely typed records: optional fields, raw byte
//! buffers, integer-coded enumerations. Each conversion in this crate either
//! produces a fully valid domain entity or rejects the record with a precise
//! error; no partially valid value is ever returned.

pub mod body;
pub mod error;
pub mod ids;
pub mod ledger;
pub mod metadata;
pub mod wire;
