//! Error and result types for a file-based mail transport.
//!
//! The transport persists a message by serializing it to a file, so a send
//! can fail in three ways: the caller violated a precondition, a filesystem
//! operation failed, or the message could not be serialized to JSON. This
//! crate defines the single error type that classifies those failures, keeps
//! each underlying failure object for cause-chain inspection, and the result
//! alias that the send operation returns.

pub mod error;
mod payloads;
