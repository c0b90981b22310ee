//! Core of a small query-execution service: a JSON value model, a relational
//! value model, the codec between them, the discrimination of incoming
//! requests, the decision logic of the executor, and the error reporter.
//!
//! All I/O (the HTTP surface and the connection to the store) lives outside
//! this crate; the functions here work on plain values and carry contracts.

pub mod codec;
pub mod encoding;
pub mod executor;
pub mod relational;
pub mod report;
pub mod request;
pub mod value;
