//! One producer in a multi-source subdomain reconnaissance pipeline.
//!
//! A source queries a public archive for a target host, reduces the
//! heterogeneous response to a uniform sequence of hostnames, and reports
//! either a non-empty batch (to be delivered on a shared channel) or a typed
//! failure naming the source and the host. This crate holds the verified
//! core of one such source: the query-URL builder, the response decoder and
//! hostname extractor, and the runner's decision logic, stated as a small
//! state machine that a caller drives around its network calls.

pub mod error;
pub mod extract;
pub mod wayback;
