//! A precise object-graph scanner for a tracing garbage collector.
//!
//! Given a model of a managed object and its runtime type descriptor, the
//! scanner enumerates every reference-valued slot ("edge") in that object and
//! pushes each slot's address to a caller-supplied edge visitor.  Weak-style
//! reference instances may instead have their referent routed to a deferral
//! list, under a runtime-wide policy flag.  An alignment-encoding fast path
//! decodes a layout pattern from the spare low bits of the type descriptor's
//! address and, for a closed catalogue of common layouts, skips the
//! metadata-table walk entirely.

pub mod abi;
pub mod edges;
pub mod encoding;
pub mod props;
pub mod scanning;
pub mod sink;
