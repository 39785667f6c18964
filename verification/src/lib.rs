//! Structural discrimination and decoding of cloud-function invocation
//! payloads.
//!
//! A payload arrives as one JSON document with no discriminator tag; the
//! upstream services' shapes overlap and differ only in the presence and
//! nesting of a few marker fields. This crate parses the bytes once into a
//! generic tree, probes that tree structurally, selects the first matching
//! variant of a priority-ordered catalog, and decodes the typed value from
//! the same tree.

pub mod dispatch;
pub mod envelope;
pub mod gateway;
pub mod kinesis;
pub mod laws;
pub mod secrets;
pub mod tree;
pub mod trusted;
