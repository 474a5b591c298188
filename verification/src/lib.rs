//! A verified traversal engine for schema-definition-language documents.
//!
//! A [`schema::Document`] is an ordered tree of type definitions, each
//! owning its members in declaration order. [`traversal::traverse`] walks
//! it depth-two — every type definition, then every member — dispatching
//! one observer callback per node kind and threading a caller-supplied
//! mutable context through the whole walk. The engine's contract pins the
//! final context to a spec-level fold over the document's event sequence
//! ([`events::doc_events`]), from which determinism, order preservation,
//! completeness and kind routing are proved. [`collector`] is an example
//! observer that records the visited names per node kind.

pub mod schema;
pub mod events;
pub mod traversal;
pub mod collector;
