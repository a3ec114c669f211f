//! An embedded document-search service: a tantivy-backed index of searchable
//! documents behind a hand-rolled JSON-RPC 2.0 dispatcher.
//!
//! `search` owns the index: schema, document indexing with commit semantics,
//! and ranked query execution. `rpc` decodes JSON-RPC envelopes, routes the
//! three supported methods, and serialises conformant success and error
//! responses. `chars` holds the verified character-sequence plumbing that the
//! response serialiser is built on.

pub mod chars;
pub mod rpc;
pub mod search;
