//! Shared runtime state for a multi-tenant federated wiki query service.
//!
//! The library covers the pieces with real engineering weight: a pool of
//! database credentials shared across request handlers, a cached federation
//! map resolving logical wiki identifiers to physical endpoints, a bounded
//! exponential-backoff retry policy for connection establishment, a
//! deduplicating query-string persistence store, and graceful shutdown
//! accounting.

pub mod appstate;
pub mod federation;
pub mod pool;
pub mod retry;
pub mod shutdown;
pub mod store;
