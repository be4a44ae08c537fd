//! Verified core of a blob indexer: per-slot reconciliation of consensus- and
//! execution-layer views of blob-carrying blocks, entity construction, the
//! request/response envelope protocol used towards the indexing backend, and
//! the retry discipline around one slot attempt.

pub mod data;
pub mod events;
pub mod reconcile;
pub mod entities;
pub mod envelope;
pub mod engine;
pub mod retry;
