//! The ingestion core of a blockchain indexer: a version range of
//! transactions is decomposed into normalized entities, keyed entities are
//! collapsed to their last value and sorted by key, and all batches are
//! written in one atomic unit with one sanitized retry, while the transaction
//! records go to a sink independently of the write.
pub mod batches;
pub mod chunks;
pub mod collapse;
pub mod decompose;
pub mod order;
pub mod processor;
pub mod records;
pub mod text;
pub mod writer;
