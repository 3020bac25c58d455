//! A verified model of an asynchronous read bridge for an embedded
//! key-value storage engine.
//!
//! The centre of the crate is the bridge that issues a key lookup against
//! the store, hands it to a bounded submission queue modelled on a kernel
//! completion-queue facility, and exposes the pending operation as a
//! pollable handle with explicit submission, completion and reap steps.
//! Around it stand the status model shared by every operation and the
//! plain value types of the wider binding layer.

pub mod engine;
pub mod level_region;
pub mod perf;
pub mod rate_limiter;
pub mod reader;
pub mod sst_partitioner;
pub mod status;
pub mod table_properties;
pub mod types;
