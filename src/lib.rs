//! Incremental image indexing and federated search over per-folder shard stores.
pub mod text;
pub mod search;
pub mod scan;
pub mod freshness;
pub mod batch;
pub mod model;
pub mod registry;
pub mod extract;
pub mod query;
pub mod config;
