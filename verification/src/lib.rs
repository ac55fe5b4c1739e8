//! Core logic of a thread-per-core actor runtime: shard identities,
//! scheduler backoff, signal delivery, shard topology and shard-bound
//! ownership wrappers.

pub mod shard;
pub mod backoff;
pub mod select;
pub mod signals;
pub mod translator;
pub mod mono;
pub mod collections;
pub mod foreign;
pub mod topology;
pub mod actor;
pub mod task;
pub mod io;
pub mod routing;
pub mod sharded;
pub mod scheduler;
pub mod heap;
pub mod config;
pub mod slots;
pub mod sharded_slab;
pub mod bridge;
