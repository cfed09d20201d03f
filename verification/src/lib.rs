//! A bounded cache of per-peer outbound workers with least-recently-used
//! eviction, back-pressure aware delivery and a graceful shutdown protocol.
//!
//! The library takes every decision and never waits: where a worker has to be
//! awaited, it hands out what is to be awaited and takes the outcome back.
//!
//! - [`cache`] holds the cache itself, [`worker`] the workers in it and on
//!   their way out, [`error`] the failures, [`batch`] the unit of work.
//! - [`recency`] is the model of the bounded map as a sequence ordered by
//!   recency, and [`history`] shows that this order is the order of last use.
//! - [`store`] and [`runtime`] state what is taken on trust of the `lru`,
//!   `tokio` and `tokio-util` crates.

pub mod batch;
pub mod cache;
pub mod error;
pub mod history;
pub mod recency;
pub mod runtime;
pub mod store;
pub mod worker;
mod worker_map;

pub use batch::TransactionBatch;
pub use cache::WorkersCache;
pub use error::{TrySendFailure, WorkersCacheError};
pub use store::MAX_CAPACITY;
pub use worker::{maybe_shutdown_worker, PeerKey, ShutdownWorker, WorkerInfo};
