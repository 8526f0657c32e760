//! Batch PNG compression: the verified core.
//!
//! A batch of compression jobs is built from caller-supplied records, divided
//! among a fixed set of workers, and reported complete once every worker has
//! been joined. This crate holds the rules of that pipeline and proves them;
//! running the workers and touching files is left to the caller.
//!
//! - [`job`]: raw records, job descriptors, and the builder between them.
//! - [`config`]: the worker-count hint and how a textual setting is read.
//! - [`partition`]: worker count, chunk size, and which jobs go to which
//!   worker, with the proof that the workers' shares make up the batch.
//! - [`dispatch`]: the dispatcher, which owns a batch and its division and
//!   concludes the run from the way the workers ended.
//! - [`compression`]: the fixed optimiser settings and the outcome of one
//!   file.

pub mod compression;
pub mod config;
pub mod dispatch;
pub mod job;
pub mod partition;
