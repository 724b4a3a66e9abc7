//! Asynchronous dispatch and arena allocation for batches of 64-bit
//! keyed-hash jobs on a shared compute device.
//!
//! The crate has two halves. `hashsum64` computes the fixed-width digest sum
//! of a batch directly, calling the keyed hash primitive; `device` and `job`
//! model the device side: a context owning a shared capacity pool, arenas
//! that reserve from it, and the single-submission job state machine that
//! bridges a fire-once completion callback into a pollable result.

pub mod device;
pub mod hashsum64;
pub mod job;
pub mod wide;

pub use device::{Deluge, Highway};
pub use job::{HighwayHashSum, HighwayHashSumState, JobPoll};
pub use wide::be_nat;
pub use wide::u64_be;
