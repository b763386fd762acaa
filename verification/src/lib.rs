//! Incremental feed fetcher: a watermark-based change detector over timestamped
//! feed items, a regex title filter, filename selection with collision
//! avoidance, a bounded-concurrency download scheduler, and the polling state
//! machine that ties one cycle together.

pub mod config;
pub mod detect;
pub mod download;
pub mod feed;
pub mod filter;
pub mod poll;
pub mod sched;
pub mod text;
pub mod timestamp;
pub mod watermark;
