//! A verified core for a terminal stock-price watcher.
//!
//! The library holds the logic of the tool: parsing quoted prices into a
//! fixed-point representation, formatting prices and deltas for display,
//! the bounded rolling window of recent samples, the running aggregates,
//! the historical baselines, and the poll-loop transition function.
//! Networking, timing and terminal drawing live outside the library and
//! hand it plain values.

pub mod baseline;
pub mod clock;
pub mod digits;
pub mod format;
pub mod metrics;
pub mod poll;
pub mod render;
pub mod price;
pub mod quote;
pub mod ticker;
pub mod structs;
pub mod window;
