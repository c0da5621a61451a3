//! Measurement core of a GPU capture-overhead benchmark.
//!
//! The crate models the engine that compares two screen-capture mechanisms
//! against a no-capture baseline: a periodic sampling session polls
//! per-adapter GPU utilization counters on a fixed cadence for a bounded
//! duration, a tracker bundle fans one measurement request out to one counter
//! source per adapter and collects the per-tick values, and a capture-sink
//! lifecycle counts the frames a backend produced between `start` and `stop`.
//! Utilization values are carried as integer hundredths of a percent; the
//! process that talks to the operating system converts to and from that
//! fixed-point form at its edge.

pub mod config;
pub mod counter;
pub mod errors;
pub mod event;
pub mod names;
pub mod report;
pub mod samples;
pub mod session;
pub mod sink;
pub mod tracker;
