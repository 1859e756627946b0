//! Latency highlighting for line-oriented output.
//!
//! Lines are recorded with the instant at which each arrived. The gap
//! between one line and the one before it is its latency; the largest gap
//! of a run scales every latency to a red intensity, and fixes the width of
//! the column in which the latencies are printed.

pub mod time;
pub mod lines;
pub mod text;
pub mod unit;
pub mod analysis;
pub mod config;
pub mod highlight;
pub mod render;
