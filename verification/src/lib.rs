//! A microbenchmark library for counter-reset strategies: several equivalent
//! ways of sending a counter back to zero once it reaches a threshold, timing
//! loops that sample how long each takes, histogram bins over the samples,
//! and the CSV text that reports them.
//!
//! Clock readings and chart rendering depend on the machine and the moment,
//! so the timing loops promise only the shape of what they collect; the reset
//! rules, the binning, the statistics and the CSV text are specified exactly.

pub mod bins;
pub mod csv;
pub mod cycles;
pub mod stats;
pub mod timing;
