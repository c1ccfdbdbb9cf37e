//! Analysis of G1 garbage-collector logs for humongous object allocations.
//!
//! A log line that records a humongous allocation request is recognised by
//! plain substring search, its byte count is sorted into one of six fixed
//! size buckets, and every counted size is added to a running distribution
//! from which the extremes and a few percentiles are read at the end.

pub mod arguments;
pub mod bucket;
pub mod distribution;
pub mod matcher;
pub mod numeral;
pub mod pattern;
pub mod region;
pub mod report;
pub mod scanner;
pub mod search;
