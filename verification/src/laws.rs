//! What holds of the aggregator and the detectors on every input.

pub mod aggregation;
pub mod gaps;
pub mod pipeline;
pub mod replay;
pub mod sessions;
pub mod trends;
