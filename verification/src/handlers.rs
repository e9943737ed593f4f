//! The aggregator and the detectors that consume what it closes.

pub mod candle;
pub mod replay;
pub mod sessions;
pub mod structures;
pub mod trends;
