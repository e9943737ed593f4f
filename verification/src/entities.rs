//! Plain data shared by the aggregator and the detectors.

pub mod candle;
pub mod event;
pub mod session;
pub mod structures;
pub mod timerange;
pub mod trend;
