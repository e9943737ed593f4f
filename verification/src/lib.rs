//! Candle roll-up and market-structure detection.
//!
//! Base candles are folded into coarser buckets, one accumulator per
//! (symbol, timerange) key. Each candle that closes is handed to two detectors
//! that share the key: a three-candle fair-value-gap window, and the trend
//! automaton that reports breaks of structure and changes of character.
//!
//! Prices are integers in the instrument's smallest price step, volumes are
//! unsigned integers and instants are milliseconds since the Unix epoch.
//!
//! - [`entities`] holds the plain data: candles, timeranges, trends,
//!   structures, sessions and the events handed to the sinks.
//! - [`handlers`] holds the aggregator, the detectors and the session
//!   tracker, each as functions from a state and a candle to the next state
//!   and what it raises, and as functions on a [`Store`].
//! - [`state`] holds what is kept for one key, [`store`] the states of all
//!   keys.
//! - [`laws`] states what holds on every input.
//!
//! Nothing here performs input or output: a function that takes a candle
//! returns the [`Event`]s that are to be persisted and published, in their
//! order.

pub mod entities;
pub mod handlers;
pub mod laws;
pub mod state;
pub mod store;
pub mod utils;

pub use entities::candle::{get_direction, Candle, Direction};
pub use entities::event::Event;
pub use entities::session::{sessions, ReferenceSession, Session};
pub use entities::structures::{OneDKind, OneDStructures, TwoDKind, TwoDStructures};
pub use entities::timerange::{timeranges, Timerange};
pub use entities::trend::{Subtrend, Trend, TrendState};
pub use state::KeyState;
pub use store::Store;
