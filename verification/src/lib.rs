//! Detection of multi-candle price patterns over a bounded window of the
//! most recent candles.

pub mod candle;
pub mod candle_stream;
pub mod laws;
pub mod pattern_laws;
pub mod patterns;
pub mod scaling;

pub use candle_stream::CandleStream;
