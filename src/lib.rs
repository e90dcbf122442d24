//! A live candlestick dashboard: synthetic tick generation, bounded
//! per-instrument history, chart projection and price formatting, with
//! prices held as fixed-point integers.

pub mod candle;
pub mod chart;
pub mod clock;
pub mod dashboard;
pub mod digits;
pub mod format;
pub mod generator;
pub mod market;
pub mod window;
