//! Candlestick chart pipeline: validation of a provider's price-bar series,
//! axis-label thinning, price-axis bounds and candle colouring.
pub mod candles;
pub mod chart;
pub mod error;
pub mod fetch;
pub mod labels;
pub mod range;
pub mod series;
