//! REST side of the exchange connection.

pub mod candles;
pub mod intervals;
