//! Storable record types shared across feeds.

pub mod recent_trade;
