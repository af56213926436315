//! Connectivity core for talking to the Poloniex exchange over REST and
//! WebSocket: interval dictionaries, incremental URL building, HMAC request
//! signing, HTTP retry policy, and the WebSocket keepalive/select decisions.

pub mod auth;
pub mod context;
pub mod decimal;
pub mod download;
pub mod http;
pub mod interval;
pub mod order;
pub mod records;
pub mod rest;
pub mod sorted_vec;
pub mod stream;
pub mod time;
pub mod url;
pub mod utils;
pub mod ws;

