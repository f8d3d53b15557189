//! Normalizes trade feeds of cryptocurrency exchanges into one canonical trade
//! schema, with the decisions of each connection session and of the reconnect
//! loop written as verified state machines.

pub mod backoff;
pub mod binance;
pub mod json;
pub mod kraken;
pub mod publish;
pub mod session;
pub mod text;
pub mod types;
