//! Slate exchange and relay protocol engine for a mobile wallet.
//!
//! The wallet backend, the node client and the relay socket are outside
//! services; this crate holds the decisions taken between their calls.
pub mod error;
pub mod address;
pub mod wait;
pub mod resolve;
pub mod slate;
pub mod exchange;
pub mod listener;
pub mod config;
pub mod funds;
