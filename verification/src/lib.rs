//! Verified core of the DePing monitoring miner: identity handling,
//! configuration resolution, probe bookkeeping and the stream session rules.

pub mod text;
pub mod codec;
pub mod crypto;
pub mod identity;
pub mod config;
pub mod error;
pub mod types;
pub mod engine;
pub mod network;
