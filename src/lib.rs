//! Authorization and throttling core of a minting controller.
//!
//! A minting authority may issue units of one asset only within a token-bucket
//! rate limit, only to allow-listed destinations, and under a policy whose
//! administration is handed over in two phases.

pub mod pubkey;
pub mod rate_limit;
pub mod state;
pub mod units;
pub mod instructions;
pub mod laws;
