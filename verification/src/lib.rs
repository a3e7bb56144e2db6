//! Wormhole Executor for Stellar/Soroban: request-payload encoders, the
//! signed-quote header reader and the checks that decide whether a prepaid
//! delivery request is accepted.

pub mod be;
pub mod error;
pub mod executor;
pub mod host;
pub mod quote;
pub mod requests;
