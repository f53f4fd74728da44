//! Executors that reach a chain through a gateway.

pub mod conclusion;
pub mod interactor;
pub mod nonce;
pub mod proxy;
pub mod query;
pub mod retry;
pub mod simulated;
pub mod transaction;
