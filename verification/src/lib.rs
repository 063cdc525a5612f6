//! A client core that prepares, signs and encodes transactions for an
//! Ethereum-compatible chain, and classifies their on-chain outcome.
//!
//! The chain itself is an external service: every network query (confirmed
//! transaction count, fee quotes, gas estimates, broadcast, receipt) is
//! modelled as a query value that a driver performs and answers.  The
//! decisions — which query comes next, how its answer is folded into the
//! transaction, how a receipt is classified — live here and are verified.
pub mod abi;
pub mod approve;
pub mod client;
pub mod config;
pub mod envelope;
pub mod error;
pub mod kiloex;
pub mod prepare;
pub mod primitives;
pub mod rlp;
pub mod submit;
pub mod textfmt;
pub mod token;
pub mod tx;
pub mod utils;
