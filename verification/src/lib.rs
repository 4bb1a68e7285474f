//! Client-side library for a credential registry on a smart-contract
//! platform: bounded encoding of contract call parameters, construction of
//! domain-separated signed revocation messages, and verification of the
//! public metadata of presented credentials against on-chain state.
//!
//! All chain communication is left to the caller: the functions here build
//! the exact bytes to send and decide on the exact bytes received.

pub mod base;
pub mod bytes;
pub mod codec;
pub mod cis4;
pub mod web3id;
