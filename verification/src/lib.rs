//! Order-matching and settlement core of a peer-to-peer digital-asset
//! marketplace: sellers list an asset for a fixed price or as an auction,
//! buyers place escrowed payments, and a completed sale atomically pays the
//! seller (optionally splitting a royalty share) and transfers the asset.
//!
//! The library is the pure state machine: every operation takes the current
//! market state and plain values describing the inbound message, and returns
//! the mutated state together with the outbound instructions that the hosting
//! ledger must execute atomically. All host concerns (message decoding,
//! storage, address validation, queries) live outside the library.

pub mod error;
pub mod execute;
pub mod helpers;
pub mod laws;
pub mod msg;
pub mod state;
pub mod store;
pub mod sudo;
