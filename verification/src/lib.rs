//! On-chain core of a cross-chain asset bridge: a signature-gated
//! action-consumption protocol.
//!
//! An off-chain validator quorum signs canonically encoded action payloads
//! with a shared group key. The contracts here verify those signatures over
//! a domain-separated hash, consume each 128-bit action id at most once,
//! and drive the multi-step freeze / withdraw / mint / unfreeze pipelines
//! as explicit continuation steps, with compensating rollbacks when a
//! downstream call fails. A sibling oracle contract maintains per-chain
//! price, decimal and fee tables under the same gate and estimates relayer
//! fees.

pub mod actions;
pub mod bridge;
pub mod codec;
pub mod crypto;
pub mod events;
pub mod ledger;
pub mod oracle;
pub mod table;
pub mod wide;
