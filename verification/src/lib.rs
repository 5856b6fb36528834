//! Orchestration core for a three-party secure "Monty Hall" computation.
//!
//! Three mutually-distrusting party-nodes each hold a secret share of the
//! game state.  This crate holds the verified orchestration layer: the
//! coordinator that fans one logical step out to all three parties and
//! accepts a result only on unanimous agreement of the public outputs, the
//! per-party mailbox that serializes traffic to one remote party, the
//! node-side protocol state machine that sequences sampling, game
//! initialization and door reveal, the single-row persistence of
//! secret-share state between steps, and the process-wide key derivation.
//! The cryptographic engine itself and all transport plumbing stay outside,
//! behind narrow interfaces.

pub mod coordinator;
pub mod crypto;
pub mod data;
pub mod error;
pub mod mailbox;
pub mod node;
pub mod store;
