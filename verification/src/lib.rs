//! Verified core of the Polokol chain.
//!
//! The chain runs privacy-preserving elections: an election is created,
//! voters are registered, onion-encrypted ballots are collected, the
//! off-ledger mix is committed to, and a tally finalizes the election.
//! Mixing itself happens elsewhere; the ledger tracks it as jobs whose
//! status follows a fixed lattice.
//!
//! The election pallet ([`daomix_voting`]) and the job tracker
//! ([`mix_job`]) are each given three times over, from the abstract to the
//! concrete:
//!
//! - a state machine on mathematical maps and sets (`model`), of which the
//!   laws are proved (`laws`);
//! - the decision behind each call as a function on plain values (`rules`),
//!   for callers that keep the state somewhere else;
//! - the pallet with its storage (`pallet`), whose every call is proved to
//!   take the step that the state machine describes.
//!
//! The DAO counters ([`dao_voting`]) and the mix node directory
//! ([`mixnet_registry`]) follow the same plan on a smaller scale.
//!
//! The caller's identity and the current block are arguments of every call:
//! authentication and the clock belong to the ledger. An accepted call
//! returns the event to emit.

pub mod bounded;
pub mod constants;
pub mod dao_voting;
pub mod daomix_voting;
pub mod mix_job;
pub mod mixnet_registry;
pub mod primitives;
pub mod xcm_filter;
