//! A two-party, commitment-based rock-paper-scissors ("blend") match engine.
//!
//! Each participant commits to a sequence of three round-choices by
//! submitting a fingerprint: the hash of a secret token from a fixed catalog,
//! mixed with the submitter's identity. A later submission triggers
//! resolution, at which point both fingerprints are mapped back to their
//! underlying choice sequences and the match outcome is computed.
//!
//! The crate is organised leaf-first:
//! - [`scoring`]: choices, blend sequences, and the three-round scorer;
//! - [`catalog`]: the fixed table of secret tokens and their sequences;
//! - [`fingerprint`]: the per-identity fingerprinting scheme and the
//!   reverse lookup from a fingerprint to a blend sequence;
//! - [`matchup`]: the match resolver that turns two fingerprints into an
//!   outcome;
//! - [`ledger`]: the move lifecycle (open, cancel, challenge) over a set of
//!   move records.

pub mod catalog;
pub mod fingerprint;
pub mod ledger;
pub mod matchup;
pub mod scoring;
