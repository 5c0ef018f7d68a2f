//! Provably-fair dice: an ed25519 signature-instruction parser, the check of
//! a revealed signature against a bet, and the derivation of roll and payout.
pub mod bet;
pub mod contexts;
pub mod ed25519;
pub mod error;
pub mod outcome;
pub mod sysvar;
pub mod verify;
