//! A ticketed raffle: participants buy numbered tickets during a sale
//! window, a winner is chosen by a commit-reveal randomness procedure after
//! the window closes, and the winner claims a prize exactly once.
//!
//! This crate holds the raffle state machine itself: ticket accounting, the
//! two-phase randomness commit/reveal protocol, deterministic winner
//! selection, and single-claim prize settlement. External collaborators —
//! the clock, the randomness oracle, and the asset registrar that mints
//! ticket and prize units — are consumed at their interface boundary as
//! plain values; the host that wires them up lives outside this crate.

pub mod errors;
pub mod raffle;
pub mod tickets;
pub mod randomness;
pub mod winner;
pub mod claim;
pub mod laws;
