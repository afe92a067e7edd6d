//! A verified name-to-address registry: short human-readable names are mapped
//! to owner-controlled 32-byte addresses, with registration fees, cooldown-gated
//! address rotation and renaming, and a two-step administrator handoff.
//!
//! The library is the transactional core alone: every operation validates all
//! of its preconditions over plain record values and either fails with no
//! effect or returns the complete set of new record values. Reading records
//! from their byte buffers, writing them back, moving the fee payment and
//! reading the clock are the hosting environment's work; the host hands this
//! library the decoded records, the caller's address and the current time.

pub mod error;
pub mod state;
pub mod validation;
pub mod instruction;
pub mod processor;
pub mod laws;
