//! Vote-escrow accounting: lockups, a voting-power curve, proposal tallies
//! and vote records, with the deposit/extend transition that keeps a
//! stake-weighted start time.
pub mod errors;
pub mod states;
pub mod stake;
pub mod lemmas;
pub mod vote;
