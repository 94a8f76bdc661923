//! A deterministic settlement engine for binary-outcome wagering pools.
//!
//! Participants stake value on one of two outcomes before a deadline; an
//! authorized party resolves the outcome after the deadline; the engine
//! computes how custodied funds are redistributed to winners, under one of
//! two payout policies: proportional to stake, or equal per winning wager.
//! The engine never moves value itself: it returns transfer instructions
//! for the host's custody mechanism to execute.

use vstd::prelude::*;

pub mod engine;
pub mod msg;
pub mod settle;
pub mod state;

verus! {

/// The payout policy a pool is created with.
///
/// `Proportional` pays each winner `floor(stake * pool / winning_side)` at
/// resolution; `PerCapita` fixes `floor(pool / winner_count)` at resolution
/// and lets each winner pull that amount once.
#[derive(Clone, Copy, PartialEq, Eq, Structural, Debug)]
pub enum DistributionPolicy {
    Proportional,
    PerCapita,
}

} // verus!
