//! Head-of-chain health monitoring for a blockchain node: the shared monitor
//! state, cross-checking of pushed blocks against a second source, the health
//! rule over block staleness, and the poll cadence aligned to block intervals.
use vstd::prelude::*;

pub mod block;
pub mod health;
pub mod reconcile;
pub mod schedule;
pub mod state;

verus! {

} // verus!
