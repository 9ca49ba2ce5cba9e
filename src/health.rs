use vstd::prelude::*;

use crate::block::BlockRecord;
use crate::state::{AppState, MonitorView};

verus! {

/// Why a state is judged unhealthy.
#[derive(Clone, Copy, Debug, PartialEq, Eq, Structural)]
pub enum UnhealthyReason {
    /// The operator's override is set.
    Forced,
    /// No block has been observed yet.
    NoBlock,
    /// The last block is older than the block frequency allows.
    StaleBlock,
}

/// The health of a state at a given time.
#[derive(Clone, Copy, Debug, PartialEq, Eq, Structural)]
pub enum Health {
    Healthy,
    Unhealthy(UnhealthyReason),
}

/// Whether a block with timestamp `timestamp` is stale at time `now`: more
/// than `frequency` seconds have passed since it was produced.
pub open spec fn is_stale(timestamp: int, now: int, frequency: int) -> bool {
    now - timestamp > frequency
}

/// The health of a model of the state at time `now`, in unix seconds.
pub open spec fn health_of(s: MonitorView, now: int) -> Health {
    if s.fail_intentional {
        Health::Unhealthy(UnhealthyReason::Forced)
    } else {
        match s.latest {
            None => Health::Unhealthy(UnhealthyReason::NoBlock),
            Some(b) => if is_stale(b.timestamp as int, now, s.frequency as int) {
                Health::Unhealthy(UnhealthyReason::StaleBlock)
            } else {
                Health::Healthy
            },
        }
    }
}

impl UnhealthyReason {
    /// The reason in words, as reported to monitors.
    pub fn as_text(&self) -> (r: &'static str)
        ensures
            *self == UnhealthyReason::Forced ==> r@ == "forced"@,
            *self == UnhealthyReason::NoBlock ==> r@ == "no block observed"@,
            *self == UnhealthyReason::StaleBlock ==> r@ == "stale block"@,
    {
        match self {
            UnhealthyReason::Forced => "forced",
            UnhealthyReason::NoBlock => "no block observed",
            UnhealthyReason::StaleBlock => "stale block",
        }
    }
}

impl Health {
    /// The HTTP status that reports the health: 200 when healthy, 503
    /// (service unavailable) otherwise.
    pub fn status_code(&self) -> (r: u16)
        ensures
            *self == Health::Healthy ==> r == 200,
            *self != Health::Healthy ==> r == 503,
    {
        match self {
            Health::Healthy => 200,
            Health::Unhealthy(_) => 503,
        }
    }

    /// Whether this is the healthy outcome.
    pub fn is_healthy(&self) -> (r: bool)
        ensures
            r == (*self == Health::Healthy),
    {
        match self {
            Health::Healthy => true,
            Health::Unhealthy(_) => false,
        }
    }
}

/// Whether `block` is stale at time `now` for the given frequency. A block
/// exactly `block_frequency` seconds old is still fresh; one from the future
/// is fresh too.
pub fn block_is_stale(block: &BlockRecord, now: u64, block_frequency: u64) -> (r: bool)
    ensures
        r == is_stale(block.timestamp as int, now as int, block_frequency as int),
{
    now > block.timestamp && now - block.timestamp > block_frequency
}

impl AppState {
    /// The health of this state at time `now`, in unix seconds.
    pub fn evaluate_health(&self, now: u64) -> (r: Health)
        ensures
            r == health_of(self@, now as int),
    {
        if self.fail_intentional() {
            return Health::Unhealthy(UnhealthyReason::Forced);
        }
        match self.last_block() {
            None => Health::Unhealthy(UnhealthyReason::NoBlock),
            Some(b) => {
                if block_is_stale(&b, now, self.block_frequency()) {
                    Health::Unhealthy(UnhealthyReason::StaleBlock)
                } else {
                    Health::Healthy
                }
            },
        }
    }

    /// Whether this state is healthy at time `now`, in unix seconds.
    pub fn is_healthy(&self, now: u64) -> (r: bool)
        ensures
            r == (health_of(self@, now as int) == Health::Healthy),
    {
        self.evaluate_health(now).is_healthy()
    }
}

/// While the override is set, the state is unhealthy whatever its last block
/// and whatever the time.
pub proof fn lemma_forced_is_unhealthy(s: MonitorView, now: int)
    requires
        s.fail_intentional,
    ensures
        health_of(s, now) == Health::Unhealthy(UnhealthyReason::Forced),
{
}

/// Without an observed block and without the override, the state is unhealthy
/// because no block was observed.
pub proof fn lemma_no_block_is_unhealthy(s: MonitorView, now: int)
    requires
        !s.fail_intentional,
        s.latest.is_none(),
    ensures
        health_of(s, now) == Health::Unhealthy(UnhealthyReason::NoBlock),
{
}

} // verus!
