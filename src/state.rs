use vstd::prelude::*;

use crate::block::BlockRecord;

verus! {

/// The mathematical model of the monitor's shared record.
pub struct MonitorView {
    pub latest: Option<BlockRecord>,
    pub fail_intentional: bool,
    pub frequency: nat,
}

impl MonitorView {
    /// A model is well formed when its block frequency is positive.
    pub open spec fn wf(self) -> bool {
        self.frequency > 0
    }

    /// The model after the observed block is replaced by `block`.
    pub open spec fn with_block(self, block: BlockRecord) -> MonitorView {
        MonitorView { latest: Some(block), ..self }
    }

    /// The model after one flip of the override flag.
    pub open spec fn toggled(self) -> MonitorView {
        MonitorView { fail_intentional: !self.fail_intentional, ..self }
    }
}

/// The shared record of the monitor: the block observed last, the operator's
/// override flag and the expected interval between blocks, fixed at creation.
#[derive(Clone, Copy, Debug)]
pub struct AppState {
    latest_block: Option<BlockRecord>,
    fail_intentional: bool,
    block_frequency: u64,
}

impl View for AppState {
    type V = MonitorView;

    closed spec fn view(&self) -> MonitorView {
        MonitorView {
            latest: self.latest_block,
            fail_intentional: self.fail_intentional,
            frequency: self.block_frequency as nat,
        }
    }
}

impl AppState {
    /// A fresh state: no block observed yet and no override set.
    pub fn new(block_frequency: u64) -> (r: AppState)
        requires
            block_frequency > 0,
        ensures
            r@ == (MonitorView { latest: None, fail_intentional: false, frequency: block_frequency as nat }),
            r@.wf(),
    {
        AppState { latest_block: None, fail_intentional: false, block_frequency }
    }

    /// The expected interval between blocks, in seconds.
    pub fn block_frequency(&self) -> (r: u64)
        ensures
            r as nat == self@.frequency,
    {
        self.block_frequency
    }

    /// Whether the operator's override is set.
    pub fn fail_intentional(&self) -> (r: bool)
        ensures
            r == self@.fail_intentional,
    {
        self.fail_intentional
    }

    /// The block observed last, if any.
    pub fn last_block(&self) -> (r: Option<BlockRecord>)
        ensures
            r == self@.latest,
    {
        self.latest_block
    }

    /// Replaces the observed block by `block`, whole; nothing else changes.
    pub fn update(&mut self, block: BlockRecord)
        ensures
            final(self)@ == old(self)@.with_block(block),
    {
        self.latest_block = Some(block);
    }

    /// Flips the override flag and returns its new value.
    pub fn toggle_fail_intentional(&mut self) -> (r: bool)
        ensures
            final(self)@ == old(self)@.toggled(),
            r == final(self)@.fail_intentional,
    {
        self.fail_intentional = !self.fail_intentional;
        self.fail_intentional
    }

    /// An independent copy of the whole state.
    pub fn snapshot(&self) -> (r: AppState)
        ensures
            r@ == self@,
    {
        *self
    }
}

/// Flipping the override flag twice gives back the state one started from.
pub proof fn lemma_toggle_twice(s: MonitorView)
    ensures
        s.toggled().toggled() == s,
{
}

} // verus!
