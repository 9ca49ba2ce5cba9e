use vstd::prelude::*;

use crate::block::BlockRecord;
use crate::state::AppState;

verus! {

/// A failed fetch from a block source (transport or RPC failure).
#[derive(Debug)]
pub struct ProviderError {
    pub message: String,
}

/// What cross-checking a pushed block against a second source found.
/// Whatever it found, the pushed block is accepted: a discrepancy is a signal
/// to log, never a reason to reject.
#[derive(Clone, Copy, Debug, PartialEq, Eq, Structural)]
pub enum Reconciliation {
    /// The second source has a block of the same number with the same hash.
    Confirmed,
    /// The second source has a block of the same number with another hash.
    HashMismatch,
    /// The second source failed or has no block of that number.
    MissingInSecondary,
}

/// What cross-checking `candidate` against the second source's answer finds.
pub open spec fn reconciliation_of(
    candidate: BlockRecord,
    secondary: Result<Option<BlockRecord>, ProviderError>,
) -> Reconciliation {
    match secondary {
        Ok(Some(other)) => if other.hash@ == candidate.hash@ {
            Reconciliation::Confirmed
        } else {
            Reconciliation::HashMismatch
        },
        _ => Reconciliation::MissingInSecondary,
    }
}

impl Reconciliation {
    /// Whether the two sources disagreed or the second could not confirm.
    pub fn is_discrepancy(&self) -> (r: bool)
        ensures
            r == (*self != Reconciliation::Confirmed),
    {
        match self {
            Reconciliation::Confirmed => false,
            _ => true,
        }
    }

    /// The discrepancy in words, for the error log; `None` when confirmed.
    pub fn discrepancy_text(&self) -> (r: Option<&'static str>)
        ensures
            *self == Reconciliation::Confirmed ==> r.is_none(),
            *self == Reconciliation::HashMismatch ==> r.is_some() && r.unwrap()@
                == "hash mismatch between sources"@,
            *self == Reconciliation::MissingInSecondary ==> r.is_some() && r.unwrap()@
                == "block not found in secondary source"@,
    {
        match self {
            Reconciliation::Confirmed => None,
            Reconciliation::HashMismatch => Some("hash mismatch between sources"),
            Reconciliation::MissingInSecondary => Some("block not found in secondary source"),
        }
    }
}

/// Cross-checks `candidate` against what the second source returned when asked
/// for the block of the same number.
pub fn reconcile(
    candidate: &BlockRecord,
    secondary: &Result<Option<BlockRecord>, ProviderError>,
) -> (r: Reconciliation)
    ensures
        r == reconciliation_of(*candidate, *secondary),
{
    match secondary {
        Ok(Some(other)) => {
            if crate::block::hashes_equal(&other.hash, &candidate.hash) {
                Reconciliation::Confirmed
            } else {
                Reconciliation::HashMismatch
            }
        },
        _ => Reconciliation::MissingInSecondary,
    }
}

impl AppState {
    /// Takes in a pushed block: cross-checks it against the second source's
    /// answer `secondary`, then makes it the observed block whatever the
    /// outcome, which is returned for logging.
    pub fn poll_and_update_block(
        &mut self,
        block: BlockRecord,
        secondary: &Result<Option<BlockRecord>, ProviderError>,
    ) -> (r: Reconciliation)
        ensures
            final(self)@ == old(self)@.with_block(block),
            r == reconciliation_of(block, *secondary),
    {
        let r = reconcile(&block, secondary);
        self.update(block);
        r
    }

    /// Takes in the answer of one poll for the latest block. A block is made
    /// the observed block and `true` returned; a failure or an empty answer
    /// leaves the state as it was and returns `false`.
    pub fn ingest_polled(&mut self, fetched: Result<Option<BlockRecord>, ProviderError>) -> (r: bool)
        ensures
            r == (fetched matches Ok(Some(_))),
            match fetched {
                Ok(Some(b)) => final(self)@ == old(self)@.with_block(b),
                _ => final(self)@ == old(self)@,
            },
    {
        match fetched {
            Ok(Some(b)) => {
                self.update(b);
                true
            },
            _ => false,
        }
    }
}

} // verus!
