//! The per-cycle snapshot of sync progress and the safe ingestion range
//! derived from it.

use vstd::prelude::*;

verus! {

/// Snapshot bundling everything a cycle needs to derive its ingestion range
/// without further I/O: the remote chain's current height, the configured
/// finalization depth, and the local watermark.
#[derive(Clone, Copy, PartialEq, Eq, Structural, Debug)]
pub struct EthState {
    /// Current head height reported by the remote chain.
    pub remote_current: u64,
    /// A remote block at height `h` is final once `remote_current >= h + finalization_period`.
    pub finalization_period: u64,
    /// Highest remote height whose events are fully ingested locally.
    pub local_finalized: u64,
}

/// The inclusive block range `[start, end]` to ingest this cycle.
/// Recomputed fresh every cycle, never cached across cycles.
#[derive(Clone, Copy, PartialEq, Eq, Structural, Debug)]
pub struct EthSyncGap {
    pub start: u64,
    pub end: u64,
}

/// Height of the newest remote block that is already final: the remote head
/// minus the finalization depth, saturating at zero.
pub open spec fn finalized_remote_spec(current: u64, period: u64) -> u64 {
    if period <= current {
        (current - period) as u64
    } else {
        0u64
    }
}

/// The range a cycle must ingest, or `None` when everything final is already
/// ingested (an empty gap is a valid, frequent outcome, not an error).
pub open spec fn gap_spec(current: u64, period: u64, watermark: u64) -> Option<EthSyncGap> {
    let fin = finalized_remote_spec(current, period);
    if fin <= watermark {
        None
    } else {
        Some(EthSyncGap { start: (watermark + 1) as u64, end: fin })
    }
}

impl EthState {
    /// Height of the newest remote block this snapshot may treat as final.
    pub fn finalized(&self) -> (r: u64)
        ensures
            r == finalized_remote_spec(self.remote_current, self.finalization_period),
    {
        if self.finalization_period <= self.remote_current {
            self.remote_current - self.finalization_period
        } else {
            0
        }
    }

    /// Derive the ingestion range of this cycle: `[watermark + 1, finalized]`,
    /// or `None` when no newly final block is pending.
    pub fn eth_sync_gap(&self) -> (r: Option<EthSyncGap>)
        ensures
            r == gap_spec(self.remote_current, self.finalization_period, self.local_finalized),
            r matches Some(g) ==> self.local_finalized < g.start && g.start <= g.end,
    {
        let fin = self.finalized();
        if fin <= self.local_finalized {
            None
        } else {
            Some(EthSyncGap { start: self.local_finalized + 1, end: fin })
        }
    }
}

/// Finality safety: the derived range never reaches above the remote head
/// minus the finalization depth, and its bounds are never negative. Events
/// are therefore never ingested from a block that could still be replaced
/// by a reorganization within the finality buffer.
pub proof fn lemma_finality_safety(current: u64, period: u64, watermark: u64)
    ensures
        finalized_remote_spec(current, period) >= 0,
        gap_spec(current, period, watermark) matches Some(g) ==> g.end + period <= current,
        gap_spec(current, period, watermark) matches Some(g) ==> g.start > watermark,
{
}

} // verus!
