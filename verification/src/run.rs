//! The cycle state machine: gate, then gap, then fetch, then write, then
//! notify, as one explicit enum-driven loop.
//!
//! The surrounding process performs the remote calls and the sleeps; every
//! decision between them is taken here, in [`Task::step`], by handing the
//! machine the plain outcome of the last action.

use vstd::prelude::*;

use crate::get_logs::{batch_ok_spec, committed_spec, write_logs};
use crate::log::Log;
use crate::service::Task;
use crate::state::{gap_spec, EthState, EthSyncGap};
use crate::syncing::{accumulated_spec, progress_due_spec, progress_log_step};

verus! {

/// Outcome of one poll of the remote node's syncing status.
#[derive(Clone, Copy, PartialEq, Eq, Structural, Debug)]
pub enum GatePoll {
    /// The remote reports fully synced, or reports no syncing status at all.
    Synced,
    /// The remote reports it is still catching up.
    Syncing,
    /// The status query failed transiently; retried at the same frequency.
    Unavailable,
}

/// What the driving process observed and hands to the machine.
#[derive(Debug)]
pub enum Event {
    /// A poll of the remote syncing status, taken while gated.
    Gate(GatePoll),
    /// The remote's current height, or `None` on a transient query error.
    Remote(Option<u64>),
    /// The downloaded logs of the whole gap, ascending by height, or `None`
    /// when any page request failed: a partial gap is never written.
    Logs(Option<Vec<Log>>),
}

/// Where the machine stands within the current cycle.
#[derive(Clone, Copy, PartialEq, Eq, Structural, Debug)]
pub enum CycleState {
    /// Blocked until the remote stops reporting itself as syncing.
    WaitingForGate,
    /// Awaiting a sample of the remote current height.
    WaitingForRemote,
    /// Awaiting the downloaded logs of this gap.
    WaitingForLogs(EthSyncGap),
    /// The cycle is over, successfully or not; the rate-limit sleep follows.
    Complete(bool),
}

/// What the driving process must do next.
#[derive(Clone, Copy, PartialEq, Eq, Structural, Debug)]
pub enum Action {
    /// Poll the remote syncing status again after `delay` milliseconds,
    /// emitting a progress indication first when `emit_progress_log` holds.
    PollGate { delay: u64, emit_progress_log: bool },
    /// Query the remote current height.
    SampleRemote,
    /// Download the logs of blocks `[start, end]` for the configured
    /// contracts, in pages of at most `page_size` blocks.
    FetchLogs { start: u64, end: u64, page_size: u64 },
    /// Report the cycle outcome, sleep the remaining cycle duration, then
    /// begin the next cycle.
    EndCycle { ok: bool },
}

impl Task {
    /// The stored watermark; meaningful once startup has initialized it.
    pub open spec fn watermark(&self) -> u64 {
        self.database@.finalized->Some_0
    }

    /// Everything the machine relies on between steps: the store is
    /// initialized, the channel is well-formed and never ahead of the
    /// watermark, and any pending fetch range starts right above the
    /// watermark.
    pub open spec fn wf(&self) -> bool {
        &&& self.synced.wf()
        &&& self.config.valid()
        &&& self.database@.finalized is Some
        &&& (self.synced.latest_spec() matches Some(p) ==> p <= self.watermark())
        &&& (self.state matches CycleState::WaitingForLogs(g) ==> g.start == self.watermark() + 1
            && g.start <= g.end)
    }

    /// The event kind the machine can take in its current state.
    pub open spec fn expects(&self, event: Event) -> bool {
        match self.state {
            CycleState::WaitingForGate => event is Gate,
            CycleState::WaitingForRemote => event is Remote,
            CycleState::WaitingForLogs(_) => event is Logs,
            CycleState::Complete(_) => false,
        }
    }

    /// Advance the cycle by one event. Nothing is fetched or written while
    /// the remote reports syncing; the gap is derived exactly from the
    /// sampled height, the finalization depth and the watermark; a batch is
    /// committed together with the watermark advance or not at all; the
    /// synced height is published only after a commit (or for an empty gap,
    /// whose watermark is already durable); and any failure ends the cycle
    /// with every state unchanged, to be retried next cycle.
    pub fn step(&mut self, event: Event) -> (action: Action)
        requires
            old(self).wf(),
            old(self).expects(event),
        ensures
            final(self).wf(),
            final(self).config == old(self).config,
            final(self).database@.finalized is Some,
            final(self).watermark() >= old(self).watermark(),
            old(self).synced.history().is_prefix_of(final(self).synced.history()),
            // While the remote is syncing or its status is unavailable the
            // machine only re-polls: no gap, no fetch, no write, no notify.
            (old(self).state is WaitingForGate && !(event matches Event::Gate(GatePoll::Synced)))
                ==> ({
                &&& final(self).state is WaitingForGate
                &&& final(self).database@ == old(self).database@
                &&& final(self).synced == old(self).synced
                &&& action == (Action::PollGate {
                    delay: old(self).config.syncing_call_frequency,
                    emit_progress_log: progress_due_spec(
                        old(self).since_progress_log,
                        old(self).config.syncing_call_frequency,
                        old(self).config.syncing_log_frequency,
                    ),
                })
                &&& final(self).since_progress_log == (if progress_due_spec(
                    old(self).since_progress_log,
                    old(self).config.syncing_call_frequency,
                    old(self).config.syncing_log_frequency,
                ) {
                    0u64
                } else {
                    accumulated_spec(
                        old(self).since_progress_log,
                        old(self).config.syncing_call_frequency,
                    )
                })
            }),
            // Once the remote reports itself synced the cycle proceeds to
            // sampling, still without touching any state.
            (old(self).state is WaitingForGate && event matches Event::Gate(GatePoll::Synced))
                ==> ({
                &&& final(self).state is WaitingForRemote
                &&& final(self).database@ == old(self).database@
                &&& final(self).synced == old(self).synced
                &&& action == Action::SampleRemote
                &&& final(self).since_progress_log == 0
            }),
            // A transient sampling error fails the cycle with nothing changed.
            (old(self).state is WaitingForRemote && event matches Event::Remote(None)) ==> ({
                &&& final(self).state == CycleState::Complete(false)
                &&& final(self).database@ == old(self).database@
                &&& final(self).synced == old(self).synced
                &&& action == (Action::EndCycle { ok: false })
            }),
            // A sampled height derives the gap: an empty gap completes the
            // cycle at once (publishing the already-durable watermark), a
            // non-empty one is handed out for download.
            old(self).state is WaitingForRemote ==> (event matches Event::Remote(Some(h)) ==> ({
                let g = gap_spec(h, old(self).config.da_finalization, old(self).watermark());
                &&& (g is None ==> {
                    &&& final(self).state == CycleState::Complete(true)
                    &&& final(self).database@ == old(self).database@
                    &&& final(self).synced.history() == old(self).synced.history().push(
                        old(self).watermark(),
                    )
                    &&& action == (Action::EndCycle { ok: true })
                })
                &&& (g matches Some(gap) ==> {
                    &&& final(self).state == CycleState::WaitingForLogs(gap)
                    &&& final(self).database@ == old(self).database@
                    &&& final(self).synced == old(self).synced
                    &&& action == (Action::FetchLogs {
                        start: gap.start,
                        end: gap.end,
                        page_size: old(self).config.log_page_size,
                    })
                })
            })),
            // A failed download fails the cycle with nothing changed.
            (old(self).state is WaitingForLogs && event matches Event::Logs(None)) ==> ({
                &&& final(self).state == CycleState::Complete(false)
                &&& final(self).database@ == old(self).database@
                &&& final(self).synced == old(self).synced
                &&& action == (Action::EndCycle { ok: false })
            }),
            // A downloaded batch is committed atomically with the watermark
            // advance, and the new height published only afterwards; one
            // malformed log aborts the cycle with nothing committed.
            old(self).state matches CycleState::WaitingForLogs(g) ==> (event matches Event::Logs(
                Some(logs),
            ) ==> ({
                &&& (batch_ok_spec(logs@) ==> {
                    &&& final(self).database@ == committed_spec(old(self).database@, logs@, g.end)
                    &&& final(self).synced.history() == old(self).synced.history().push(g.end)
                    &&& final(self).state == CycleState::Complete(true)
                    &&& action == (Action::EndCycle { ok: true })
                })
                &&& (!batch_ok_spec(logs@) ==> {
                    &&& final(self).database@ == old(self).database@
                    &&& final(self).synced == old(self).synced
                    &&& final(self).state == CycleState::Complete(false)
                    &&& action == (Action::EndCycle { ok: false })
                })
            })),
    {
        match event {
            Event::Gate(poll) => {
                match poll {
                    GatePoll::Synced => {
                        self.since_progress_log = 0;
                        self.state = CycleState::WaitingForRemote;
                        Action::SampleRemote
                    },
                    _ => {
                        let stepped = progress_log_step(
                            self.since_progress_log,
                            self.config.syncing_call_frequency,
                            self.config.syncing_log_frequency,
                        );
                        self.since_progress_log = stepped.0;
                        Action::PollGate {
                            delay: self.config.syncing_call_frequency,
                            emit_progress_log: stepped.1,
                        }
                    },
                }
            },
            Event::Remote(sample) => {
                match sample {
                    None => {
                        self.state = CycleState::Complete(false);
                        Action::EndCycle { ok: false }
                    },
                    Some(h) => {
                        let w = match self.database.get_finalized_da_height() {
                            Ok(w) => w,
                            Err(_) => unreached(),
                        };
                        let snapshot = EthState {
                            remote_current: h,
                            finalization_period: self.config.da_finalization,
                            local_finalized: w,
                        };
                        match snapshot.eth_sync_gap() {
                            None => {
                                self.update_synced(w);
                                self.state = CycleState::Complete(true);
                                Action::EndCycle { ok: true }
                            },
                            Some(gap) => {
                                self.state = CycleState::WaitingForLogs(gap);
                                Action::FetchLogs {
                                    start: gap.start,
                                    end: gap.end,
                                    page_size: self.config.log_page_size,
                                }
                            },
                        }
                    },
                }
            },
            Event::Logs(outcome) => {
                let gap = match self.state {
                    CycleState::WaitingForLogs(g) => g,
                    _ => unreached(),
                };
                match outcome {
                    None => {
                        self.state = CycleState::Complete(false);
                        Action::EndCycle { ok: false }
                    },
                    Some(logs) => {
                        match write_logs(&mut self.database, &logs, gap.end) {
                            Ok(_) => {
                                self.update_synced(gap.end);
                                self.state = CycleState::Complete(true);
                                Action::EndCycle { ok: true }
                            },
                            Err(_) => {
                                self.state = CycleState::Complete(false);
                                Action::EndCycle { ok: false }
                            },
                        }
                    },
                }
            },
        }
    }

    /// Begin the next cycle, after the end-of-cycle sleep.
    pub fn begin_cycle(&mut self)
        requires
            old(self).wf(),
            old(self).state is Complete,
        ensures
            final(self).wf(),
            final(self).state == CycleState::WaitingForGate,
            final(self).database@ == old(self).database@,
            final(self).synced == old(self).synced,
            final(self).config == old(self).config,
            final(self).since_progress_log == 0,
    {
        self.since_progress_log = 0;
        self.state = CycleState::WaitingForGate;
    }
}

} // verus!
