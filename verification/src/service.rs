//! The relayer task and the shared state handed to external consumers.

use vstd::prelude::*;

use crate::config::Config;
use crate::log::Message;
use crate::run::CycleState;
use crate::storage::{visible_message_spec, Database, LifecycleError};
use crate::synced::SyncNotifier;

verus! {

/// The relayer that syncs with the DA layer, one cycle at a time.
pub struct Task {
    /// Sends signals when the relayer reaches consistency with the DA layer.
    pub synced: SyncNotifier,
    /// The local store of ingested events and the durable watermark.
    pub database: Database,
    /// Configuration settings.
    pub config: Config,
    /// Where the machine stands within the current cycle.
    pub state: CycleState,
    /// Time accumulated since the last syncing progress indication.
    pub since_progress_log: u64,
}

impl Task {
    /// A new relayer task around the given store. Not yet runnable: startup
    /// completes with [`Task::into_task`], which floor-sets the watermark.
    pub fn new(database: Database, config: Config) -> (r: Task)
        ensures
            r.database@ == database@,
            r.config == config,
            r.state == CycleState::WaitingForGate,
            r.synced.wf(),
            r.synced.latest_spec() is None,
            r.synced.history() == Seq::<u64>::empty(),
            r.since_progress_log == 0,
    {
        Task {
            synced: SyncNotifier::new(),
            database,
            config,
            state: CycleState::WaitingForGate,
            since_progress_log: 0,
        }
    }

    /// Raise the watermark to at least the configured deploy height: a
    /// one-time, idempotent floor-set that only raises, never lowers.
    pub fn set_deploy_height(&mut self)
        ensures
            final(self).database@.messages == old(self).database@.messages,
            final(self).database@.finalized == (match old(self).database@.finalized {
                None => Some(old(self).config.da_deploy_height),
                Some(w) => if w < old(self).config.da_deploy_height {
                    Some(old(self).config.da_deploy_height)
                } else {
                    Some(w)
                },
            }),
            final(self).synced == old(self).synced,
            final(self).config == old(self).config,
            final(self).state == old(self).state,
            final(self).since_progress_log == old(self).since_progress_log,
    {
        let h = self.config.da_deploy_height;
        self.database.set_finalized_da_height_to_at_least(h);
    }

    /// Finish startup: floor-set the watermark, after which the task is
    /// well-formed and ready to run cycles.
    pub fn into_task(self) -> (r: Task)
        requires
            self.config.valid(),
            self.synced.wf(),
            self.synced.latest_spec() is None,
            self.state == CycleState::WaitingForGate,
        ensures
            r.wf(),
            r.state == CycleState::WaitingForGate,
            r.database@.messages == self.database@.messages,
            r.database@.finalized matches Some(w) && w >= self.config.da_deploy_height,
            self.database@.finalized matches Some(w0) ==> r.watermark() >= w0,
            r.config == self.config,
            r.synced == self.synced,
    {
        let mut task = self;
        task.set_deploy_height();
        task
    }

    /// Publish a newly committed watermark to waiters. The only writer of
    /// the synced height, called strictly after the corresponding durable
    /// step.
    pub fn update_synced(&mut self, height: u64)
        requires
            old(self).synced.wf(),
            old(self).synced.latest_spec() matches Some(p) ==> p <= height,
        ensures
            final(self).synced.wf(),
            final(self).synced.latest_spec() == Some(height),
            final(self).synced.history() == old(self).synced.history().push(height),
            final(self).database == old(self).database,
            final(self).config == old(self).config,
            final(self).state == old(self).state,
            final(self).since_progress_log == old(self).since_progress_log,
    {
        self.synced.publish(height);
    }

    /// The read-only snapshot handed to external consumers.
    pub fn shared_data(&self) -> (r: SharedState)
        ensures
            r.database@ == self.database@,
            r.synced == self.synced.latest_spec(),
    {
        SharedState { synced: self.synced.latest(), database: self.database.duplicate() }
    }
}

/// The shared state of the relayer task: what external consumers may read.
pub struct SharedState {
    /// The synced height observed when the snapshot was taken.
    pub synced: Option<u64>,
    /// Snapshot of the local store.
    pub database: Database,
}

impl SharedState {
    /// Get a message only if it has been synced and its recorded height is
    /// at most the given height: visibility is gated by the caller-supplied
    /// height, not by global sync progress.
    pub fn get_message(&self, id: u64, da_height: u64) -> (r: Option<Message>)
        ensures
            r matches Some(m) ==> visible_message_spec(self.database@.messages, id, da_height)
                == Some(m@),
            r is None <==> visible_message_spec(self.database@.messages, id, da_height) is None,
    {
        self.database.get_message(id, da_height)
    }

    /// The durable watermark: the last remote block fully ingested. Fails if
    /// queried before startup's floor-set has run, which is a lifecycle
    /// error, not a transient one.
    pub fn get_finalized_da_height(&self) -> (r: Result<u64, LifecycleError>)
        ensures
            r matches Ok(h) ==> self.database@.finalized == Some(h),
            self.database@.finalized matches Some(h) ==> r == Ok::<u64, LifecycleError>(h),
            r is Err <==> self.database@.finalized is None,
    {
        self.database.get_finalized_da_height()
    }
}

/// Why the service could not start.
#[derive(Clone, Copy, PartialEq, Eq, Structural, Debug)]
pub enum ConfigError {
    /// No remote endpoint was configured.
    MissingEthClient,
}

/// Create an instance of the runnable relayer service. Starting without a
/// configured remote endpoint is a startup error, not a runtime one.
pub fn new_service(database: Database, config: Config) -> (r: Result<Task, ConfigError>)
    ensures
        r is Err <==> config.eth_client is None,
        r matches Err(e) ==> e == ConfigError::MissingEthClient,
        r matches Ok(t) ==> t.database@ == database@ && t.config == config && t.state
            == CycleState::WaitingForGate && t.synced.wf() && t.synced.latest_spec() is None
            && t.synced.history() == Seq::<u64>::empty() && t.since_progress_log == 0,
{
    if config.eth_client.is_none() {
        return Err(ConfigError::MissingEthClient);
    }
    Ok(new_service_internal(database, config))
}

/// Start a test relayer, without requiring a remote endpoint.
pub fn new_service_test(database: Database, config: Config) -> (r: Task)
    ensures
        r.database@ == database@,
        r.config == config,
        r.state == CycleState::WaitingForGate,
        r.synced.wf(),
        r.synced.latest_spec() is None,
        r.synced.history() == Seq::<u64>::empty(),
        r.since_progress_log == 0,
{
    new_service_internal(database, config)
}

fn new_service_internal(database: Database, config: Config) -> (r: Task)
    ensures
        r.database@ == database@,
        r.config == config,
        r.state == CycleState::WaitingForGate,
        r.synced.wf(),
        r.synced.latest_spec() is None,
        r.synced.history() == Seq::<u64>::empty(),
        r.since_progress_log == 0,
{
    Task::new(database, config)
}

/// The end-of-cycle sleep of the rate limiter: `max(0, minimum - elapsed)`.
pub open spec fn remaining_delay_spec(minimum: u64, elapsed: u64) -> u64 {
    if elapsed >= minimum {
        0u64
    } else {
        (minimum - elapsed) as u64
    }
}

/// How long to sleep before the next cycle: the fixed-floor rate limiter,
/// which bounds the request rate to the remote while never delaying an
/// already-slow cycle.
pub fn remaining_delay(minimum: u64, elapsed: u64) -> (r: u64)
    ensures
        r == remaining_delay_spec(minimum, elapsed),
{
    if elapsed >= minimum {
        0
    } else {
        minimum - elapsed
    }
}

/// Rate floor: a cycle that starts at `start`, runs for `elapsed`, and then
/// sleeps the remaining delay lets the next cycle start no earlier than
/// `start + minimum`, regardless of how fast the cycle completed.
pub proof fn lemma_rate_floor(start: int, minimum: u64, elapsed: u64)
    ensures
        start + elapsed + remaining_delay_spec(minimum, elapsed) >= start + minimum,
{
}

} // verus!
