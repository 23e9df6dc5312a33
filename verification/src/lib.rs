//! Synchronization core of a relayer that bridges a local ledger node to an
//! external data-availability (DA) chain.
//!
//! The library is organised around one repeating cycle: wait while the remote
//! node is itself still syncing, sample the remote state, derive the safe
//! ingestion range under the finality-depth rule, download the event logs for
//! that range, commit the decoded events together with the advanced watermark
//! as one atomic step, and only then publish the new synced height to waiters.
//!
//! All decisions of that cycle live here and are verified; the surrounding
//! process (network client, timers, threads) drives them by handing plain
//! events to [`service::Task::step`].

pub mod config;
pub mod get_logs;
pub mod log;
pub mod run;
pub mod service;
pub mod state;
pub mod storage;
pub mod synced;
pub mod syncing;
