//! Downloading and committing one cycle's logs: the pagination of the gap
//! into bounded remote requests, and the single atomic write that stores the
//! decoded events and advances the watermark together.

use vstd::prelude::*;

use crate::log::{decode_log, decode_ok_spec, decode_spec, DecodeError, Log, Message, MessageModel};
use crate::state::{gap_spec, EthSyncGap};
use crate::storage::{Database, DatabaseModel};

verus! {

/// Whether every log of a batch decodes into a bridge event.
pub open spec fn batch_ok_spec(logs: Seq<Log>) -> bool {
    forall|i: int| 0 <= i < logs.len() ==> decode_ok_spec(logs[i])
}

/// The events a fully well-formed batch decodes to, in batch order.
pub open spec fn decoded_batch_spec(logs: Seq<Log>) -> Seq<MessageModel> {
    logs.map_values(|l: Log| decode_spec(l))
}

/// The stored state after a cycle commits `logs` for a gap ending at
/// `new_height`: the decoded events appended and the watermark advanced, as
/// one step.
pub open spec fn committed_spec(db: DatabaseModel, logs: Seq<Log>, new_height: u64) -> DatabaseModel {
    DatabaseModel {
        finalized: Some(new_height),
        messages: db.messages + decoded_batch_spec(logs),
    }
}

/// The gap a cycle derives from the stored watermark and a remote sample.
pub open spec fn cycle_gap_spec(db: DatabaseModel, current: u64, period: u64) -> Option<
    EthSyncGap,
> {
    match db.finalized {
        Some(w) => gap_spec(current, period, w),
        None => None,
    }
}

/// Split a non-empty gap into consecutive page ranges of at most `page_size`
/// blocks each, ascending by height and covering the gap exactly, so no
/// single remote request exceeds the configured size bound.
pub fn page_bounds(gap: &EthSyncGap, page_size: u64) -> (r: Vec<EthSyncGap>)
    requires
        gap.start <= gap.end,
        page_size >= 1,
    ensures
        r@.len() >= 1,
        r@[0].start == gap.start,
        r@.last().end == gap.end,
        forall|i: int|
            0 <= i < r@.len() ==> (#[trigger] r@[i]).start <= r@[i].end && r@[i].end - r@[i].start
                + 1 <= page_size,
        forall|i: int| 0 <= i < r@.len() - 1 ==> (#[trigger] r@[i]).end + 1 == r@[i + 1].start,
{
    let mut pages: Vec<EthSyncGap> = Vec::new();
    let mut from: u64 = gap.start;
    loop
        invariant_except_break
            from == gap.start ==> pages@.len() == 0,
            from > gap.start ==> pages@.len() > 0 && pages@[0].start == gap.start
                && pages@.last().end == from - 1,
        invariant
            gap.start <= from <= gap.end,
            page_size >= 1,
            forall|i: int|
                0 <= i < pages@.len() ==> (#[trigger] pages@[i]).start <= pages@[i].end
                    && pages@[i].end - pages@[i].start + 1 <= page_size,
            forall|i: int|
                0 <= i < pages@.len() - 1 ==> (#[trigger] pages@[i]).end + 1 == pages@[i + 1].start,
        ensures
            pages@.len() >= 1,
            pages@[0].start == gap.start,
            pages@.last().end == gap.end,
            forall|i: int|
                0 <= i < pages@.len() ==> (#[trigger] pages@[i]).start <= pages@[i].end
                    && pages@[i].end - pages@[i].start + 1 <= page_size,
            forall|i: int|
                0 <= i < pages@.len() - 1 ==> (#[trigger] pages@[i]).end + 1 == pages@[i + 1].start,
        decreases gap.end - from,
    {
        let to = if gap.end - from >= page_size {
            from + (page_size - 1)
        } else {
            gap.end
        };
        pages.push(EthSyncGap { start: from, end: to });
        if to == gap.end {
            break ;
        }
        from = to + 1;
    }
    pages
}

/// Decode the whole batch and, only if every log decodes, commit the events
/// together with the watermark advance as one atomic step. A single
/// malformed log aborts the cycle with nothing committed: skipping a log
/// could silently drop a bridge event.
pub fn write_logs(database: &mut Database, logs: &Vec<Log>, new_height: u64) -> (r: Result<
    (),
    DecodeError,
>)
    requires
        old(database)@.finalized matches Some(w) && w <= new_height,
    ensures
        r is Ok <==> batch_ok_spec(logs@),
        r is Ok ==> final(database)@ == committed_spec(old(database)@, logs@, new_height),
        r is Err ==> final(database)@ == old(database)@,
{
    let mut decoded: Vec<Message> = Vec::new();
    let mut i: usize = 0;
    proof {
        assert(decoded@.map_values(|m: Message| m@) =~= decoded_batch_spec(logs@.take(0)));
    }
    while i < logs.len()
        invariant
            i <= logs@.len(),
            forall|k: int| 0 <= k < i ==> decode_ok_spec(#[trigger] logs@[k]),
            decoded@.map_values(|m: Message| m@) == decoded_batch_spec(logs@.take(i as int)),
            database@ == old(database)@,
        decreases logs@.len() - i,
    {
        let ghost pre = decoded@.map_values(|m: Message| m@);
        match decode_log(&logs[i]) {
            Ok(m) => {
                decoded.push(m);
                proof {
                    assert(decoded@.map_values(|m: Message| m@) =~= pre.push(
                        decode_spec(logs@[i as int]),
                    ));
                    assert(pre.push(decode_spec(logs@[i as int])) =~= decoded_batch_spec(
                        logs@.take(i as int + 1),
                    ));
                }
            },
            Err(e) => {
                return Err(e);
            },
        }
        i = i + 1;
    }
    proof {
        assert(logs@.take(logs@.len() as int) =~= logs@);
    }
    database.store_messages(decoded, new_height);
    Ok(())
}

/// Idempotent retry: a failed cycle commits nothing, so a rerun against the
/// unchanged store derives the identical gap and, on success, produces the
/// identical stored state as if the failure had never happened.
pub proof fn lemma_idempotent_retry(
    before: DatabaseModel,
    after_failure: DatabaseModel,
    current: u64,
    period: u64,
    logs: Seq<Log>,
    new_height: u64,
)
    requires
        after_failure == before,
    ensures
        cycle_gap_spec(after_failure, current, period) == cycle_gap_spec(before, current, period),
        committed_spec(after_failure, logs, new_height) == committed_spec(
            before,
            logs,
            new_height,
        ),
{
}

} // verus!
