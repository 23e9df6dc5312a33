//! In-memory variant of the local persistent store: the ingested bridge
//! events and the durable "finalized DA height" watermark.
//!
//! The watermark never decreases, and events are only committed together with
//! the watermark advance in one step, so a reader can never observe one
//! without the other.

use vstd::prelude::*;

use crate::log::{Message, MessageModel};

verus! {

/// Querying the watermark before startup has floor-set it: a lifecycle
/// (programming) error, not a transient one.
#[derive(Clone, Copy, PartialEq, Eq, Structural, Debug)]
pub enum LifecycleError {
    NotYetInitialized,
}

/// Local store of ingested events and the durable watermark.
#[derive(Debug)]
pub struct Database {
    finalized: Option<u64>,
    messages: Vec<Message>,
}

/// Mathematical model of a [`Database`]: the watermark and the committed
/// events in commit order.
pub struct DatabaseModel {
    pub finalized: Option<u64>,
    pub messages: Seq<MessageModel>,
}

impl View for Database {
    type V = DatabaseModel;

    closed spec fn view(&self) -> DatabaseModel {
        DatabaseModel {
            finalized: self.finalized,
            messages: self.messages@.map_values(|m: Message| m@),
        }
    }
}

/// The stored event with the given identity: the latest commit wins.
pub open spec fn lookup_spec(s: Seq<MessageModel>, id: u64) -> Option<MessageModel>
    decreases s.len(),
{
    if s.len() == 0 {
        None
    } else if s.last().id == id {
        Some(s.last())
    } else {
        lookup_spec(s.drop_last(), id)
    }
}

/// The event a reader at height `da_height` may observe for `id`: present if
/// and only if it is stored and was observed no later than that height.
pub open spec fn visible_message_spec(
    s: Seq<MessageModel>,
    id: u64,
    da_height: u64,
) -> Option<MessageModel> {
    match lookup_spec(s, id) {
        Some(m) => if m.da_height <= da_height {
            Some(m)
        } else {
            None
        },
        None => None,
    }
}

impl Database {
    /// A store holding no events, with the watermark not yet initialized.
    pub fn empty() -> (r: Database)
        ensures
            r@.finalized is None,
            r@.messages.len() == 0,
    {
        Database { finalized: None, messages: Vec::new() }
    }

    /// The durable watermark. Fails if startup's floor-set has not run yet.
    pub fn get_finalized_da_height(&self) -> (r: Result<u64, LifecycleError>)
        ensures
            r matches Ok(h) ==> self@.finalized == Some(h),
            self@.finalized matches Some(h) ==> r == Ok::<u64, LifecycleError>(h),
            r is Err <==> self@.finalized is None,
            r matches Err(e) ==> e == LifecycleError::NotYetInitialized,
    {
        match self.finalized {
            Some(h) => Ok(h),
            None => Err(LifecycleError::NotYetInitialized),
        }
    }

    /// Raise the watermark to at least `height`: a one-time, idempotent
    /// floor-set that only ever raises, never lowers.
    pub fn set_finalized_da_height_to_at_least(&mut self, height: u64)
        ensures
            final(self)@.messages == old(self)@.messages,
            final(self)@.finalized == match old(self)@.finalized {
                None => Some(height),
                Some(w) => if w < height {
                    Some(height)
                } else {
                    Some(w)
                },
            },
    {
        match self.finalized {
            None => {
                self.finalized = Some(height);
            },
            Some(w) => {
                if w < height {
                    self.finalized = Some(height);
                }
            },
        }
    }

    /// Commit a batch of events and advance the watermark to `new_height` as
    /// one atomic step: no state where only one of the two is visible exists.
    pub fn store_messages(&mut self, msgs: Vec<Message>, new_height: u64)
        requires
            old(self)@.finalized matches Some(w) && w <= new_height,
        ensures
            final(self)@.messages == old(self)@.messages + msgs@.map_values(
                |m: Message| m@,
            ),
            final(self)@.finalized == Some(new_height),
    {
        let ghost premessages = self@.messages;
        let ghost batch = msgs@.map_values(|m: Message| m@);
        let mut i: usize = 0;
        proof {
            assert(self@.messages =~= premessages + batch.take(0));
        }
        while i < msgs.len()
            invariant
                i <= msgs@.len(),
                msgs@.map_values(|m: Message| m@) == batch,
                self@.messages == premessages + batch.take(i as int),
                self@.finalized == old(self)@.finalized,
            decreases msgs@.len() - i,
        {
            let ghost pre = self@.messages;
            self.messages.push(msgs[i].duplicate());
            proof {
                assert(self@.messages =~= pre.push(batch[i as int]));
                assert(premessages + batch.take(i as int + 1) =~= (premessages + batch.take(
                    i as int,
                )).push(batch[i as int]));
            }
            i = i + 1;
        }
        proof {
            assert(batch.take(batch.len() as int) =~= batch);
        }
        self.finalized = Some(new_height);
    }

    /// The event stored for `id`, but only if a reader at `da_height` may see
    /// it: visibility is gated by the caller-supplied height, not by global
    /// sync progress.
    pub fn get_message(&self, id: u64, da_height: u64) -> (r: Option<Message>)
        ensures
            r matches Some(m) ==> visible_message_spec(self@.messages, id, da_height) == Some(m@),
            r is None <==> visible_message_spec(self@.messages, id, da_height) is None,
    {
        let ghost model = self@.messages;
        let mut j: usize = self.messages.len();
        proof {
            assert(model.take(model.len() as int) =~= model);
        }
        while j > 0
            invariant
                j <= self.messages@.len(),
                model == self@.messages,
                lookup_spec(model, id) == lookup_spec(model.take(j as int), id),
            decreases j,
        {
            proof {
                assert(model.take(j as int).last() == model[j - 1]);
                assert(model.take(j as int).drop_last() =~= model.take(j as int - 1));
            }
            let m = &self.messages[j - 1];
            if m.id == id {
                if m.da_height <= da_height {
                    return Some(m.duplicate());
                } else {
                    return None;
                }
            }
            j = j - 1;
        }
        proof {
            assert(model.take(0) =~= Seq::<MessageModel>::empty());
        }
        None
    }

    /// A deep copy, for handing a read-only snapshot to consumers.
    pub fn duplicate(&self) -> (r: Database)
        ensures
            r@ == self@,
    {
        let mut messages: Vec<Message> = Vec::new();
        let mut i: usize = 0;
        while i < self.messages.len()
            invariant
                i <= self.messages@.len(),
                messages@.map_values(|m: Message| m@) == self@.messages.take(i as int),
            decreases self.messages@.len() - i,
        {
            let ghost pre = messages@.map_values(|m: Message| m@);
            messages.push(self.messages[i].duplicate());
            proof {
                assert(messages@.map_values(|m: Message| m@) =~= pre.push(self@.messages[i as int]));
                assert(pre.push(self@.messages[i as int]) =~= self@.messages.take(i as int + 1));
            }
            i = i + 1;
        }
        proof {
            assert(self@.messages.take(self@.messages.len() as int) =~= self@.messages);
        }
        Database { finalized: self.finalized, messages }
    }
}

/// Atomic visibility: a reader asking "as of height `b`" sees the stored
/// event exactly when its recorded height is at most `b`, and a reader just
/// below a committed range `[a, b]` can never see an event from that range.
pub proof fn lemma_height_gated_visibility(s: Seq<MessageModel>, id: u64, a: u64, b: u64)
    requires
        a >= 1,
    ensures
        visible_message_spec(s, id, b) matches Some(m) ==> lookup_spec(s, id) == Some(m)
            && m.da_height <= b,
        lookup_spec(s, id) matches Some(m) ==> (m.da_height <= b ==> visible_message_spec(
            s,
            id,
            b,
        ) == Some(m)),
        visible_message_spec(s, id, (a - 1) as u64) matches Some(m) ==> m.da_height < a,
{
}

} // verus!
