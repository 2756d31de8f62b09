//! The delivery worker's decisions: claiming pending messages, finalising
//! them from the two transport outcomes, and one whole poll cycle.

use crate::message::{same_message, status_forward, Message, MessageStatus};
use vstd::prelude::*;

verus! {

/// Seconds the worker pauses between messages and between polls.
pub const DELIVERY_PAUSE_SECONDS: u64 = 10;

/// The terminal status of one message, from the outcome of its two sends.
pub open spec fn spec_delivery_status(notification_ok: bool, receipt_ok: bool) -> MessageStatus {
    if notification_ok && receipt_ok {
        MessageStatus::Sent
    } else {
        MessageStatus::Failed
    }
}

/// A message is sent only when both the operator notification and the
/// submitter receipt went through; any failed send makes it failed.
pub fn delivery_status(notification_ok: bool, receipt_ok: bool) -> (st: MessageStatus)
    ensures
        st == spec_delivery_status(notification_ok, receipt_ok),
        st is Sent <==> notification_ok && receipt_ok,
        st is Sent || st is Failed,
{
    if notification_ok && receipt_ok {
        MessageStatus::Sent
    } else {
        MessageStatus::Failed
    }
}

/// The model of the persistent message table: rows in store order.
pub struct MessageStore {
    pub messages: Vec<Message>,
}

/// How many of the first `i` rows are pending.
pub open spec fn spec_pending_before(s: Seq<Message>, i: int) -> int
    decreases i,
{
    if i <= 0 {
        0
    } else {
        spec_pending_before(s, i - 1) + if s[i - 1].status is Pending {
            1int
        } else {
            0int
        }
    }
}

/// How many rows of the store are pending.
pub open spec fn spec_pending_count(s: Seq<Message>) -> int {
    spec_pending_before(s, s.len() as int)
}

proof fn lemma_pending_before_monotonic(s: Seq<Message>, i: int, j: int)
    requires
        0 <= i <= j,
    ensures
        spec_pending_before(s, i) <= spec_pending_before(s, j),
        spec_pending_before(s, j) - spec_pending_before(s, i) <= j - i,
        0 <= spec_pending_before(s, i) <= i,
    decreases j - i,
{
    if i < j {
        lemma_pending_before_monotonic(s, i, j - 1);
    } else {
        lemma_pending_before_count_bounds(s, i);
    }
}

proof fn lemma_pending_before_count_bounds(s: Seq<Message>, i: int)
    requires
        0 <= i,
    ensures
        0 <= spec_pending_before(s, i) <= i,
    decreases i,
{
    if i > 0 {
        lemma_pending_before_count_bounds(s, i - 1);
    }
}

impl MessageStore {
    /// Row identifiers are unique, as the store assigns them.
    pub open spec fn wf(self) -> bool {
        forall|i: int, j: int|
            0 <= i < j < self.messages@.len() ==> self.messages@[i].id != self.messages@[j].id
    }

    pub open spec fn len(self) -> int {
        self.messages@.len() as int
    }

    pub fn new() -> (s: Self)
        ensures
            s.wf(),
            s.len() == 0,
    {
        MessageStore { messages: Vec::new() }
    }

    /// Appends a submitted row, as the submission handler does.
    pub fn push_message(&mut self, m: Message)
        requires
            old(self).wf(),
            forall|i: int|
                0 <= i < old(self).messages@.len() ==> old(self).messages@[i].id != m.id,
        ensures
            final(self).wf(),
            final(self).messages@ == old(self).messages@.push(m),
    {
        self.messages.push(m);
    }

    /// Claims one pending row: marks it sending before its mail is handed
    /// off, leaving every other row alone.
    pub fn claim_pending(&mut self, i: usize)
        requires
            old(self).wf(),
            i < old(self).messages@.len(),
            old(self).messages@[i as int].status is Pending,
        ensures
            final(self).wf(),
            final(self).messages@.len() == old(self).messages@.len(),
            same_message(final(self).messages@[i as int], old(self).messages@[i as int]),
            final(self).messages@[i as int].status is Sending,
            status_forward(
                old(self).messages@[i as int].status,
                final(self).messages@[i as int].status,
            ),
            forall|j: int|
                0 <= j < old(self).messages@.len() && j != i ==> final(self).messages@[j] == old(
                    self,
                ).messages@[j],
    {
        let m = &mut self.messages[i];
        m.status = MessageStatus::Sending;
    }

    /// Finalises one claimed row from the outcome of its two sends: sent
    /// only when both went through, failed otherwise, never back to pending.
    pub fn finalize(&mut self, i: usize, notification_ok: bool, receipt_ok: bool)
        requires
            old(self).wf(),
            i < old(self).messages@.len(),
            old(self).messages@[i as int].status is Sending,
        ensures
            final(self).wf(),
            final(self).messages@.len() == old(self).messages@.len(),
            same_message(final(self).messages@[i as int], old(self).messages@[i as int]),
            final(self).messages@[i as int].status == spec_delivery_status(
                notification_ok,
                receipt_ok,
            ),
            status_forward(
                old(self).messages@[i as int].status,
                final(self).messages@[i as int].status,
            ),
            forall|j: int|
                0 <= j < old(self).messages@.len() && j != i ==> final(self).messages@[j] == old(
                    self,
                ).messages@[j],
    {
        let st = delivery_status(notification_ok, receipt_ok);
        let m = &mut self.messages[i];
        m.status = st;
    }

    /// One whole delivery cycle over the store, with the transport outcomes
    /// of the pending messages in store order.
    ///
    /// Every pending row is claimed and finalised exactly once, consuming
    /// exactly its own pair of outcomes; every other row stays untouched; no
    /// row ends pending or sending.
    pub fn process_pending(&mut self, outcomes: &Vec<(bool, bool)>)
        requires
            old(self).wf(),
            outcomes@.len() == spec_pending_count(old(self).messages@),
        ensures
            final(self).wf(),
            final(self).messages@.len() == old(self).messages@.len(),
            forall|i: int|
                0 <= i < old(self).messages@.len() && !(old(self).messages@[i].status is Pending)
                    ==> final(self).messages@[i] == old(self).messages@[i],
            forall|i: int|
                0 <= i < old(self).messages@.len() && old(self).messages@[i].status is Pending
                    ==> {
                    let k = spec_pending_before(old(self).messages@, i);
                    let row = final(self).messages@[i];
                    &&& same_message(row, old(self).messages@[i])
                    &&& row.status == spec_delivery_status(outcomes@[k].0, outcomes@[k].1)
                    &&& (row.status is Sent || row.status is Failed)
                },
    {
        let ghost orig = self.messages@;
        let mut i: usize = 0;
        let mut k: usize = 0;
        while i < self.messages.len()
            invariant
                self.wf(),
                i <= self.messages@.len(),
                self.messages@.len() == orig.len(),
                k == spec_pending_before(orig, i as int),
                outcomes@.len() == spec_pending_count(orig),
                forall|j: int| i <= j < orig.len() ==> self.messages@[j] == orig[j],
                forall|j: int|
                    0 <= j < i && !(orig[j].status is Pending) ==> self.messages@[j] == orig[j],
                forall|j: int|
                    0 <= j < i && orig[j].status is Pending ==> {
                        let k2 = spec_pending_before(orig, j);
                        &&& same_message(self.messages@[j], orig[j])
                        &&& self.messages@[j].status == spec_delivery_status(
                            outcomes@[k2].0,
                            outcomes@[k2].1,
                        )
                        &&& (self.messages@[j].status is Sent || self.messages@[j].status
                            is Failed)
                    },
            decreases self.messages@.len() - i,
        {
            let is_pending = match self.messages[i].status {
                MessageStatus::Pending => true,
                _ => false,
            };
            if is_pending {
                proof {
                    lemma_pending_before_monotonic(orig, i as int + 1, orig.len() as int);
                    lemma_pending_before_count_bounds(orig, i as int);
                }
                self.claim_pending(i);
                let outcome = outcomes[k];
                self.finalize(i, outcome.0, outcome.1);
                k = k + 1;
            }
            i = i + 1;
        }
    }
}

} // verus!
