//! The liveness and async bridge: the two primitives through which addon
//! threads interact with the host run loop.
//!
//! A liveness token is an external reference-count contribution: while it is
//! positive, the host run loop must keep the process alive for pending async
//! work. A work sender accepts opaque single-use work items and delivers them
//! to the host run loop in submission order; the real cross-thread transport
//! lives in the unverified host shell, which drains the sender.

use vstd::prelude::*;

verus! {

/// External-liveness reference counter. Ref and unref must be paired by the
/// caller: no saturation or underflow protection is provided beyond the
/// stated preconditions, mirroring the published contract.
pub struct ExternalOpsTracker {
    pub count: u64,
}

impl ExternalOpsTracker {
    /// A counter contributing nothing yet.
    pub fn new() -> (r: Self)
        ensures
            r.count == 0,
    {
        ExternalOpsTracker { count: 0 }
    }

    /// Signal one more outstanding unit of async work.
    pub fn ref_op(&mut self)
        requires
            old(self).count < u64::MAX,
        ensures
            final(self).count == old(self).count + 1,
    {
        self.count = self.count + 1;
    }

    /// Release one outstanding unit of async work.
    pub fn unref_op(&mut self)
        requires
            old(self).count > 0,
        ensures
            final(self).count == old(self).count - 1,
    {
        self.count = self.count - 1;
    }
}

/// Number of refs (`true` entries) in a sequence of ref/unref operations.
pub open spec fn count_refs(ops: Seq<bool>) -> int
    decreases ops.len(),
{
    if ops.len() == 0 {
        0
    } else {
        count_refs(ops.drop_last()) + if ops.last() {
            1int
        } else {
            0int
        }
    }
}

/// Number of unrefs (`false` entries) in a sequence of ref/unref operations.
pub open spec fn count_unrefs(ops: Seq<bool>) -> int {
    ops.len() - count_refs(ops)
}

/// The counter value after applying a sequence of ref (`true`) and unref
/// (`false`) operations to `start`, in order.
pub open spec fn apply_liveness_ops(start: int, ops: Seq<bool>) -> int
    decreases ops.len(),
{
    if ops.len() == 0 {
        start
    } else {
        apply_liveness_ops(start, ops.drop_last()) + if ops.last() {
            1int
        } else {
            -1int
        }
    }
}

/// The counter's final value depends only on how many refs and unrefs were
/// applied, not on their order: each operation contributes +1 or -1.
pub proof fn lemma_liveness_net_effect(start: int, ops: Seq<bool>)
    ensures
        apply_liveness_ops(start, ops) == start + count_refs(ops) - count_unrefs(ops),
    decreases ops.len(),
{
    if ops.len() == 0 {
    } else {
        lemma_liveness_net_effect(start, ops.drop_last());
    }
}

/// Ref/unref calls are commutative in aggregate: any interleaving with as
/// many refs as unrefs — in particular N refs followed by N unrefs — returns
/// the counter contribution to its starting value.
pub proof fn lemma_balanced_ops_return_to_start(start: int, ops: Seq<bool>)
    requires
        count_refs(ops) == count_unrefs(ops),
    ensures
        apply_liveness_ops(start, ops) == start,
{
    lemma_liveness_net_effect(start, ops);
}

/// Cross-thread work transport, modelled as the ordered multiset of submitted
/// and not yet executed work handles. Work submitted from one thread is
/// delivered in submission order (FIFO per submitter); the unverified host
/// shell drains it on the JS thread.
pub struct AsyncWorkSender {
    pub pending: Vec<u64>,
}

impl AsyncWorkSender {
    /// A sender with nothing pending.
    pub fn new() -> (r: Self)
        ensures
            r.pending@ == Seq::<u64>::empty(),
    {
        AsyncWorkSender { pending: Vec::new() }
    }

    /// Submit a unit of work: it is appended to the pending queue and will be
    /// handed out, in order, by `take_next`.
    pub fn spawn(&mut self, work: u64)
        ensures
            final(self).pending@ == old(self).pending@.push(work),
    {
        self.pending.push(work);
    }

    /// Hand out the oldest pending unit of work, if any: the delivery side of
    /// the transport, run by the host loop.
    pub fn take_next(&mut self) -> (r: Option<u64>)
        ensures
            old(self).pending@.len() == 0 ==> r is None
                && final(self).pending@ == old(self).pending@,
            old(self).pending@.len() > 0 ==> r == Some(old(self).pending@[0])
                && final(self).pending@ == old(self).pending@.subrange(
                1,
                old(self).pending@.len() as int,
            ),
    {
        if self.pending.len() == 0 {
            None
        } else {
            let w = self.pending.remove(0);
            proof {
                assert(self.pending@ =~= old(self).pending@.subrange(
                    1,
                    old(self).pending@.len() as int,
                ));
            }
            Some(w)
        }
    }
}

} // verus!
