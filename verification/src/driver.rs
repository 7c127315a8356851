//! The backend-agnostic poll driver: it assigns identifiers, owns the
//! operation registry, and matches completion entries back to their
//! registered operations.
use vstd::prelude::*;

use std::collections::VecDeque;

use crate::io_buf::BufResult;
use crate::iour::{Driver, Ring, TimeSpec, CANCEL, EAGAIN, EBUSY, ETIME};
use crate::op::OpCode;
use crate::registry::{RawOp, Registry};

verus! {

/// A completed entry returned from the kernel: the identifier the operation
/// was submitted under, and its result. An error is a positive errno value.
#[derive(Clone, Copy, Debug)]
pub struct Entry {
    /// The identifier assigned by `push`.
    pub user_data: usize,
    /// The operation's result: a nonnegative count on success, a positive
    /// errno value on failure.
    pub result: Result<usize, i64>,
}

impl Entry {
    /// Pack an identifier and a result.
    pub fn new(user_data: usize, result: Result<usize, i64>) -> (r: Entry)
        ensures
            r == (Entry { user_data, result }),
    {
        Entry { user_data, result }
    }

    /// The identifier the completed operation was submitted under.
    pub fn user_data(&self) -> (r: usize)
        ensures
            r == self.user_data,
    {
        self.user_data
    }

    /// The result of the operation.
    pub fn into_result(self) -> (r: Result<usize, i64>)
        ensures
            r == self.result,
    {
        self.result
    }
}

/// An operation recovered from the registry by `pop`, owning its opcode.
pub struct OwnedOperation<O> {
    op: RawOp<O>,
    user_data: usize,
}

impl<O> OwnedOperation<O> {
    /// The owned raw handle.
    pub closed spec fn raw_op_spec(&self) -> RawOp<O> {
        self.op
    }

    /// The identifier the operation was registered under.
    pub closed spec fn user_data_spec(&self) -> usize {
        self.user_data
    }

    /// The owned operation value.
    pub open spec fn op_spec(&self) -> O {
        self.raw_op_spec().op_spec()
    }

    /// Mutable access to the owned raw handle.
    pub fn op_mut(&mut self) -> (r: &mut RawOp<O>)
        ensures
            *r == old(self).raw_op_spec(),
            final(self).raw_op_spec() == *final(r),
            final(self).user_data_spec() == old(self).user_data_spec(),
    {
        &mut self.op
    }

    /// Consume the wrapper and recover the raw handle.
    pub fn into_inner(self) -> (r: RawOp<O>)
        ensures
            r == self.raw_op_spec(),
    {
        self.op
    }

    /// The identifier the operation was registered under.
    pub fn user_data(&self) -> (r: usize)
        ensures
            r == self.user_data_spec(),
    {
        self.user_data
    }
}

/// The backend-agnostic driver: it owns the operation registry, assigns
/// identifiers, stages submissions, and matches completion entries back to
/// their operations.
///
/// `O` is the opcode type the surrounding runtime registers. Exclusive
/// access is required for every operation: one logical event loop drives
/// one driver.
pub struct PollDriver<O: OpCode> {
    driver: Driver,
    ops: Registry<RawOp<O>>,
    squeue: VecDeque<usize>,
}

impl<O: OpCode> PollDriver<O> {
    /// The registered operations, by identifier.
    pub closed spec fn ops_view(&self) -> Map<usize, O> {
        Map::new(
            |id: usize| self.ops.as_map().dom().contains(id),
            |id: usize| self.ops.as_map()[id].op_spec(),
        )
    }

    /// Identifiers pushed and not yet handed to the backend, in order.
    pub closed spec fn pending_spec(&self) -> Seq<usize> {
        self.squeue@
    }

    /// Identifiers the backend has staged for submission, in order.
    pub closed spec fn staged_spec(&self) -> Seq<usize> {
        self.driver.squeue_spec()
    }

    /// Identifiers with a pending cancellation request, in order.
    pub closed spec fn cancel_spec(&self) -> Seq<usize> {
        self.driver.cancel_spec()
    }

    /// How many registry slots have ever been minted.
    pub closed spec fn slot_count(&self) -> nat {
        self.ops.slot_count()
    }

    /// The configured ring size.
    pub closed spec fn ring_entries_spec(&self) -> u32 {
        self.driver.entries_spec()
    }

    /// Whether `id` sits in one of the submission queues.
    pub open spec fn queued(&self, id: usize) -> bool {
        self.pending_spec().contains(id) || self.staged_spec().contains(id)
    }

    /// The registry is well formed and every queued identifier is
    /// registered.
    pub closed spec fn wf(&self) -> bool {
        &&& self.ops.wf()
        &&& forall|i: int|
            0 <= i < self.squeue@.len() ==> self.ops.as_map().dom().contains(
                #[trigger] self.squeue@[i],
            )
        &&& forall|i: int|
            0 <= i < self.driver.squeue_spec().len() ==> self.ops.as_map().dom().contains(
                #[trigger] self.driver.squeue_spec()[i],
            )
    }

    /// A driver with the default submission capacity of 1024 entries.
    pub fn new() -> (r: Self)
        ensures
            r.wf(),
            r.ops_view() == Map::<usize, O>::empty(),
            r.pending_spec().len() == 0,
            r.staged_spec().len() == 0,
            r.cancel_spec().len() == 0,
            r.slot_count() == 0,
            r.ring_entries_spec() == 1024,
    {
        Self::with_entries(1024)
    }

    /// A driver with submission capacity `entries`.
    pub fn with_entries(entries: u32) -> (r: Self)
        ensures
            r.wf(),
            r.ops_view() == Map::<usize, O>::empty(),
            r.pending_spec().len() == 0,
            r.staged_spec().len() == 0,
            r.cancel_spec().len() == 0,
            r.slot_count() == 0,
            r.ring_entries_spec() == entries,
    {
        let r = PollDriver { driver: Driver::new(entries), ops: Registry::new(), squeue: VecDeque::new() };
        proof {
            assert(r.ops_view() =~= Map::<usize, O>::empty());
        }
        r
    }

    /// The configured ring size, for the runtime that creates the kernel
    /// ring.
    pub fn ring_entries(&self) -> (r: u32)
        ensures
            r == self.ring_entries_spec(),
    {
        self.driver.entries()
    }

    /// Register a kernel handle with the backend: a no-op on this backend.
    pub fn attach(&mut self, fd: i32) -> (r: Result<(), i64>)
        ensures
            r is Ok,
            *final(self) == *old(self),
    {
        self.driver.attach(fd)
    }

    /// Request cancellation of the operation registered under `user_data`.
    ///
    /// Cancellation is advisory: the operation may still complete normally,
    /// and its identifier must not be reused until its completion entry is
    /// observed. Cancelling before the corresponding submission is
    /// well-defined, and cancelling an unknown identifier is harmless.
    pub fn cancel(&mut self, user_data: usize)
        requires
            old(self).wf(),
        ensures
            final(self).wf(),
            final(self).cancel_spec() == old(self).cancel_spec().push(user_data),
            final(self).ops_view() == old(self).ops_view(),
            final(self).pending_spec() == old(self).pending_spec(),
            final(self).staged_spec() == old(self).staged_spec(),
            final(self).slot_count() == old(self).slot_count(),
            final(self).ring_entries_spec() == old(self).ring_entries_spec(),
    {
        self.driver.cancel(user_data);
    }

    /// Insert `op` into the registry and stage its fresh identifier for
    /// submission. The identifier is never the reserved `CANCEL` value and
    /// identifies `op` until its completion is popped.
    pub fn push(&mut self, op: O) -> (user_data: usize)
        requires
            old(self).wf(),
            old(self).slot_count() < usize::MAX,
        ensures
            final(self).wf(),
            !old(self).ops_view().dom().contains(user_data),
            !old(self).queued(user_data),
            user_data != CANCEL,
            final(self).ops_view() == old(self).ops_view().insert(user_data, op),
            final(self).pending_spec() == old(self).pending_spec().push(user_data),
            final(self).staged_spec() == old(self).staged_spec(),
            final(self).cancel_spec() == old(self).cancel_spec(),
            final(self).slot_count() <= old(self).slot_count() + 1,
            final(self).ring_entries_spec() == old(self).ring_entries_spec(),
    {
        let ghost pre = *self;
        let user_data = self.ops.insert(RawOp::new(op));
        self.squeue.push_back(user_data);
        proof {
            assert(final(self).ops_view() =~= pre.ops_view().insert(user_data, op));
        }
        user_data
    }

    /// Advance the I/O state machine: hand every pending identifier to the
    /// backend in push order, flush, submit, and collect completion entries
    /// into `entries`. On success nothing is left in any submission queue —
    /// pushing more identifiers than the ring holds only makes the backend
    /// loop, no work is lost — and on an error the identifiers not yet
    /// handed to the kernel stay staged for the next poll. May block up to
    /// `timeout`, or indefinitely without one; a zero timeout is a pure
    /// non-blocking poll. An error is a positive errno value with the
    /// transient busy conditions absorbed and the kernel's timer expiry
    /// reported as the timed-out error. No appended entry carries the
    /// reserved `CANCEL` tag: cancel acknowledgements are discarded.
    pub fn poll<R: Ring>(
        &mut self,
        ring: &mut R,
        timeout: Option<TimeSpec>,
        entries: &mut Vec<Entry>,
    ) -> (r: Result<(), i64>)
        requires
            old(self).wf(),
        ensures
            final(self).wf(),
            final(self).ops_view().dom() == old(self).ops_view().dom(),
            final(self).slot_count() == old(self).slot_count(),
            final(self).ring_entries_spec() == old(self).ring_entries_spec(),
            final(self).pending_spec().len() == 0,
            r is Ok ==> final(self).staged_spec().len() == 0 && final(self).cancel_spec().len()
                == 0,
            r matches Err(e) ==> e != EBUSY && e != EAGAIN && e != ETIME,
            final(entries)@.subrange(0, old(entries)@.len() as int) == old(entries)@,
            forall|i: int|
                old(entries)@.len() <= i < final(entries)@.len()
                    ==> (#[trigger] final(entries)@[i]).user_data != CANCEL,
            exists|k: int|
                0 <= k <= old(self).staged_spec().len() + old(self).pending_spec().len()
                    && final(self).staged_spec() == #[trigger] (old(self).staged_spec() + old(
                    self,
                ).pending_spec()).skip(k),
            exists|k: int|
                0 <= k <= old(self).cancel_spec().len() && final(self).cancel_spec()
                    == #[trigger] old(self).cancel_spec().skip(k),
    {
        let ghost map0 = self.ops.as_map();
        let ghost e0 = self.driver.entries_spec();
        let ghost staged0 = self.driver.squeue_spec();
        let ghost pending0 = self.squeue@;
        loop
            invariant
                map0 == old(self).ops.as_map(),
                e0 == old(self).driver.entries_spec(),
                staged0 == old(self).driver.squeue_spec(),
                pending0 == old(self).squeue@,
                self.ops == old(self).ops,
                self.driver.cancel_spec() == old(self).driver.cancel_spec(),
                self.driver.entries_spec() == e0,
                self.ops.wf(),
                self.driver.squeue_spec() + self.squeue@ == staged0 + pending0,
                forall|i: int|
                    0 <= i < self.squeue@.len() ==> map0.dom().contains(#[trigger] self.squeue@[i]),
                forall|i: int|
                    0 <= i < self.driver.squeue_spec().len() ==> map0.dom().contains(
                        #[trigger] self.driver.squeue_spec()[i],
                    ),
            ensures
                self.squeue@.len() == 0,
                self.ops == old(self).ops,
                self.driver.cancel_spec() == old(self).driver.cancel_spec(),
                self.driver.entries_spec() == e0,
                self.driver.squeue_spec() == staged0 + pending0,
                forall|i: int|
                    0 <= i < self.driver.squeue_spec().len()
                        ==> self.ops.as_map().dom().contains(
                        #[trigger] self.driver.squeue_spec()[i],
                    ),
            decreases self.squeue@.len(),
        {
            match self.squeue.pop_front() {
                Some(user_data) => {
                    self.driver.push(user_data);
                    proof {
                        assert(self.driver.squeue_spec() + self.squeue@ =~= staged0 + pending0);
                    }
                },
                None => {
                    proof {
                        assert(self.driver.squeue_spec() + self.squeue@ =~= self.driver.squeue_spec());
                    }
                    break;
                },
            }
        }
        let ghost staged1 = self.driver.squeue_spec();
        let ghost cancel1 = self.driver.cancel_spec();
        let r = self.driver.poll(timeout, ring, &mut self.ops, entries);
        proof {
            assert(final(self).ops_view().dom() =~= old(self).ops_view().dom());
            let k = choose|k: int|
                0 <= k <= staged1.len() && self.driver.squeue_spec() == #[trigger] staged1.skip(k);
            assert(final(self).staged_spec() == (old(self).staged_spec() + old(
                self,
            ).pending_spec()).skip(k));
            let kc = choose|k: int|
                0 <= k <= cancel1.len() && self.driver.cancel_spec() == #[trigger] cancel1.skip(k);
            assert(final(self).cancel_spec() == old(self).cancel_spec().skip(kc));
        }
        r
    }

    /// For each completion entry, remove its operation from the registry
    /// and pair the entry's result with the owned operation. After this,
    /// each popped identifier is absent from the registry and may be
    /// recycled by a later `push`. An entry whose identifier is not
    /// registered, or is still queued for submission, is a programming
    /// error and is excluded by precondition.
    pub fn pop(&mut self, entries: Vec<Entry>) -> (r: Vec<BufResult<usize, OwnedOperation<O>>>)
        requires
            old(self).wf(),
            forall|i: int|
                0 <= i < entries@.len() ==> old(self).ops_view().dom().contains(
                    (#[trigger] entries@[i]).user_data,
                ),
            forall|i: int, j: int|
                0 <= i < j < entries@.len() ==> entries@[i].user_data != entries@[j].user_data,
            forall|i: int| 0 <= i < entries@.len() ==> !old(self).queued(
                (#[trigger] entries@[i]).user_data,
            ),
        ensures
            final(self).wf(),
            r@.len() == entries@.len(),
            forall|i: int|
                0 <= i < entries@.len() ==> {
                    let e = #[trigger] entries@[i];
                    &&& r@[i].1.user_data_spec() == e.user_data
                    &&& r@[i].1.op_spec() == old(self).ops_view()[e.user_data]
                    &&& r@[i].0 == e.result
                },
            forall|id: usize|
                #[trigger] final(self).ops_view().dom().contains(id) <==> (old(
                    self,
                ).ops_view().dom().contains(id) && !entries@.map_values(
                    |e: Entry| e.user_data,
                ).contains(id)),
            forall|id: usize|
                final(self).ops_view().dom().contains(id)
                    ==> #[trigger] final(self).ops_view()[id] == old(self).ops_view()[id],
            final(self).pending_spec() == old(self).pending_spec(),
            final(self).staged_spec() == old(self).staged_spec(),
            final(self).cancel_spec() == old(self).cancel_spec(),
            final(self).slot_count() == old(self).slot_count(),
            final(self).ring_entries_spec() == old(self).ring_entries_spec(),
    {
        let ghost ids = entries@.map_values(|e: Entry| e.user_data);
        let mut out: Vec<BufResult<usize, OwnedOperation<O>>> = Vec::new();
        let mut i: usize = 0;
        while i < entries.len()
            invariant
                i <= entries@.len(),
                out@.len() == i,
                self.ops.wf(),
                self.ops.slot_count() == old(self).ops.slot_count(),
                self.driver == old(self).driver,
                self.squeue == old(self).squeue,
                ids == entries@.map_values(|e: Entry| e.user_data),
                forall|i_0: int|
                    0 <= i_0 < entries@.len() ==> old(self).ops.as_map().dom().contains(
                        (#[trigger] entries@[i_0]).user_data,
                    ),
                forall|i_0: int, j: int|
                    0 <= i_0 < j < entries@.len() ==> entries@[i_0].user_data
                        != entries@[j].user_data,
                forall|id: usize|
                    #[trigger] self.ops.as_map().dom().contains(id) <==> (old(
                        self,
                    ).ops.as_map().dom().contains(id) && !ids.take(i as int).contains(id)),
                forall|id: usize|
                    self.ops.as_map().dom().contains(id) ==> #[trigger] self.ops.as_map()[id]
                        == old(self).ops.as_map()[id],
                forall|i_0: int|
                    0 <= i_0 < i ==> {
                        let e = #[trigger] entries@[i_0];
                        &&& out@[i_0].1.user_data_spec() == e.user_data
                        &&& out@[i_0].1.op_spec() == old(self).ops.as_map()[e.user_data].op_spec()
                        &&& out@[i_0].0 == e.result
                    },
            decreases entries@.len() - i,
        {
            let e = entries[i];
            proof {
                assert(!ids.take(i as int).contains(e.user_data));
                assert(self.ops.as_map().dom().contains(e.user_data));
            }
            match self.ops.remove(e.user_data) {
                Some(raw) => {
                    out.push(BufResult(e.into_result(), OwnedOperation { op: raw, user_data: e.user_data }));
                },
                None => {
                    // excluded: every popped identifier is registered
                    vstd::pervasive::unreached::<()>()
                },
            }
            i = i + 1;
            proof {
                assert forall|id: usize| #[trigger]
                    self.ops.as_map().dom().contains(id) <==> (old(
                        self,
                    ).ops.as_map().dom().contains(id) && !ids.take(i as int).contains(id)) by {
                    if ids.take(i as int).contains(id) {
                        let j = choose|j: int| 0 <= j < i && #[trigger] ids.take(i as int)[j] == id;
                        assert(ids[j] == id);
                    }
                    if ids.take(i as int - 1).contains(id) {
                        let j = choose|j: int| 0 <= j < i - 1 && #[trigger] ids.take(i as int - 1)[j] == id;
                        assert(ids.take(i as int)[j] == id);
                    }
                    if !ids.take(i as int).contains(id) && old(self).ops.as_map().dom().contains(
                        id,
                    ) {
                        assert(id != e.user_data) by {
                            assert(ids.take(i as int)[i - 1] == e.user_data);
                        }
                    }
                }
            }
        }
        proof {
            assert(ids.take(entries@.len() as int) =~= ids);
            assert forall|i_0: int| 0 <= i_0 < self.squeue@.len() implies self.ops.as_map().dom().contains(
                #[trigger] self.squeue@[i_0],
            ) by {
                assert(old(self).queued(old(self).squeue@[i_0]));
                assert(!ids.contains(old(self).squeue@[i_0]));
            }
            assert forall|i_0: int| 0 <= i_0 < self.driver.squeue_spec().len() implies self.ops.as_map().dom().contains(
                #[trigger] self.driver.squeue_spec()[i_0],
            ) by {
                assert(old(self).queued(old(self).driver.squeue_spec()[i_0]));
                assert(!ids.contains(old(self).driver.squeue_spec()[i_0]));
            }
        }
        out
    }
}

} // verus!
