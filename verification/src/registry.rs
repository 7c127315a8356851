//! The operation registry: a mapping from dense small-integer identifiers to
//! heap-pinned operation handles, with identifiers reused after removal.
use vstd::prelude::*;

use io_uring::squeue;

use crate::op::OpCode;

verus! {

/// An owning, heap-backed handle to a registered operation.
///
/// The opcode is stored behind a heap indirection, so moving the handle does
/// not move the opcode it points to.
pub struct RawOp<O> {
    op: Box<O>,
}

impl<O> RawOp<O> {
    /// The operation the handle owns.
    pub closed spec fn op_spec(&self) -> O {
        *self.op
    }

    /// Allocate a handle owning `op`.
    pub fn new(op: O) -> (r: Self)
        ensures
            r.op_spec() == op,
    {
        RawOp { op: Box::new(op) }
    }

    /// Mutable access to the owned operation.
    pub fn as_dyn_mut(&mut self) -> (r: &mut O)
        ensures
            *r == old(self).op_spec(),
            final(self).op_spec() == *final(r),
    {
        &mut *self.op
    }

    /// Consume the handle and recover the operation by value.
    pub fn into_inner(self) -> (r: O)
        ensures
            r == self.op_spec(),
    {
        *self.op
    }
}

/// A registry of values indexed by dense small-integer identifiers.
///
/// Identifiers of removed values are kept on a free list and reused by later
/// insertions, so identifiers stay small. An identifier is never
/// `usize::MAX`, which the driver reserves for cancellation bookkeeping.
pub struct Registry<T> {
    slots: Vec<Option<T>>,
    free: Vec<usize>,
}

impl<T> Registry<T> {
    /// The free list holds exactly the empty slots, each once.
    pub closed spec fn wf(&self) -> bool {
        &&& forall|j: int|
            0 <= j < self.free@.len() ==> (#[trigger] self.free@[j]) < self.slots@.len()
                && self.slots@[self.free@[j] as int] is None
        &&& forall|j1: int, j2: int|
            0 <= j1 < j2 < self.free@.len() ==> self.free@[j1] != self.free@[j2]
        &&& forall|i: int|
            0 <= i < self.slots@.len() && (#[trigger] self.slots@[i]) is None
                ==> self.free@.contains(i as usize)
    }

    /// The registered values, by identifier.
    pub closed spec fn as_map(&self) -> Map<usize, T> {
        Map::new(
            |id: usize| id < self.slots@.len() && self.slots@[id as int] is Some,
            |id: usize| self.slots@[id as int].unwrap(),
        )
    }

    /// How many slots the registry has ever minted.
    pub closed spec fn slot_count(&self) -> nat {
        self.slots@.len()
    }

    /// An empty registry.
    pub fn new() -> (r: Self)
        ensures
            r.wf(),
            r.as_map() == Map::<usize, T>::empty(),
            r.slot_count() == 0,
    {
        let r = Registry { slots: Vec::new(), free: Vec::new() };
        proof {
            assert(r.as_map() =~= Map::<usize, T>::empty());
        }
        r
    }

    /// Whether `id` is registered.
    pub fn contains(&self, id: usize) -> (r: bool)
        ensures
            r == self.as_map().dom().contains(id),
    {
        id < self.slots.len() && self.slots[id].is_some()
    }

    /// Register `v`, returning its fresh identifier.
    pub fn insert(&mut self, v: T) -> (id: usize)
        requires
            old(self).wf(),
            old(self).slot_count() < usize::MAX,
        ensures
            final(self).wf(),
            !old(self).as_map().dom().contains(id),
            final(self).as_map() == old(self).as_map().insert(id, v),
            id < usize::MAX,
            final(self).slot_count() <= old(self).slot_count() + 1,
    {
        let ghost pre = *self;
        match self.free.pop() {
            Some(id) => {
                let slot = &mut self.slots[id];
                *slot = Some(v);
                proof {
                    assert(final(self).as_map() =~= pre.as_map().insert(id, v));
                    let free0 = pre.free@;
                    let free1 = self.free@;
                    assert(free1 == free0.subrange(0, free0.len() - 1));
                    assert forall|i: int|
                        0 <= i < self.slots@.len() && (#[trigger] self.slots@[i]) is None
                            implies free1.contains(i as usize) by {
                        assert(pre.slots@[i] is None);
                        assert(free0.contains(i as usize));
                        let j = choose|j: int| 0 <= j < free0.len() && free0[j] == i as usize;
                        assert(j != free0.len() - 1);
                        assert(free1[j] == i as usize);
                    }
                }
                id
            },
            None => {
                let id = self.slots.len();
                self.slots.push(Some(v));
                proof {
                    assert(final(self).as_map() =~= pre.as_map().insert(id, v));
                    assert forall|i: int|
                        0 <= i < self.slots@.len() && (#[trigger] self.slots@[i]) is None
                            implies self.free@.contains(i as usize) by {
                        assert(i < pre.slots@.len());
                        assert(pre.free@.contains(i as usize));
                    }
                }
                id
            },
        }
    }

    /// Remove the value registered under `id`, freeing the identifier for
    /// reuse.
    pub fn remove(&mut self, id: usize) -> (r: Option<T>)
        requires
            old(self).wf(),
        ensures
            final(self).wf(),
            final(self).slot_count() == old(self).slot_count(),
            match r {
                Some(v) => old(self).as_map().dom().contains(id) && v == old(self).as_map()[id]
                    && final(self).as_map() == old(self).as_map().remove(id),
                None => !old(self).as_map().dom().contains(id)
                    && final(self).as_map() == old(self).as_map(),
            },
    {
        let ghost pre = *self;
        if id < self.slots.len() {
            let slot = &mut self.slots[id];
            let taken = slot.take();
            match taken {
                Some(v) => {
                    self.free.push(id);
                    proof {
                        assert(final(self).as_map() =~= pre.as_map().remove(id));
                        let free1 = self.free@;
                        assert forall|i: int|
                            0 <= i < self.slots@.len() && (#[trigger] self.slots@[i]) is None
                                implies free1.contains(i as usize) by {
                            if i == id {
                                assert(free1[free1.len() - 1] == id);
                            } else {
                                assert(pre.slots@[i] is None);
                                assert(pre.free@.contains(i as usize));
                                let j = choose|j: int|
                                    0 <= j < pre.free@.len() && pre.free@[j] == i as usize;
                                assert(free1[j] == i as usize);
                            }
                        }
                        assert forall|j: int|
                            0 <= j < free1.len() implies (#[trigger] free1[j]) < self.slots@.len()
                                && self.slots@[free1[j] as int] is None by {
                            if j < pre.free@.len() {
                                assert(pre.free@[j] != id);
                            }
                        }
                    }
                    Some(v)
                },
                None => {
                    proof {
                        assert(final(self).as_map() =~= pre.as_map());
                    }
                    None
                },
            }
        } else {
            None
        }
    }
}

impl<O: OpCode> Registry<RawOp<O>> {
    /// Ask the operation registered under `id` to create its kernel
    /// submission entry. The operation may update itself; everything else in
    /// the registry is unchanged.
    pub fn create_sqe(&mut self, id: usize) -> (r: Option<squeue::Entry>)
        requires
            old(self).wf(),
        ensures
            final(self).wf(),
            final(self).slot_count() == old(self).slot_count(),
            final(self).as_map().dom() == old(self).as_map().dom(),
            forall|k: usize|
                k != id && old(self).as_map().dom().contains(k)
                    ==> final(self).as_map()[k] == old(self).as_map()[k],
            r is Some <==> old(self).as_map().dom().contains(id),
    {
        let ghost pre = *self;
        if id < self.slots.len() {
            let slot = &mut self.slots[id];
            match slot {
                Some(raw) => {
                    let e = raw.as_dyn_mut().create_entry();
                    proof {
                        assert(final(self).as_map().dom() =~= pre.as_map().dom());
                    }
                    Some(e)
                },
                None => {
                    proof {
                        assert(final(self).as_map().dom() =~= pre.as_map().dom());
                    }
                    None
                },
            }
        } else {
            None
        }
    }
}

} // verus!
