//! A buffer over fixed backing storage with an explicit fill cursor.
//!
//! Growable standard containers report their initialized length as their
//! capacity here, because the spare room an allocator granted is not a
//! function of the container's value. `FixedBuf` instead carries its capacity
//! by value: the backing storage is allocated once, and the fill cursor
//! records how many of its bytes count as initialized, so the uninitialized
//! tail of a write-side buffer is modelled exactly.
use vstd::prelude::*;

use crate::io_buf::{grown_parts, part_grown, total_cap, IoBuf, IoBufMut, SetBufInit};

verus! {

/// A byte buffer of fixed capacity whose initialized prefix can grow.
pub struct FixedBuf {
    storage: Vec<u8>,
    init: usize,
}

impl FixedBuf {
    #[verifier::type_invariant]
    spec fn wf(self) -> bool {
        self.init as nat <= self.storage@.len()
    }

    /// An empty buffer over `cap` bytes of fresh storage.
    pub fn with_capacity(cap: usize) -> (r: FixedBuf)
        ensures
            r.buf_view() == Seq::<u8>::empty(),
            r.capacity_spec() == cap as nat,
    {
        let storage: Vec<u8> = vec![0u8; cap];
        proof {
            assert(storage@.take(0) =~= Seq::<u8>::empty());
        }
        FixedBuf { storage, init: 0 }
    }

    /// A fully initialized buffer holding the bytes of `data`.
    pub fn from_vec(data: Vec<u8>) -> (r: FixedBuf)
        ensures
            r.buf_view() == data@,
            r.capacity_spec() == data@.len(),
    {
        let init = data.len();
        proof {
            assert(data@.take(data@.len() as int) =~= data@);
        }
        FixedBuf { storage: data, init }
    }
}

impl IoBuf for FixedBuf {
    closed spec fn buf_view(&self) -> Seq<u8> {
        if self.init as nat <= self.storage@.len() {
            self.storage@.take(self.init as int)
        } else {
            self.storage@
        }
    }

    closed spec fn capacity_spec(&self) -> nat {
        self.storage@.len()
    }

    proof fn lemma_len_le_capacity(&self) {
    }

    fn buf_len(&self) -> usize {
        proof {
            use_type_invariant(&*self);
        }
        self.init
    }

    fn buf_capacity(&self) -> usize {
        self.storage.len()
    }

    fn as_slice(&self) -> &[u8] {
        proof {
            use_type_invariant(&*self);
        }
        let s: &[u8] = self.storage.as_slice();
        proof {
            assert(s@.subrange(0, self.init as int) =~= self.buf_view());
        }
        &s[0..self.init]
    }
}

impl SetBufInit for FixedBuf {
    closed spec fn init_parts(&self) -> Seq<Seq<u8>> {
        seq![self.buf_view()]
    }

    closed spec fn cap_parts(&self) -> Seq<nat> {
        seq![self.capacity_spec()]
    }

    fn set_buf_init(&mut self, n: usize) {
        proof {
            use_type_invariant(&*self);
            let caps = self.cap_parts();
            assert(caps.drop_first() =~= Seq::<nat>::empty());
            assert(total_cap(caps.drop_first()) == 0);
            assert(total_cap(caps) == self.storage@.len());
        }
        let ghost pre = *self;
        if n > self.init {
            self.init = n;
        }
        proof {
            let v0 = pre.buf_view();
            let v1 = self.buf_view();
            let cap = pre.capacity_spec();
            let take: nat = if n as nat >= cap {
                cap
            } else {
                n as nat
            };
            assert(v1.subrange(0, v0.len() as int) =~= v0);
            assert(part_grown(v0, cap, v1, take));
            let parts0 = pre.init_parts();
            let parts1 = self.init_parts();
            assert(parts0.drop_first() =~= Seq::<Seq<u8>>::empty());
            assert(parts1.drop_first() =~= Seq::<Seq<u8>>::empty());
            assert(grown_parts(
                parts0.drop_first(),
                pre.cap_parts().drop_first(),
                parts1.drop_first(),
                (n as nat - take) as nat,
            ));
            assert(grown_parts(parts0, pre.cap_parts(), parts1, n as nat));
            assert(self.cap_parts() =~= pre.cap_parts());
        }
    }
}

impl IoBufMut for FixedBuf {
    proof fn lemma_parts_flat(&self) {
    }
}

} // verus!
