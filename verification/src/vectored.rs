//! Vectored buffers: owned sequences of sub-buffers lent to one operation
//! together, with an owning cursor and the greedy length-extension over the
//! sub-buffers.
use vstd::prelude::*;

use crate::io_buf::{
    greedy_amount, greedy_rem, grown_parts, lemma_total_cap_push, part_grown, total_cap, IoBuf,
    IoBufMut, SetBufInit,
};

verus! {

/// The initialized bytes of each sub-buffer, front to back.
pub open spec fn parts_of<B: IoBuf>(bufs: Seq<B>) -> Seq<Seq<u8>> {
    bufs.map_values(|b: B| b.buf_view())
}

/// The capacity of each sub-buffer, front to back.
pub open spec fn caps_of<B: IoBuf>(bufs: Seq<B>) -> Seq<nat> {
    bufs.map_values(|b: B| b.capacity_spec())
}

/// A vectored buffer: an owned sequence of sub-buffers handed to one
/// operation together.
pub trait IoVectoredBuf: Sized {
    /// The type of the sub-buffers.
    type Buf: IoBuf;

    /// The sub-buffers, in order.
    spec fn bufs_spec(&self) -> Seq<Self::Buf>;

    /// The number of sub-buffers.
    fn buf_count(&self) -> (r: usize)
        ensures
            r == self.bufs_spec().len(),
    ;
}

/// A vectored buffer with random access to its sub-buffers.
pub trait IoIndexedBuf: IoVectoredBuf {
    /// The sub-buffer at position `n`, or `None` out of range.
    fn buf_nth(&self, n: usize) -> (r: Option<&Self::Buf>)
        ensures
            n < self.bufs_spec().len() ==> (r matches Some(b) && *b == self.bufs_spec()[n as int]),
            n >= self.bufs_spec().len() ==> r is None,
    ;

    /// An owning cursor positioned at the first sub-buffer, or the
    /// composite handed back unchanged when it has no sub-buffers.
    fn owned_iter(self) -> (r: Result<IndexedIter<Self>, Self>)
        ensures
            match r {
                Ok(it) => it.inner == self && it.index == 0 && self.bufs_spec().len() > 0,
                Err(t) => t == self && self.bufs_spec().len() == 0,
            },
    {
        if self.buf_count() > 0 {
            Ok(IndexedIter { inner: self, index: 0 })
        } else {
            Err(self)
        }
    }
}

/// A stateful owning cursor over the sub-buffers of a vectored buffer: it
/// exposes one sub-buffer at a time while keeping ownership of the whole
/// composite, so the composite can be recovered on any path.
pub struct IndexedIter<T> {
    /// The owned composite.
    pub inner: T,
    /// The position of the current sub-buffer.
    pub index: usize,
}

impl<T: IoIndexedBuf> IndexedIter<T> {
    /// A cursor at sub-buffer `n` of `inner`, or the composite handed back
    /// when `n` is out of range.
    pub fn new(inner: T, n: usize) -> (r: Result<Self, T>)
        ensures
            match r {
                Ok(it) => n < inner.bufs_spec().len() && it.inner == inner && it.index == n,
                Err(t) => t == inner && n >= inner.bufs_spec().len(),
            },
    {
        if n < inner.buf_count() {
            Ok(IndexedIter { inner, index: n })
        } else {
            Err(inner)
        }
    }

    /// The initialized bytes of the current sub-buffer.
    pub fn as_slice(&self) -> (r: &[u8])
        requires
            self.index < self.inner.bufs_spec().len(),
        ensures
            r@ == self.inner.bufs_spec()[self.index as int].buf_view(),
    {
        match self.inner.buf_nth(self.index) {
            Some(b) => b.as_slice(),
            None => vstd::pervasive::unreached(),
        }
    }

    /// Advance to the next sub-buffer, or hand the composite back at the
    /// end.
    pub fn next(self) -> (r: Result<Self, T>)
        ensures
            match r {
                Ok(it) => self.index + 1 < self.inner.bufs_spec().len() && it.inner == self.inner
                    && it.index == self.index + 1,
                Err(t) => t == self.inner && self.index as nat + 1 >= self.inner.bufs_spec().len(),
            },
    {
        if self.index < self.inner.buf_count() {
            Self::new(self.inner, self.index + 1)
        } else {
            Err(self.inner)
        }
    }

    /// Recover the composite, unchanged.
    pub fn into_inner(self) -> (r: T)
        ensures
            r == self.inner,
    {
        self.inner
    }
}

impl<T: IoBuf> IoVectoredBuf for Vec<T> {
    type Buf = T;

    open spec fn bufs_spec(&self) -> Seq<T> {
        self@
    }

    fn buf_count(&self) -> usize {
        self.len()
    }
}

impl<T: IoBuf> IoIndexedBuf for Vec<T> {
    fn buf_nth(&self, n: usize) -> Option<&T> {
        if n < self.len() {
            Some(&self[n])
        } else {
            None
        }
    }
}

impl<T: IoBuf, const N: usize> IoVectoredBuf for [T; N] {
    type Buf = T;

    open spec fn bufs_spec(&self) -> Seq<T> {
        self@
    }

    fn buf_count(&self) -> usize {
        N
    }
}

impl<T: IoBuf, const N: usize> IoIndexedBuf for [T; N] {
    fn buf_nth(&self, n: usize) -> Option<&T> {
        if n < N {
            Some(&self[n])
        } else {
            None
        }
    }
}

/// Distribute `n` greedily over the sub-buffers, front to back: saturate
/// each sub-buffer with its capacity until the remainder is consumed, then
/// raise the next sub-buffer's initialized length to the remainder.
pub fn default_set_buf_init<B: IoBufMut>(bufs: &mut Vec<B>, n: usize)
    requires
        n as nat <= total_cap(caps_of(old(bufs)@)),
    ensures
        final(bufs)@.len() == old(bufs)@.len(),
        caps_of(final(bufs)@) == caps_of(old(bufs)@),
        grown_parts(parts_of(old(bufs)@), caps_of(old(bufs)@), parts_of(final(bufs)@), n as nat),
{
    let ghost bufs0 = bufs@;
    let ghost caps0 = caps_of(bufs0);
    proof {
        assert(caps0.take(0) =~= Seq::<nat>::empty());
        assert(total_cap(caps0.take(0)) == 0);
    }
    let mut rem: usize = n;
    let mut i: usize = 0;
    while i < bufs.len()
        invariant
            caps0 == caps_of(bufs0),
            i <= bufs@.len(),
            bufs@.len() == bufs0.len(),
            forall|j: int| i <= j < bufs0.len() ==> bufs@[j] == bufs0[j],
            forall|j: int|
                0 <= j < i ==> part_grown(
                    bufs0[j].buf_view(),
                    caps0[j],
                    (#[trigger] bufs@[j]).buf_view(),
                    greedy_amount(caps0, n as nat, j),
                ),
            forall|j: int|
                0 <= j < bufs0.len() ==> (#[trigger] bufs@[j]).capacity_spec()
                    == bufs0[j].capacity_spec(),
            rem as nat == greedy_rem(caps0, n as nat, i as int),
        decreases bufs0.len() - i,
    {
        let ghost pre_b = bufs@[i as int];
        let ghost rem0 = rem as nat;
        let cap = bufs[i].buf_capacity();
        let b = &mut bufs[i];
        proof {
            b.lemma_parts_flat();
            assert(b.cap_parts().drop_first() =~= Seq::<nat>::empty());
            assert(total_cap(b.cap_parts().drop_first()) == 0);
            assert(total_cap(b.cap_parts()) == b.capacity_spec());
        }
        let ghost m: nat = if rem0 >= cap as nat {
            cap as nat
        } else {
            rem0
        };
        if rem >= cap {
            b.set_buf_init(cap);
            rem = rem - cap;
        } else {
            b.set_buf_init(rem);
            rem = 0;
        }
        proof {
            let new_b = bufs@[i as int];
            new_b.lemma_parts_flat();
            pre_b.lemma_parts_flat();
            let scap = pre_b.cap_parts();
            assert(scap.take(0) =~= Seq::<nat>::empty());
            assert(total_cap(scap.take(0)) == 0);
            assert(greedy_amount(scap, m, 0) == m);
            assert(part_grown(pre_b.buf_view(), pre_b.capacity_spec(), new_b.init_parts()[0], m));
            assert(new_b.init_parts()[0] == new_b.buf_view());
            assert(new_b.cap_parts()[0] == pre_b.cap_parts()[0]);
            assert(new_b.capacity_spec() == pre_b.capacity_spec());
            // the element's share is its greedy share
            assert(caps0[i as int] == pre_b.capacity_spec());
            assert(greedy_amount(caps0, n as nat, i as int) == m);
            // the remainder moves one region forward
            assert(caps0.take(i as int + 1) =~= caps0.take(i as int).push(caps0[i as int]));
            lemma_total_cap_push(caps0.take(i as int), caps0[i as int]);
            assert(rem as nat == greedy_rem(caps0, n as nat, i as int + 1));
        }
        i = i + 1;
    }
    proof {
        assert(caps_of(bufs@) =~= caps0);
        assert(parts_of(bufs@).len() == parts_of(bufs0).len());
        assert forall|j: int| 0 <= j < bufs0.len() implies part_grown(
            parts_of(bufs0)[j],
            caps0[j],
            #[trigger] parts_of(bufs@)[j],
            greedy_amount(caps0, n as nat, j),
        ) by {
            assert(parts_of(bufs0)[j] == bufs0[j].buf_view());
            assert(parts_of(bufs@)[j] == bufs@[j].buf_view());
        }
        assert(grown_parts(parts_of(bufs0), caps0, parts_of(bufs@), n as nat));
    }
}

impl<B: IoBufMut> SetBufInit for Vec<B> {
    open spec fn init_parts(&self) -> Seq<Seq<u8>> {
        parts_of(self@)
    }

    open spec fn cap_parts(&self) -> Seq<nat> {
        caps_of(self@)
    }

    fn set_buf_init(&mut self, n: usize) {
        default_set_buf_init(self, n)
    }
}

/// A mutable vectored buffer: its regions are exactly its sub-buffers.
pub trait IoVectoredBufMut: IoVectoredBuf + SetBufInit {
    /// The regions of the length-extension operation are the sub-buffers,
    /// in order.
    proof fn lemma_parts_vectored(&self)
        ensures
            self.init_parts() == parts_of(self.bufs_spec()),
            self.cap_parts() == caps_of(self.bufs_spec()),
    ;
}

impl<B: IoBufMut> IoVectoredBufMut for Vec<B> {
    proof fn lemma_parts_vectored(&self) {
    }
}

/// A mutable vectored buffer with random access to its sub-buffers.
pub trait IoIndexedBufMut: IoIndexedBuf + IoVectoredBufMut {
    /// The mutable sub-buffer at position `n`, or `None` out of range.
    fn buf_nth_mut(&mut self, n: usize) -> (r: Option<&mut Self::Buf>)
        ensures
            n >= old(self).bufs_spec().len() ==> r is None && final(self).bufs_spec() == old(
                self,
            ).bufs_spec(),
            n < old(self).bufs_spec().len() ==> r is Some && *r.unwrap() == old(self).bufs_spec()[n as int]
                && final(self).bufs_spec() == old(self).bufs_spec().update(
                n as int,
                *final(r.unwrap()),
            ),
    ;
}

impl<B: IoBufMut> IoIndexedBufMut for Vec<B> {
    fn buf_nth_mut(&mut self, n: usize) -> Option<&mut B> {
        if n < self.len() {
            Some(&mut self[n])
        } else {
            None
        }
    }
}

} // verus!
