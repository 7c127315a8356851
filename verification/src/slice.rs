//! A scoped view over a subrange of an owned buffer.
//!
//! `Slice` is similar to slicing a borrowed byte region, but it takes
//! ownership of the buffer, so the view can accompany an I/O operation and
//! the original buffer can be recovered unchanged afterwards.
use vstd::prelude::*;

use crate::io_buf::{
    greedy_amount, lemma_flat_set_buf_init, part_grown, total_cap, IoBuf, IoBufMut, SetBufInit,
};

verus! {

/// The initialized bytes a window `[begin, end)` exposes over the
/// initialized bytes `v` of the underlying buffer.
pub open spec fn slice_window(v: Seq<u8>, begin: nat, end: nat) -> Seq<u8> {
    let hi = if end <= v.len() {
        end
    } else {
        v.len()
    };
    if begin <= hi {
        v.subrange(begin as int, hi as int)
    } else {
        Seq::<u8>::empty()
    }
}

/// The capacity a window `[begin, end)` can actually offer over a buffer
/// of capacity `cap`: the window clipped to the buffer's storage.
pub open spec fn slice_window_cap(cap: nat, begin: nat, end: nat) -> nat {
    let hi = if end <= cap {
        end
    } else {
        cap
    };
    if begin <= hi {
        (hi - begin) as nat
    } else {
        0
    }
}

/// An owned view of the buffer `T` restricted to the window
/// `[begin, end)`. Windows that do not satisfy the construction
/// preconditions of [`Slice::new`] expose an empty view.
pub struct Slice<T> {
    /// The underlying buffer, held unchanged.
    pub inner: T,
    /// The start of the window.
    pub begin: usize,
    /// The end of the window.
    pub end: usize,
}

impl<T> Slice<T> {
    /// Recover the underlying buffer, unchanged.
    pub fn into_inner(self) -> (r: T)
        ensures
            r == self.inner,
    {
        self.inner
    }
}

impl<T: IoBuf> Slice<T> {
    /// Restrict `inner` to the window `[begin, end)`.
    pub fn new(inner: T, begin: usize, end: usize) -> (r: Self)
        requires
            begin <= end,
            end as nat <= inner.capacity_spec(),
            begin as nat <= inner.buf_view().len(),
        ensures
            r.inner == inner,
            r.begin == begin,
            r.end == end,
    {
        Slice { inner, begin, end }
    }
}

/// What a `Slice` exposes: the window over its inner buffer's initialized
/// bytes, and the window's width as its capacity.
pub proof fn lemma_slice_view<T: IoBuf>(s: &Slice<T>)
    ensures
        s.buf_view() == slice_window(s.inner.buf_view(), s.begin as nat, s.end as nat),
        s.capacity_spec() == slice_window_cap(
            s.inner.capacity_spec(),
            s.begin as nat,
            s.end as nat,
        ),
{
}

/// The full window `[0, capacity)` exposes exactly the buffer's initialized
/// bytes.
pub proof fn lemma_slice_full<T: IoBuf>(b: &T)
    ensures
        slice_window(b.buf_view(), 0, b.capacity_spec()) == b.buf_view(),
{
    b.lemma_len_le_capacity();
    assert(slice_window(b.buf_view(), 0, b.capacity_spec()) =~= b.buf_view());
}

impl<T: IoBuf> IoBuf for Slice<T> {
    open spec fn buf_view(&self) -> Seq<u8> {
        slice_window(self.inner.buf_view(), self.begin as nat, self.end as nat)
    }

    open spec fn capacity_spec(&self) -> nat {
        slice_window_cap(self.inner.capacity_spec(), self.begin as nat, self.end as nat)
    }

    proof fn lemma_len_le_capacity(&self) {
        self.inner.lemma_len_le_capacity();
    }

    fn buf_len(&self) -> (r: usize) {
        let l = self.inner.buf_len();
        let hi = if self.end <= l {
            self.end
        } else {
            l
        };
        let lo = if self.begin <= hi {
            self.begin
        } else {
            hi
        };
        hi - lo
    }

    fn buf_capacity(&self) -> usize {
        let icap = self.inner.buf_capacity();
        let hi = if self.end <= icap {
            self.end
        } else {
            icap
        };
        if self.begin <= hi {
            hi - self.begin
        } else {
            0
        }
    }

    fn as_slice(&self) -> (r: &[u8]) {
        let s = self.inner.as_slice();
        let hi = if self.end <= s.len() {
            self.end
        } else {
            s.len()
        };
        let lo = if self.begin <= hi {
            self.begin
        } else {
            hi
        };
        &s[lo..hi]
    }
}

impl<T: IoBufMut> SetBufInit for Slice<T> {
    open spec fn init_parts(&self) -> Seq<Seq<u8>> {
        seq![self.buf_view()]
    }

    open spec fn cap_parts(&self) -> Seq<nat> {
        seq![self.capacity_spec()]
    }

    fn set_buf_init(&mut self, n: usize) {
        proof {
            let caps = old(self).cap_parts();
            assert(caps.drop_first() =~= Seq::<nat>::empty());
            assert(total_cap(caps.drop_first()) == 0);
            assert(total_cap(caps) == old(self).capacity_spec());
        }
        let icap = self.inner.buf_capacity();
        let hi = if self.end <= icap {
            self.end
        } else {
            icap
        };
        let target = if self.begin <= hi {
            self.begin + n
        } else {
            0
        };
        proof {
            self.inner.lemma_parts_flat();
            let ic = self.inner.cap_parts();
            assert(ic.drop_first() =~= Seq::<nat>::empty());
            assert(total_cap(ic.drop_first()) == 0);
            assert(total_cap(ic) == self.inner.capacity_spec());
        }
        let ghost pre = *self;
        self.inner.set_buf_init(target);
        proof {
            let b = pre.begin as nat;
            let e = pre.end as nat;
            let v0 = pre.inner.buf_view();
            let v1 = self.inner.buf_view();
            let icap0 = pre.inner.capacity_spec();
            pre.inner.lemma_parts_flat();
            self.inner.lemma_parts_flat();
            pre.inner.lemma_len_le_capacity();
            lemma_flat_set_buf_init(&pre.inner, &self.inner, target as nat);
            assert(self.inner.capacity_spec() == icap0) by {
                assert(self.inner.cap_parts() == pre.inner.cap_parts());
                assert(self.inner.cap_parts()[0] == self.inner.capacity_spec());
                assert(pre.inner.cap_parts()[0] == icap0);
            }
            assert(self.capacity_spec() == pre.capacity_spec());
            assert(self.cap_parts() =~= pre.cap_parts());
            let w0 = pre.buf_view();
            let w1 = self.buf_view();
            let capw = pre.capacity_spec();
            assert forall|j: int| 0 <= j < v0.len() implies v1[j] == v0[j] by {
                assert(v1.subrange(0, v0.len() as int)[j] == v1[j]);
            }
            if target as nat <= v0.len() {
                assert(v1 =~= v0);
            }
            assert(w1.len() == if n as nat > w0.len() {
                n as nat
            } else {
                w0.len()
            });
            assert(w1.subrange(0, w0.len() as int) =~= w0);
            assert(part_grown(w0, capw, w1, n as nat));
            let caps = pre.cap_parts();
            assert(caps.take(0) =~= Seq::<nat>::empty());
            assert(total_cap(caps.take(0)) == 0);
            assert(greedy_amount(caps, n as nat, 0) == n as nat);
        }
    }
}

impl<T: IoBufMut> IoBufMut for Slice<T> {
    proof fn lemma_parts_flat(&self) {
    }
}

} // verus!
