//! Ownership contracts for byte buffers lent to I/O operations.
//!
//! A buffer is handed to an operation by value and returned by value when the
//! operation completes, so every trait here works on owned containers. The
//! read side exposes the initialized bytes and the total capacity; the write
//! side adds the length-extension operation `set_buf_init`.
use vstd::prelude::*;

verus! {

/// A result paired with the buffer that accompanied the operation.
///
/// Buffers are owned by value across every operation: they are moved into
/// the call and handed back here, whether the operation succeeded or not.
/// An error is a positive errno value.
pub struct BufResult<T, B>(pub Result<T, i64>, pub B);

/// A buffer whose initialized bytes can be lent to an I/O operation.
///
/// `buf_view` is the sequence of initialized bytes; `capacity_spec` is the
/// total size of the backing storage, including any uninitialized tail.
pub trait IoBuf: Sized {
    /// The initialized bytes of the buffer.
    spec fn buf_view(&self) -> Seq<u8>;

    /// Total size of the buffer, including uninitialized storage, if any.
    spec fn capacity_spec(&self) -> nat;

    /// The initialized region never exceeds the capacity.
    proof fn lemma_len_le_capacity(&self)
        ensures
            self.buf_view().len() <= self.capacity_spec(),
    ;

    /// Number of initialized bytes.
    fn buf_len(&self) -> (r: usize)
        ensures
            r == self.buf_view().len(),
    ;

    /// Total size of the buffer, including uninitialized storage, if any.
    fn buf_capacity(&self) -> (r: usize)
        ensures
            r == self.capacity_spec(),
    ;

    /// The initialized part of the buffer.
    fn as_slice(&self) -> (r: &[u8])
        ensures
            r@ == self.buf_view(),
    ;

    /// A view of the buffer over the range `[begin, end)`, taking ownership
    /// of the buffer.
    fn slice(self, begin: usize, end: usize) -> (r: crate::slice::Slice<Self>)
        requires
            begin <= end,
            end as nat <= self.capacity_spec(),
            begin as nat <= self.buf_view().len(),
        ensures
            r.inner == self,
            r.begin == begin,
            r.end == end,
    {
        crate::slice::Slice { inner: self, begin, end }
    }

    /// Whether the buffer has been filled, that is, the uninitialized
    /// portion is empty.
    fn filled(&self) -> (r: bool)
        ensures
            r == (self.buf_view().len() == self.capacity_spec()),
    {
        self.buf_len() == self.buf_capacity()
    }
}

impl IoBuf for Vec<u8> {
    open spec fn buf_view(&self) -> Seq<u8> {
        self@
    }

    open spec fn capacity_spec(&self) -> nat {
        self@.len()
    }

    proof fn lemma_len_le_capacity(&self) {
    }

    fn buf_len(&self) -> usize {
        self.len()
    }

    fn buf_capacity(&self) -> usize {
        self.len()
    }

    fn as_slice(&self) -> &[u8] {
        self.as_slice()
    }
}

impl IoBuf for Box<[u8]> {
    open spec fn buf_view(&self) -> Seq<u8> {
        self@
    }

    open spec fn capacity_spec(&self) -> nat {
        self@.len()
    }

    proof fn lemma_len_le_capacity(&self) {
    }

    fn buf_len(&self) -> usize {
        let s: &[u8] = &**self;
        s.len()
    }

    fn buf_capacity(&self) -> usize {
        let s: &[u8] = &**self;
        s.len()
    }

    fn as_slice(&self) -> &[u8] {
        &**self
    }
}

impl IoBuf for String {
    open spec fn buf_view(&self) -> Seq<u8> {
        vstd::utf8::encode_utf8(self@)
    }

    open spec fn capacity_spec(&self) -> nat {
        vstd::utf8::encode_utf8(self@).len()
    }

    proof fn lemma_len_le_capacity(&self) {
    }

    fn buf_len(&self) -> usize {
        self.as_str().as_bytes().len()
    }

    fn buf_capacity(&self) -> usize {
        self.as_str().as_bytes().len()
    }

    fn as_slice(&self) -> &[u8] {
        self.as_str().as_bytes()
    }
}

/// Sum of a sequence of sub-buffer capacities.
pub open spec fn total_cap(caps: Seq<nat>) -> nat
    decreases caps.len(),
{
    if caps.len() == 0 {
        0
    } else {
        caps[0] + total_cap(caps.drop_first())
    }
}

/// How one buffer region grows under `set_buf_init(n)`: if `n` exceeds the
/// initialized length, the initialized length becomes exactly `n` and the
/// previously initialized bytes are unchanged; otherwise nothing happens.
pub open spec fn part_grown(before: Seq<u8>, cap: nat, after: Seq<u8>, n: nat) -> bool {
    &&& after.len() == if n > before.len() {
        n
    } else {
        before.len()
    }
    &&& after.subrange(0, before.len() as int) == before
    &&& after.len() <= cap
}

/// What is left of `n` when the regions before `j` have been saturated by
/// the greedy front-to-back distribution.
pub open spec fn greedy_rem(caps: Seq<nat>, n: nat, j: int) -> nat {
    if n > total_cap(caps.take(j)) {
        (n - total_cap(caps.take(j))) as nat
    } else {
        0
    }
}

/// The share region `j` receives when `n` is distributed greedily front to
/// back: each region is saturated with its capacity until the remainder is
/// consumed.
pub open spec fn greedy_amount(caps: Seq<nat>, n: nat, j: int) -> nat {
    if greedy_rem(caps, n, j) >= caps[j] {
        caps[j]
    } else {
        greedy_rem(caps, n, j)
    }
}

/// How a sequence of buffer regions grows under `set_buf_init(n)`: each
/// region grows by its share of the greedy front-to-back distribution of
/// `n`.
pub open spec fn grown_parts(before: Seq<Seq<u8>>, caps: Seq<nat>, after: Seq<Seq<u8>>, n: nat) -> bool {
    &&& caps.len() == before.len()
    &&& after.len() == before.len()
    &&& forall|j: int|
        0 <= j < before.len() ==> part_grown(
            before[j],
            caps[j],
            #[trigger] after[j],
            greedy_amount(caps, n, j),
        )
}

/// Summing capacities one region at a time.
pub proof fn lemma_total_cap_push(caps: Seq<nat>, x: nat)
    ensures
        total_cap(caps.push(x)) == total_cap(caps) + x,
    decreases caps.len(),
{
    if caps.len() == 0 {
        assert(caps.push(x)[0] == x);
        assert(caps.push(x).drop_first() =~= Seq::<nat>::empty());
        assert(total_cap(caps.push(x).drop_first()) == 0);
    } else {
        assert(caps.push(x)[0] == caps[0]);
        assert(caps.push(x).drop_first() =~= caps.drop_first().push(x));
        lemma_total_cap_push(caps.drop_first(), x);
    }
}

/// The greedy distribution's accounting: each region's share is exactly
/// what the remainder drops by, so across all regions the shares sum to
/// the part of `n` that was consumed.
pub proof fn lemma_greedy_accounting(caps: Seq<nat>, n: nat, j: int)
    requires
        0 <= j < caps.len(),
    ensures
        greedy_rem(caps, n, j + 1) == greedy_rem(caps, n, j) - greedy_amount(caps, n, j),
{
    assert(caps.take(j + 1) =~= caps.take(j).push(caps[j]));
    lemma_total_cap_push(caps.take(j), caps[j]);
}

/// A request within the total capacity is consumed completely: nothing of
/// `n` is left once every region has received its share, so the shares of
/// the greedy distribution sum to exactly `n`.
pub proof fn lemma_greedy_consumes_all(caps: Seq<nat>, n: nat)
    requires
        n <= total_cap(caps),
    ensures
        greedy_rem(caps, n, caps.len() as int) == 0,
{
    assert(caps.take(caps.len() as int) =~= caps);
}

/// The length-extension operation of mutable buffers.
///
/// A buffer is a front-to-back sequence of regions (a single region for flat
/// buffers); `set_buf_init(n)` distributes `n` greedily over the regions,
/// raising each region's initialized length and never shrinking one.
pub trait SetBufInit {
    /// The initialized bytes of each region, front to back.
    spec fn init_parts(&self) -> Seq<Seq<u8>>;

    /// The capacity of each region, front to back.
    spec fn cap_parts(&self) -> Seq<nat>;

    /// Declare the first `n` bytes of the buffer initialized. If `n` is less
    /// than the current initialized length, nothing happens.
    fn set_buf_init(&mut self, n: usize)
        requires
            n as nat <= total_cap(old(self).cap_parts()),
        ensures
            grown_parts(old(self).init_parts(), old(self).cap_parts(), final(self).init_parts(), n as nat),
            final(self).cap_parts() == old(self).cap_parts(),
    ;
}

/// A mutable buffer: its single region is the buffer itself.
pub trait IoBufMut: IoBuf + SetBufInit {
    /// A flat mutable buffer consists of exactly one region, whose
    /// initialized bytes and capacity are those of the buffer.
    proof fn lemma_parts_flat(&self)
        ensures
            self.init_parts() == seq![self.buf_view()],
            self.cap_parts() == seq![self.capacity_spec()],
    ;
}

/// What `set_buf_init(n)` does to a flat buffer: the initialized length
/// becomes the maximum of its old value and `n`, the previously initialized
/// bytes are unchanged, and the capacity is unchanged.
pub proof fn lemma_flat_set_buf_init<B: IoBufMut>(pre: &B, post: &B, n: nat)
    requires
        n <= pre.capacity_spec(),
        grown_parts(pre.init_parts(), pre.cap_parts(), post.init_parts(), n),
        post.cap_parts() == pre.cap_parts(),
        post.init_parts() == seq![post.buf_view()],
        pre.init_parts() == seq![pre.buf_view()],
        pre.cap_parts() == seq![pre.capacity_spec()],
    ensures
        post.buf_view().len() == if n > pre.buf_view().len() {
            n
        } else {
            pre.buf_view().len()
        },
        post.buf_view().subrange(0, pre.buf_view().len() as int) == pre.buf_view(),
{
    let caps = pre.cap_parts();
    assert(caps.take(0) =~= Seq::<nat>::empty());
    assert(total_cap(caps.take(0)) == 0);
    assert(greedy_amount(caps, n, 0) == n);
    assert(part_grown(pre.buf_view(), pre.capacity_spec(), post.init_parts()[0], n));
    assert(post.init_parts()[0] == post.buf_view());
}

/// `set_buf_init` is monotone: a second call with a length not above the
/// current initialized length is a no-op, and a call with a length above the
/// current initialized length raises it exactly to that length.
pub proof fn lemma_set_buf_init_monotone(
    b0: Seq<u8>,
    cap: nat,
    b1: Seq<u8>,
    n1: nat,
    b2: Seq<u8>,
    n2: nat,
)
    requires
        part_grown(b0, cap, b1, n1),
        part_grown(b1, cap, b2, n2),
    ensures
        n2 <= b1.len() ==> b2 == b1,
        n1 >= b0.len() ==> b1.len() == n1,
{
    if n2 <= b1.len() {
        assert(b2.len() == b1.len());
        assert(b2.subrange(0, b1.len() as int) == b1);
        assert(b2 =~= b1);
    }
}

impl SetBufInit for Vec<u8> {
    open spec fn init_parts(&self) -> Seq<Seq<u8>> {
        seq![self@]
    }

    open spec fn cap_parts(&self) -> Seq<nat> {
        seq![self@.len()]
    }

    fn set_buf_init(&mut self, n: usize) {
        proof {
            let v = self@;
            let caps = self.cap_parts();
            let parts = self.init_parts();
            assert(caps.drop_first() =~= Seq::<nat>::empty());
            assert(total_cap(caps.drop_first()) == 0);
            assert(total_cap(caps) == v.len());
            assert(caps.take(0) =~= Seq::<nat>::empty());
            assert(total_cap(caps.take(0)) == 0);
            assert(v.subrange(0, v.len() as int) =~= v);
            assert(part_grown(v, v.len(), v, greedy_amount(caps, n as nat, 0)));
            assert(grown_parts(parts, caps, parts, n as nat));
        }
    }
}

impl IoBufMut for Vec<u8> {
    proof fn lemma_parts_flat(&self) {
    }
}

impl<const N: usize> IoBuf for [u8; N] {
    open spec fn buf_view(&self) -> Seq<u8> {
        self@
    }

    open spec fn capacity_spec(&self) -> nat {
        N as nat
    }

    proof fn lemma_len_le_capacity(&self) {
    }

    fn buf_len(&self) -> usize {
        N
    }

    fn buf_capacity(&self) -> usize {
        N
    }

    fn as_slice(&self) -> &[u8] {
        self.as_slice()
    }
}

impl<const N: usize> SetBufInit for [u8; N] {
    open spec fn init_parts(&self) -> Seq<Seq<u8>> {
        seq![self@]
    }

    open spec fn cap_parts(&self) -> Seq<nat> {
        seq![N as nat]
    }

    fn set_buf_init(&mut self, n: usize) {
        proof {
            let v = self@;
            let caps = self.cap_parts();
            let parts = self.init_parts();
            assert(caps.drop_first() =~= Seq::<nat>::empty());
            assert(total_cap(caps.drop_first()) == 0);
            assert(total_cap(caps) == N as nat);
            assert(caps.take(0) =~= Seq::<nat>::empty());
            assert(total_cap(caps.take(0)) == 0);
            assert(v.subrange(0, v.len() as int) =~= v);
            assert(part_grown(v, N as nat, v, greedy_amount(caps, n as nat, 0)));
            assert(grown_parts(parts, caps, parts, n as nat));
        }
    }
}

impl<const N: usize> IoBufMut for [u8; N] {
    proof fn lemma_parts_flat(&self) {
    }
}

impl IoBuf for &'static mut [u8] {
    open spec fn buf_view(&self) -> Seq<u8> {
        (**self)@
    }

    open spec fn capacity_spec(&self) -> nat {
        (**self)@.len()
    }

    proof fn lemma_len_le_capacity(&self) {
    }

    fn buf_len(&self) -> usize {
        let s: &[u8] = &**self;
        s.len()
    }

    fn buf_capacity(&self) -> usize {
        let s: &[u8] = &**self;
        s.len()
    }

    fn as_slice(&self) -> &[u8] {
        &**self
    }
}

impl SetBufInit for &'static mut [u8] {
    open spec fn init_parts(&self) -> Seq<Seq<u8>> {
        seq![(**self)@]
    }

    open spec fn cap_parts(&self) -> Seq<nat> {
        seq![(**self)@.len()]
    }

    fn set_buf_init(&mut self, n: usize) {
        proof {
            let v = (**self)@;
            let caps = self.cap_parts();
            let parts = self.init_parts();
            assert(caps.drop_first() =~= Seq::<nat>::empty());
            assert(total_cap(caps.drop_first()) == 0);
            assert(total_cap(caps) == v.len());
            assert(caps.take(0) =~= Seq::<nat>::empty());
            assert(total_cap(caps.take(0)) == 0);
            assert(v.subrange(0, v.len() as int) =~= v);
            assert(part_grown(v, v.len(), v, greedy_amount(caps, n as nat, 0)));
            assert(grown_parts(parts, caps, parts, n as nat));
        }
    }
}

impl IoBufMut for &'static mut [u8] {
    proof fn lemma_parts_flat(&self) {
    }
}

impl IoBuf for &'static [u8] {
    open spec fn buf_view(&self) -> Seq<u8> {
        self@
    }

    open spec fn capacity_spec(&self) -> nat {
        self@.len()
    }

    proof fn lemma_len_le_capacity(&self) {
    }

    fn buf_len(&self) -> usize {
        self.len()
    }

    fn buf_capacity(&self) -> usize {
        self.len()
    }

    fn as_slice(&self) -> &[u8] {
        self
    }
}

} // verus!
