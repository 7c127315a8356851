//! Buffer conformances for the shared byte containers of the `bytes` crate.
//!
//! The containers are opaque here: what each one holds is named by an
//! uninterpreted view, and the accessors are trusted to expose exactly
//! those bytes. A shared handle exposes no spare allocator capacity, so
//! both report their length as their capacity.
use vstd::prelude::*;

use bytes::{Bytes, BytesMut};

use crate::io_buf::{greedy_amount, grown_parts, part_grown, total_cap, IoBuf, IoBufMut, SetBufInit};

verus! {

/// Shared immutable byte buffer type of the `bytes` crate.
#[verifier::external_type_specification]
#[verifier::external_body]
pub struct ExBytes(Bytes);

/// Unique mutable byte buffer type of the `bytes` crate.
#[verifier::external_type_specification]
#[verifier::external_body]
pub struct ExBytesMut(BytesMut);

/// The bytes a `Bytes` handle holds.
pub uninterp spec fn bytes_view(b: Bytes) -> Seq<u8>;

/// The bytes a `BytesMut` handle holds.
pub uninterp spec fn bytes_mut_view(b: BytesMut) -> Seq<u8>;

/// Relies on `Bytes::len`: the number of bytes the handle holds.
#[verifier::external_body]
fn bytes_len(b: &Bytes) -> (r: usize)
    ensures
        r == bytes_view(*b).len(),
{
    b.len()
}

/// Relies on `<Bytes as AsRef<[u8]>>::as_ref`: exactly the bytes the
/// handle holds.
#[verifier::external_body]
fn bytes_as_slice(b: &Bytes) -> (r: &[u8])
    ensures
        r@ == bytes_view(*b),
{
    b.as_ref()
}

/// Relies on `BytesMut::len`: the number of bytes the handle holds.
#[verifier::external_body]
fn bytes_mut_len(b: &BytesMut) -> (r: usize)
    ensures
        r == bytes_mut_view(*b).len(),
{
    b.len()
}

/// Relies on `<BytesMut as AsRef<[u8]>>::as_ref`: exactly the bytes the
/// handle holds.
#[verifier::external_body]
fn bytes_mut_as_slice(b: &BytesMut) -> (r: &[u8])
    ensures
        r@ == bytes_mut_view(*b),
{
    b.as_ref()
}

impl IoBuf for Bytes {
    open spec fn buf_view(&self) -> Seq<u8> {
        bytes_view(*self)
    }

    open spec fn capacity_spec(&self) -> nat {
        bytes_view(*self).len()
    }

    proof fn lemma_len_le_capacity(&self) {
    }

    fn buf_len(&self) -> usize {
        bytes_len(self)
    }

    fn buf_capacity(&self) -> usize {
        bytes_len(self)
    }

    fn as_slice(&self) -> &[u8] {
        bytes_as_slice(self)
    }
}

impl IoBuf for BytesMut {
    open spec fn buf_view(&self) -> Seq<u8> {
        bytes_mut_view(*self)
    }

    open spec fn capacity_spec(&self) -> nat {
        bytes_mut_view(*self).len()
    }

    proof fn lemma_len_le_capacity(&self) {
    }

    fn buf_len(&self) -> usize {
        bytes_mut_len(self)
    }

    fn buf_capacity(&self) -> usize {
        bytes_mut_len(self)
    }

    fn as_slice(&self) -> &[u8] {
        bytes_mut_as_slice(self)
    }
}

impl SetBufInit for BytesMut {
    open spec fn init_parts(&self) -> Seq<Seq<u8>> {
        seq![self.buf_view()]
    }

    open spec fn cap_parts(&self) -> Seq<nat> {
        seq![self.capacity_spec()]
    }

    fn set_buf_init(&mut self, n: usize) {
        proof {
            let v = bytes_mut_view(*self);
            let caps = self.cap_parts();
            let parts = self.init_parts();
            assert(caps.drop_first() =~= Seq::<nat>::empty());
            assert(total_cap(caps.drop_first()) == 0);
            assert(total_cap(caps) == v.len());
            assert(caps.take(0) =~= Seq::<nat>::empty());
            assert(total_cap(caps.take(0)) == 0);
            assert(v.subrange(0, v.len() as int) =~= v);
            assert(part_grown(v, v.len(), v, greedy_amount(caps, n as nat, 0)));
            assert(grown_parts(parts, caps, parts, n as nat));
        }
    }
}

impl IoBufMut for BytesMut {
    proof fn lemma_parts_flat(&self) {
    }
}

} // verus!
