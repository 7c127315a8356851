//! An empty reader and writer: a black hole that reads nothing and accepts
//! nothing.
use vstd::prelude::*;

use crate::io_buf::{BufResult, IoBuf, IoBufMut};
use crate::vectored::IoVectoredBuf;

verus! {

/// An empty reader and writer constructed via [`null`].
#[derive(Debug, Clone, Copy, PartialEq, Eq, Structural, PartialOrd, Ord, Hash)]
pub struct Null {}

impl Null {
    /// Read into `buf`: zero bytes, the buffer handed back unchanged.
    pub fn read<B: IoBufMut>(&mut self, buf: B) -> (r: BufResult<usize, B>)
        ensures
            r.0 == Ok::<usize, i64>(0),
            r.1 == buf,
    {
        BufResult(Ok(0), buf)
    }

    /// The null reader never buffers anything: the filled buffer is empty.
    pub fn fill_buf(&mut self) -> (r: Result<&'static [u8], i64>)
        ensures
            (r matches Ok(s) && s@ == Seq::<u8>::empty()),
    {
        let s: &'static [u8] = &[];
        Ok(s)
    }

    /// Consuming from the empty buffer does nothing.
    pub fn consume(&mut self, amt: usize)
        ensures
            *final(self) == *old(self),
    {
        let _ = amt;
    }

    /// Write from `buf`: zero bytes accepted, the buffer handed back
    /// unchanged.
    pub fn write<T: IoBuf>(&mut self, buf: T) -> (r: BufResult<usize, T>)
        ensures
            r.0 == Ok::<usize, i64>(0),
            r.1 == buf,
    {
        BufResult(Ok(0), buf)
    }

    /// Write from a vectored buffer: zero bytes accepted, the buffer handed
    /// back unchanged.
    pub fn write_vectored<T: IoVectoredBuf>(&mut self, buf: T) -> (r: BufResult<usize, T>)
        ensures
            r.0 == Ok::<usize, i64>(0),
            r.1 == buf,
    {
        BufResult(Ok(0), buf)
    }

    /// Nothing is buffered, so there is nothing to flush.
    pub fn flush(&mut self) -> (r: Result<(), i64>)
        ensures
            r is Ok,
    {
        Ok(())
    }

    /// Shutting the null writer down always succeeds.
    pub fn shutdown(&mut self) -> (r: Result<(), i64>)
        ensures
            r is Ok,
    {
        Ok(())
    }
}

/// Create a new [`Null`] reader and writer which acts like a black hole:
/// every read returns zero bytes and every write accepts zero bytes, with
/// the buffer handed back unchanged.
pub fn null() -> Null {
    Null {  }
}

} // verus!
