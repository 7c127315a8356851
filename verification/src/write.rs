//! Buffer-owning writers: a write takes the buffer by value and hands it
//! back with the count of bytes written.
use vstd::prelude::*;

use crate::io_buf::{BufResult, IoBuf};
use crate::vectored::{IoIndexedBuf, IoVectoredBuf};

verus! {

/// The concatenation of the initialized bytes of a sequence of buffers.
pub open spec fn concat_views<B: IoBuf>(bufs: Seq<B>) -> Seq<u8>
    decreases bufs.len(),
{
    if bufs.len() == 0 {
        Seq::<u8>::empty()
    } else {
        concat_views(bufs.drop_last()) + bufs.last().buf_view()
    }
}

/// A writer that takes ownership of the buffer for the duration of the
/// write and hands it back with the result.
pub trait AsyncWrite {
    /// Write some bytes from `buf` into this writer; the count written and
    /// the buffer come back together.
    fn write<T: IoBuf>(&mut self, buf: T) -> BufResult<usize, T>;

    /// Like `write`, for a vectored buffer, writing the sub-buffers in
    /// order as if they were concatenated.
    fn write_vectored<T: IoIndexedBuf>(&mut self, buf: T) -> BufResult<usize, T>;

    /// Flush any buffered data to its destination.
    fn flush(&mut self) -> Result<(), i64>;

    /// Shut this writer down.
    fn shutdown(&mut self) -> Result<(), i64>;
}

/// Writing to a byte vector appends to it; the vector grows as needed.
impl AsyncWrite for Vec<u8> {
    fn write<T: IoBuf>(&mut self, buf: T) -> (r: BufResult<usize, T>)
        ensures
            final(self)@ == old(self)@ + buf.buf_view(),
            (r.0 matches Ok(n) && n == buf.buf_view().len()),
            r.1 == buf,
    {
        let n = buf.buf_len();
        self.extend_from_slice(buf.as_slice());
        BufResult(Ok(n), buf)
    }

    fn write_vectored<T: IoIndexedBuf>(&mut self, buf: T) -> (r: BufResult<usize, T>)
        ensures
            final(self)@ == old(self)@ + concat_views(buf.bufs_spec()),
            (r.0 matches Ok(n) && n == concat_views(buf.bufs_spec()).len()),
            r.1 == buf,
    {
        let start = self.len();
        let count = buf.buf_count();
        let mut i: usize = 0;
        while i < count
            invariant
                count == buf.bufs_spec().len(),
                i <= count,
                start == old(self)@.len(),
                self@ == old(self)@ + concat_views(buf.bufs_spec().take(i as int)),
            decreases count - i,
        {
            match buf.buf_nth(i) {
                Some(b) => {
                    self.extend_from_slice(b.as_slice());
                },
                None => {
                    // excluded: the index stays below the sub-buffer count
                    vstd::pervasive::unreached::<()>()
                },
            }
            i = i + 1;
            proof {
                assert(buf.bufs_spec().take(i as int).drop_last() =~= buf.bufs_spec().take(
                    i as int - 1,
                ));
                assert(buf.bufs_spec().take(i as int).last() == buf.bufs_spec()[i as int - 1]);
            }
        }
        proof {
            assert(buf.bufs_spec().take(count as int) =~= buf.bufs_spec());
        }
        let n = self.len() - start;
        BufResult(Ok(n), buf)
    }

    fn flush(&mut self) -> (r: Result<(), i64>)
        ensures
            r is Ok,
    {
        Ok(())
    }

    fn shutdown(&mut self) -> (r: Result<(), i64>)
        ensures
            r is Ok,
    {
        Ok(())
    }
}

/// A positioned writer: like [`AsyncWrite`], at a caller-chosen offset.
pub trait AsyncWriteAt {
    /// Whether a write at `pos` is in range for this writer.
    spec fn write_at_req(&self, pos: u64) -> bool;

    /// Write some bytes from `buf` at position `pos`.
    fn write_at<T: IoBuf>(&mut self, buf: T, pos: u64) -> BufResult<usize, T>
        requires
            old(self).write_at_req(pos),
    ;
}

/// Writing to a byte vector at a position overwrites from there and grows
/// the vector with whatever extends past its end.
impl AsyncWriteAt for Vec<u8> {
    open spec fn write_at_req(&self, pos: u64) -> bool {
        pos as nat <= self@.len()
    }

    fn write_at<T: IoBuf>(&mut self, buf: T, pos: u64) -> (r: BufResult<usize, T>)
        ensures
            ({
                let s = buf.buf_view();
                let kept = old(self)@.len() - pos as nat;
                let n: nat = if s.len() < kept {
                    s.len()
                } else {
                    kept as nat
                };
                &&& final(self)@ == old(self)@.subrange(0, pos as int) + s + old(self)@.skip(
                    pos as int + n,
                )
                &&& (r.0 matches Ok(c) && c == n)
                &&& r.1 == buf
            }),
    {
        let pos = pos as usize;
        let slice = buf.as_slice();
        let kept = self.len() - pos;
        let n = if slice.len() < kept {
            slice.len()
        } else {
            kept
        };
        let mut k: usize = 0;
        while k < n
            invariant
                n <= slice@.len(),
                pos + n <= self@.len(),
                k <= n,
                self@.len() == old(self)@.len(),
                self@ == old(self)@.subrange(0, pos as int) + slice@.subrange(0, k as int)
                    + old(self)@.skip(pos as int + k),
            decreases n - k,
        {
            // reading the length pins it below the pointer width, which
            // bounds the index arithmetic
            let cur_len = self.len();
            let idx = pos + k;
            let p = &mut self[idx];
            *p = slice[k];
            k = k + 1;
            proof {
                assert(self@ =~= old(self)@.subrange(0, pos as int) + slice@.subrange(0, k as int)
                    + old(self)@.skip(pos as int + k));
            }
        }
        if n < slice.len() {
            let rest: &[u8] = &slice[n..slice.len()];
            self.extend_from_slice(rest);
            proof {
                assert(old(self)@.skip(pos as int + n as int) =~= Seq::<u8>::empty());
                assert(self@ =~= old(self)@.subrange(0, pos as int) + slice@ + old(self)@.skip(
                    pos as int + n as int,
                ));
            }
        } else {
            proof {
                assert(slice@.subrange(0, n as int) =~= slice@);
            }
        }
        BufResult(Ok(n), buf)
    }
}

} // verus!
