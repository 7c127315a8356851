use compio::fixed::FixedBuf;
use compio::io_buf::{IoBuf, SetBufInit};
use compio::null::null;
use compio::vectored::{IoIndexedBuf, IoVectoredBuf};
use compio::write::{AsyncWrite, AsyncWriteAt};

#[test]
fn slice_semantics() {
    let buf: &'static [u8] = b"hello world";
    let s = buf.slice(6, 11);
    assert_eq!(s.as_slice(), b"world");
    assert_eq!(s.buf_len(), 5);
    let buf: &'static [u8] = b"hello world";
    let s = buf.slice(0, 5);
    assert_eq!(s.as_slice(), b"hello");
    let buf: &'static [u8] = b"hello world";
    let s = buf.slice(11, 11);
    assert_eq!(s.as_slice(), b"");
    assert_eq!(s.buf_len(), 0);
    assert_eq!(s.buf_capacity(), 0);
}

#[test]
fn slice_round_trip() {
    let v: Vec<u8> = b"hello world".to_vec();
    let s = v.clone().slice(2, 7);
    assert_eq!(s.as_slice(), b"llo w");
    let back = s.into_inner();
    assert_eq!(back, v);
    assert_eq!(back.buf_len(), v.buf_len());
    assert_eq!(back.buf_capacity(), v.buf_capacity());
}

#[test]
fn slice_full_range_exposes_whole_buffer() {
    let v: Vec<u8> = b"abcdef".to_vec();
    let cap = v.buf_capacity();
    let whole = v.as_slice().to_vec();
    let s = v.slice(0, cap);
    assert_eq!(s.as_slice(), &whole[..]);
}

#[test]
fn filled_means_no_uninit_tail() {
    let v: Vec<u8> = b"ab".to_vec();
    assert!(v.filled());
    let f = FixedBuf::with_capacity(3);
    assert!(!f.filled());
    let mut f = FixedBuf::with_capacity(3);
    f.set_buf_init(3);
    assert!(f.filled());
}

#[test]
fn set_buf_init_monotone_on_fixed_buf() {
    let mut f = FixedBuf::with_capacity(10);
    assert_eq!(f.buf_len(), 0);
    f.set_buf_init(4);
    assert_eq!(f.buf_len(), 4);
    f.set_buf_init(2);
    assert_eq!(f.buf_len(), 4);
    f.set_buf_init(7);
    assert_eq!(f.buf_len(), 7);
    f.set_buf_init(10);
    assert_eq!(f.buf_len(), 10);
    assert_eq!(f.buf_capacity(), 10);
}

#[test]
fn slice_of_mutable_buffer_grows_through_window() {
    let mut f = FixedBuf::with_capacity(10);
    f.set_buf_init(2);
    let mut s = f.slice(2, 8);
    assert_eq!(s.buf_len(), 0);
    assert_eq!(s.buf_capacity(), 6);
    s.set_buf_init(4);
    assert_eq!(s.buf_len(), 4);
    let inner = s.into_inner();
    assert_eq!(inner.buf_len(), 6);
    assert_eq!(inner.buf_capacity(), 10);
}

#[test]
fn fixed_buf_from_vec_is_full() {
    let f = FixedBuf::from_vec(b"xyz".to_vec());
    assert_eq!(f.as_slice(), b"xyz");
    assert_eq!(f.buf_len(), 3);
    assert_eq!(f.buf_capacity(), 3);
}

#[test]
fn set_buf_init_set_len_on_flat_buffers() {
    let mut v: Vec<u8> = b"abc".to_vec();
    v.set_buf_init(3);
    assert_eq!(&v[..], b"abc");
    let mut a = [9u8; 4];
    assert_eq!(a.buf_len(), 4);
    assert_eq!(a.buf_capacity(), 4);
    a.set_buf_init(4);
    assert_eq!(a, [9u8; 4]);
}

#[test]
fn vectored_set_buf_init_distributes_greedily() {
    let mut bufs = vec![
        FixedBuf::with_capacity(3),
        FixedBuf::with_capacity(5),
        FixedBuf::with_capacity(4),
    ];
    bufs.set_buf_init(6);
    assert_eq!(bufs[0].buf_len(), 3);
    assert_eq!(bufs[1].buf_len(), 3);
    assert_eq!(bufs[2].buf_len(), 0);
    assert_eq!(bufs[0].buf_len() + bufs[1].buf_len() + bufs[2].buf_len(), 6);
    bufs.set_buf_init(12);
    assert_eq!(bufs[0].buf_len(), 3);
    assert_eq!(bufs[1].buf_len(), 5);
    assert_eq!(bufs[2].buf_len(), 4);
}

#[test]
fn owned_iter_walks_sub_buffers() {
    let bufs = vec![vec![1u8, 2], vec![3, 4]];
    let iter = bufs.owned_iter().unwrap();
    assert_eq!(iter.as_slice(), &[1, 2]);
    let iter = iter.next().unwrap();
    assert_eq!(iter.as_slice(), &[3, 4]);
    let iter = iter.next();
    assert!(iter.is_err());
}

#[test]
fn owned_iter_of_empty_composite_returns_it() {
    let bufs: Vec<Vec<u8>> = Vec::new();
    let r = bufs.owned_iter();
    assert!(r.is_err());
    assert_eq!(r.err().unwrap().len(), 0);
}

#[test]
fn buf_nth_in_and_out_of_range() {
    let bufs = vec![b"ab".to_vec(), b"cde".to_vec()];
    assert_eq!(bufs.buf_count(), 2);
    assert_eq!(bufs.buf_nth(1).unwrap().as_slice(), b"cde");
    assert!(bufs.buf_nth(2).is_none());
    let arr = [b"ab".to_vec(), b"cde".to_vec()];
    assert_eq!(arr.buf_count(), 2);
    assert_eq!(arr.buf_nth(0).unwrap().as_slice(), b"ab");
    assert!(arr.buf_nth(5).is_none());
}

#[test]
fn boxed_slice_conformance() {
    let b: Box<[u8]> = b"abc".to_vec().into_boxed_slice();
    assert_eq!(b.buf_len(), 3);
    assert_eq!(b.buf_capacity(), 3);
    assert_eq!(b.as_slice(), b"abc");
    assert!(b.filled());
}

#[test]
fn static_mut_slice_conformance() {
    let mut s: &'static mut [u8] = Box::leak(b"abcd".to_vec().into_boxed_slice());
    assert_eq!(s.buf_len(), 4);
    assert_eq!(s.buf_capacity(), 4);
    s.set_buf_init(4);
    assert_eq!(s.as_slice(), b"abcd");
}

#[test]
fn string_conformance() {
    let s = String::from("hej");
    assert_eq!(s.buf_len(), 3);
    assert_eq!(s.as_slice(), b"hej");
    assert!(s.filled());
}

#[test]
fn null_buffered_read_is_empty() {
    let mut n = null();
    let buf = n.fill_buf().unwrap();
    assert_eq!(buf, b"");
    n.consume(10);
    assert_eq!(n.fill_buf().unwrap(), b"");
}

#[test]
fn bytes_conformances_expose_held_bytes() {
    let b = bytes::Bytes::from_static(b"abc");
    assert_eq!(b.buf_len(), 3);
    assert_eq!(b.buf_capacity(), 3);
    assert_eq!(b.as_slice(), b"abc");
    assert!(b.filled());
    let mut m = bytes::BytesMut::from(&b"hi"[..]);
    assert_eq!(m.buf_len(), 2);
    assert_eq!(m.as_slice(), b"hi");
    m.set_buf_init(2);
    assert_eq!(m.as_slice(), b"hi");
}

#[test]
fn null_reads_and_writes_nothing() {
    let mut n = null();
    let buf = b"hello".to_vec();
    let r = n.read(buf);
    assert_eq!(r.0.unwrap(), 0);
    assert_eq!(&r.1[..], b"hello");
    let r = n.write(r.1);
    assert_eq!(r.0.unwrap(), 0);
    assert_eq!(&r.1[..], b"hello");
    let r = n.write_vectored(vec![b"a".to_vec(), b"b".to_vec()]);
    assert_eq!(r.0.unwrap(), 0);
    assert_eq!(r.1, vec![b"a".to_vec(), b"b".to_vec()]);
    assert!(n.flush().is_ok());
    assert!(n.shutdown().is_ok());
}

#[test]
fn write_to_vec_appends() {
    let mut out: Vec<u8> = b"start ".to_vec();
    let r = out.write(b"more".to_vec());
    assert_eq!(r.0.unwrap(), 4);
    assert_eq!(&out[..], b"start more");
    let r = out.write_vectored(vec![b"12".to_vec(), b"345".to_vec()]);
    assert_eq!(r.0.unwrap(), 5);
    assert_eq!(&out[..], b"start more12345");
    assert!(out.flush().is_ok());
    assert!(out.shutdown().is_ok());
}

#[test]
fn write_at_splices_and_grows() {
    let mut out: Vec<u8> = b"hello world".to_vec();
    let r = out.write_at(b"HELLO".to_vec(), 0);
    assert_eq!(r.0.unwrap(), 5);
    assert_eq!(&out[..], b"HELLO world");
    let r = out.write_at(b"WIDE WORLD".to_vec(), 6);
    assert_eq!(r.0.unwrap(), 5);
    assert_eq!(&out[..], b"HELLO WIDE WORLD");
}
