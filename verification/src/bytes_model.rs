//! What this library assumes of `bytes::BytesMut` and `bytes::Bytes`.
//!
//! Nothing in this file is proved. Each item gives one method of a buffer
//! type the meaning its documentation and source show, over the sequence of
//! bytes that the buffer holds.

use bytes::{Bytes, BytesMut};
use vstd::prelude::*;

verus! {

#[verifier::external_type_specification]
#[verifier::external_body]
pub struct ExBytesMut(BytesMut);

/// The bytes a buffer holds, first to last: what indexing and `len` observe.
pub uninterp spec fn contents(b: BytesMut) -> Seq<u8>;

/// `BytesMut::new` returns a buffer of length zero.
pub assume_specification[ BytesMut::new ]() -> (b: BytesMut)
    ensures
        contents(b) == Seq::<u8>::empty(),
;

/// `BytesMut::with_capacity` returns a buffer of length zero, whatever the
/// capacity asked for.
pub assume_specification[ BytesMut::with_capacity ](capacity: usize) -> (b: BytesMut)
    ensures
        contents(b) == Seq::<u8>::empty(),
;

/// `BytesMut::len` is the number of bytes held.
pub assume_specification[ BytesMut::len ](b: &BytesMut) -> (n: usize)
    ensures
        n == contents(*b).len(),
;

/// `BytesMut::is_empty` tells whether no byte is held.
pub assume_specification[ BytesMut::is_empty ](b: &BytesMut) -> (e: bool)
    ensures
        e == (contents(*b).len() == 0),
;

/// `BytesMut::resize` truncates to `new_len`, or extends to it with copies
/// of `value`.
pub assume_specification[ BytesMut::resize ](b: &mut BytesMut, new_len: usize, value: u8)
    ensures
        new_len <= contents(*old(b)).len() ==> contents(*final(b)) == contents(*old(b)).subrange(
            0,
            new_len as int,
        ),
        new_len > contents(*old(b)).len() ==> contents(*final(b)) == contents(*old(b)) + Seq::new(
            (new_len - contents(*old(b)).len()) as nat,
            |i: int| value,
        ),
;

/// `BytesMut::split_to` hands out the first `at` bytes and keeps the rest.
/// It panics when `at` exceeds the length, which `requires` leaves out.
pub assume_specification[ BytesMut::split_to ](b: &mut BytesMut, at: usize) -> (head: BytesMut)
    requires
        at <= contents(*old(b)).len(),
    ensures
        contents(head) == contents(*old(b)).subrange(0, at as int),
        contents(*final(b)) == contents(*old(b)).subrange(at as int, contents(*old(b)).len() as int),
;

/// `BytesMut::extend_from_slice` appends the slice.
pub assume_specification[ BytesMut::extend_from_slice ](b: &mut BytesMut, extend: &[u8])
    ensures
        contents(*final(b)) == contents(*old(b)) + extend@,
;

/// Overwrites `b[start..end]` with `data` through the buffer's `DerefMut`
/// and `copy_from_slice`; bytes outside that range are untouched. Both panic
/// unless the range lies within the buffer and is as long as `data`.
#[verifier::external_body]
pub(crate) fn overwrite(b: &mut BytesMut, start: usize, end: usize, data: &[u8])
    requires
        start <= end <= contents(*old(b)).len(),
        end - start == data@.len(),
    ensures
        contents(*final(b)) == contents(*old(b)).subrange(0, start as int) + data@
            + contents(*old(b)).subrange(end as int, contents(*old(b)).len() as int),
{
    b[start..end].copy_from_slice(data);
}

#[verifier::external_type_specification]
#[verifier::external_body]
pub struct ExBytes(Bytes);

/// The bytes an immutable buffer holds, first to last.
pub uninterp spec fn payload(b: Bytes) -> Seq<u8>;

/// `Bytes::new` returns a buffer of length zero.
pub assume_specification[ Bytes::new ]() -> (b: Bytes)
    ensures
        payload(b) == Seq::<u8>::empty(),
;

/// `Bytes::copy_from_slice` returns a buffer that holds a copy of the
/// slice.
pub assume_specification[ Bytes::copy_from_slice ](data: &[u8]) -> (b: Bytes)
    ensures
        payload(b) == data@,
;

/// `Bytes::len` is the number of bytes held.
pub assume_specification[ Bytes::len ](b: &Bytes) -> (n: usize)
    ensures
        n == payload(*b).len(),
;

/// `Bytes::is_empty` tells whether no byte is held.
pub assume_specification[ Bytes::is_empty ](b: &Bytes) -> (e: bool)
    ensures
        e == (payload(*b).len() == 0),
;

/// `Bytes::split_to` hands out the first `at` bytes and keeps the rest. It
/// panics when `at` exceeds the length, which `requires` leaves out.
pub assume_specification[ Bytes::split_to ](b: &mut Bytes, at: usize) -> (head: Bytes)
    requires
        at <= payload(*old(b)).len(),
    ensures
        payload(head) == payload(*old(b)).subrange(0, at as int),
        payload(*final(b)) == payload(*old(b)).subrange(at as int, payload(*old(b)).len() as int),
;

/// Appends the bytes of `b`, read through its `Deref`, to `out` with
/// `Vec::extend_from_slice`.
#[verifier::external_body]
pub(crate) fn append_to(out: &mut Vec<u8>, b: &Bytes)
    ensures
        final(out)@ == old(out)@ + payload(*b),
{
    out.extend_from_slice(b);
}

} // verus!
