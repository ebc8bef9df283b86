//! What the library relies on of the `bytes` crate: its two buffer types and the few
//! operations on them that the codecs perform.
//!
//! Verus sees nothing inside a [`BytesMut`] or a [`Bytes`]. Their contents have a name each,
//! [`buffered`] and [`payload`], and every operation is specified over those names.

use bytes::{Bytes, BytesMut};
use vstd::prelude::*;

verus! {

#[verifier::external_type_specification]
#[verifier::external_body]
pub struct ExBytesMut(bytes::BytesMut);

#[verifier::external_type_specification]
#[verifier::external_body]
pub struct ExBytes(bytes::Bytes);

/// The bytes that a `BytesMut` holds, first to last.
pub uninterp spec fn buffered(buf: BytesMut) -> Seq<u8>;

/// The bytes that a `Bytes` holds, first to last.
pub uninterp spec fn payload(bytes: Bytes) -> Seq<u8>;

/// `BytesMut::split_to` cuts a buffer in two: the first `at` bytes are returned, the others
/// stay. It panics if there are fewer than `at` bytes.
pub assume_specification[ BytesMut::split_to ](buf: &mut BytesMut, at: usize) -> (head: BytesMut)
    requires
        at <= buffered(*old(buf)).len(),
    ensures
        buffered(head) == buffered(*old(buf)).take(at as int),
        buffered(*final(buf)) == buffered(*old(buf)).skip(at as int),
;

/// `BytesMut::reserve` makes room for `additional` more bytes and leaves the contents alone.
/// It panics if the buffer would outgrow the largest allocation.
pub assume_specification[ BytesMut::reserve ](buf: &mut BytesMut, additional: usize)
    requires
        buffered(*old(buf)).len() + additional <= isize::MAX,
    ensures
        buffered(*final(buf)) == buffered(*old(buf)),
;

/// `BytesMut::extend_from_slice` appends bytes, with or without room reserved for them. It
/// panics if the buffer would outgrow the largest allocation.
pub assume_specification[ BytesMut::extend_from_slice ](buf: &mut BytesMut, extend: &[u8])
    requires
        buffered(*old(buf)).len() + extend@.len() <= isize::MAX,
    ensures
        buffered(*final(buf)) == buffered(*old(buf)) + extend@,
;

/// `Bytes::new` creates an empty `Bytes`.
pub assume_specification[ Bytes::new ]() -> (bytes: Bytes)
    ensures
        payload(bytes) == Seq::<u8>::empty(),
;

/// `Bytes::extend_from_slice` appends bytes. It panics if the contents would outgrow the
/// largest allocation.
pub assume_specification[ Bytes::extend_from_slice ](bytes: &mut Bytes, extend: &[u8])
    requires
        payload(*old(bytes)).len() + extend@.len() <= isize::MAX,
    ensures
        payload(*final(bytes)) == payload(*old(bytes)) + extend@,
;

/// `<BytesMut as AsRef<[u8]>>::as_ref` lends the contents of a buffer.
#[verifier::external_body]
pub(crate) fn buffer_slice(buf: &BytesMut) -> (slice: &[u8])
    ensures
        slice@ == buffered(*buf),
{
    buf.as_ref()
}

/// `<Bytes as AsRef<[u8]>>::as_ref` lends the contents of a `Bytes`.
#[verifier::external_body]
pub(crate) fn bytes_slice(bytes: &Bytes) -> (slice: &[u8])
    ensures
        slice@ == payload(*bytes),
{
    bytes.as_ref()
}

} // verus!
