//! The byte buffer that datagrams are read into and frames are written to.
//!
//! The buffer is `bytes::BytesMut`. Each operation that the library uses on it is given here, as
//! a fact about the bytes that the buffer holds.

use vstd::prelude::*;
use bytes::{BufMut, BytesMut};

verus! {

/// The growable byte buffer of the `bytes` crate.
#[verifier::external_type_specification]
#[verifier::external_body]
pub struct ExBytesMut(BytesMut);

/// The bytes that a buffer holds, first byte first.
pub uninterp spec fn contents(buf: BytesMut) -> Seq<u8>;

/// Whether `more` bytes can be added to a buffer that holds `held` bytes: an allocation never
/// exceeds `isize::MAX` bytes, and an empty buffer can take whatever slice there is.
pub open spec fn has_room(held: nat, more: nat) -> bool {
    held == 0 || held + more <= isize::MAX
}

/// `BytesMut::new` gives an empty buffer.
pub assume_specification[ BytesMut::new ]() -> (buf: BytesMut)
    ensures
        contents(buf) == Seq::<u8>::empty(),
;

/// `BytesMut::zeroed` gives a buffer of `len` zero bytes.
pub assume_specification[ BytesMut::zeroed ](len: usize) -> (buf: BytesMut)
    requires
        len <= isize::MAX,
    ensures
        contents(buf) == Seq::new(len as nat, |i: int| 0u8),
;

/// `BytesMut::is_empty` tells whether the buffer holds no byte.
pub assume_specification[ BytesMut::is_empty ](buf: &BytesMut) -> (empty: bool)
    ensures
        empty == (contents(*buf).len() == 0),
;

/// `BytesMut::clear` leaves no byte in the buffer.
pub assume_specification[ BytesMut::clear ](buf: &mut BytesMut)
    ensures
        contents(*final(buf)) == Seq::<u8>::empty(),
;

/// `BufMut::put` on a `BytesMut` adds the bytes of `src` behind those that the buffer holds.
#[verifier::external_body]
pub(crate) fn put(buf: &mut BytesMut, src: &[u8])
    requires
        has_room(contents(*old(buf)).len(), src@.len()),
    ensures
        contents(*final(buf)) == contents(*old(buf)) + src@,
{
    buf.put(src)
}

/// `Extend::extend` on a `BytesMut` adds the bytes of `data` behind those that the buffer holds.
#[verifier::external_body]
pub(crate) fn extend(buf: &mut BytesMut, data: Vec<u8>)
    requires
        has_room(contents(*old(buf)).len(), data@.len()),
    ensures
        contents(*final(buf)) == contents(*old(buf)) + data@,
{
    buf.extend(data)
}

/// `BytesMut::as_ref` gives the slice of the bytes that the buffer holds.
#[verifier::external_body]
pub(crate) fn as_slice(buf: &BytesMut) -> (bytes: &[u8])
    ensures
        bytes@ == contents(*buf),
{
    buf.as_ref()
}

} // verus!
