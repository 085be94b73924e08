//! Byte buffers of the `bytes` crate.

use crate::size::GetSize;
use crate::tracker::{GetSizeTracker, TrackerState};
use bytes::{Bytes, BytesMut};
use vstd::prelude::*;

verus! {

/// `bytes::Bytes`, a shared slice of bytes.
#[verifier::external_type_specification]
#[verifier::external_body]
pub struct ExBytes(bytes::Bytes);

/// `bytes::BytesMut`, a unique buffer of bytes.
#[verifier::external_type_specification]
#[verifier::external_body]
pub struct ExBytesMut(bytes::BytesMut);

/// The bytes that a `Bytes` holds.
pub uninterp spec fn bytes_contents(bytes: Bytes) -> Seq<u8>;

/// The bytes that a `BytesMut` holds.
pub uninterp spec fn bytes_mut_contents(bytes: BytesMut) -> Seq<u8>;

/// How many bytes `bytes` holds, as `Bytes::len` gives it.
#[verifier::external_body]
fn bytes_len(bytes: &Bytes) -> (len: usize)
    ensures
        len == bytes_contents(*bytes).len(),
{
    bytes.len()
}

/// How many bytes `bytes` holds, as `BytesMut::len` gives it.
#[verifier::external_body]
fn bytes_mut_len(bytes: &BytesMut) -> (len: usize)
    ensures
        len == bytes_mut_contents(*bytes).len(),
{
    bytes.len()
}

impl GetSize for Bytes {
    /// The bytes in view count, one byte each.
    open spec fn heap_size_is(&self, before: TrackerState, bytes: usize, after: TrackerState) -> bool {
        bytes == bytes_contents(*self).len() && after == before
    }

    fn get_heap_size_with_tracker<T: GetSizeTracker>(&self, tracker: T) -> (measured: (usize, T)) {
        (bytes_len(self), tracker)
    }
}

impl GetSize for BytesMut {
    /// The bytes in view count, one byte each.
    open spec fn heap_size_is(&self, before: TrackerState, bytes: usize, after: TrackerState) -> bool {
        bytes == bytes_mut_contents(*self).len() && after == before
    }

    fn get_heap_size_with_tracker<T: GetSizeTracker>(&self, tracker: T) -> (measured: (usize, T)) {
        (bytes_mut_len(self), tracker)
    }
}

} // verus!
