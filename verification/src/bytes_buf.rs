//! The raw cursor capability for `bytes::Bytes` and `bytes::BytesMut`.
//!
//! `Bytes` is an owned, reference-counted byte sequence and `BytesMut` its
//! growable counterpart; the `bytes::Buf` cursor of each drops bytes from the
//! front as they are consumed. This module gives both a ghost view, wraps the
//! raw primitives the checked vocabulary builds on, and implements [`RawBuf`]
//! so that every checked operation of [`crate::SafeBuf`] is available on
//! values of either type.

use vstd::prelude::*;

use crate::safe_buf::RawBuf;

verus! {

#[verifier::external_type_specification]
#[verifier::external_body]
pub struct ExBytes(bytes::Bytes);

#[verifier::external_type_specification]
#[verifier::external_body]
pub struct ExBytesMut(bytes::BytesMut);

/// The bytes a `bytes::Bytes` value contains, in order.
pub uninterp spec fn bytes_view(b: bytes::Bytes) -> Seq<u8>;

/// The bytes a `bytes::BytesMut` value contains, in order.
pub uninterp spec fn bytes_mut_view(b: bytes::BytesMut) -> Seq<u8>;

/// Relies on `bytes::Bytes::len`: the number of bytes contained in the value.
#[verifier::external_body]
fn bytes_len(b: &bytes::Bytes) -> (n: usize)
    ensures
        n == bytes_view(*b).len(),
{
    b.len()
}

/// Relies on `bytes::Buf::advance` for `Bytes`: discards the first `n` bytes
/// of the value. It panics when `n` exceeds the length, so that case is
/// excluded here.
#[verifier::external_body]
fn bytes_advance(b: &mut bytes::Bytes, n: usize)
    requires
        n <= bytes_view(*old(b)).len(),
    ensures
        bytes_view(*final(b)) == bytes_view(*old(b)).skip(n as int),
{
    bytes::Buf::advance(b, n)
}

/// Relies on `bytes::Bytes::as_ref`: a borrowed slice of all bytes the value
/// contains.
#[verifier::external_body]
fn bytes_as_slice(b: &bytes::Bytes) -> (s: &[u8])
    ensures
        s@ == bytes_view(*b),
{
    b.as_ref()
}

/// Relies on `bytes::Bytes::slice`: an owned handle to the given subrange,
/// sharing the underlying storage. It panics when the range exceeds the
/// length, so that case is excluded here.
#[verifier::external_body]
fn bytes_slice_prefix(b: &bytes::Bytes, len: usize) -> (r: bytes::Bytes)
    requires
        len <= bytes_view(*b).len(),
    ensures
        bytes_view(r) == bytes_view(*b).take(len as int),
{
    b.slice(..len)
}

/// Relies on `bytes::BytesMut::len`: the number of bytes contained in the
/// value.
#[verifier::external_body]
fn bytes_mut_len(b: &bytes::BytesMut) -> (n: usize)
    ensures
        n == bytes_mut_view(*b).len(),
{
    b.len()
}

/// Relies on `bytes::Buf::advance` for `BytesMut`: discards the first `n`
/// bytes of the value. It panics when `n` exceeds the length, so that case is
/// excluded here.
#[verifier::external_body]
fn bytes_mut_advance(b: &mut bytes::BytesMut, n: usize)
    requires
        n <= bytes_mut_view(*old(b)).len(),
    ensures
        bytes_mut_view(*final(b)) == bytes_mut_view(*old(b)).skip(n as int),
{
    bytes::Buf::advance(b, n)
}

/// Relies on `bytes::BytesMut::as_ref`: a borrowed slice of all bytes the
/// value contains.
#[verifier::external_body]
fn bytes_mut_as_slice(b: &bytes::BytesMut) -> (s: &[u8])
    ensures
        s@ == bytes_mut_view(*b),
{
    b.as_ref()
}

/// Relies on `bytes::Bytes::copy_from_slice`: a new owned value holding a
/// copy of the given bytes.
#[verifier::external_body]
fn bytes_copy_from_slice(s: &[u8]) -> (r: bytes::Bytes)
    ensures
        bytes_view(r) == s@,
{
    bytes::Bytes::copy_from_slice(s)
}

/// Copy the first `N` bytes of a slice into an array.
fn array_from_slice_prefix<const N: usize>(s: &[u8]) -> (r: [u8; N])
    requires
        N <= s@.len(),
    ensures
        r@ == s@.take(N as int),
{
    let mut r = [0u8; N];
    let mut i: usize = 0;
    while i < N
        invariant
            i <= N <= s@.len(),
            r@.len() == N,
            forall|j: int| 0 <= j < i ==> r@[j] == s@[j],
        decreases N - i,
    {
        let x = *vstd::slice::slice_index_get(s, i);
        r[i] = x;
        i = i + 1;
    }
    proof {
        assert(r@ =~= s@.take(N as int));
    }
    r
}

impl RawBuf for bytes::Bytes {
    open spec fn contents(&self) -> Seq<u8> {
        bytes_view(*self)
    }

    fn remaining(&self) -> (n: usize) {
        bytes_len(self)
    }

    fn advance(&mut self, n: usize) {
        bytes_advance(self, n)
    }

    fn peek_array<const N: usize>(&self) -> (r: [u8; N]) {
        array_from_slice_prefix(bytes_as_slice(self))
    }

    fn peek_bytes(&self, len: usize) -> (r: bytes::Bytes) {
        bytes_slice_prefix(self, len)
    }
}

impl RawBuf for bytes::BytesMut {
    open spec fn contents(&self) -> Seq<u8> {
        bytes_mut_view(*self)
    }

    fn remaining(&self) -> (n: usize) {
        bytes_mut_len(self)
    }

    fn advance(&mut self, n: usize) {
        bytes_mut_advance(self, n)
    }

    fn peek_array<const N: usize>(&self) -> (r: [u8; N]) {
        array_from_slice_prefix(bytes_mut_as_slice(self))
    }

    fn peek_bytes(&self, len: usize) -> (r: bytes::Bytes) {
        let s = bytes_mut_as_slice(self);
        let prefix = vstd::slice::slice_subrange(s, 0, len);
        proof {
            assert(prefix@ =~= self.contents().take(len as int));
        }
        bytes_copy_from_slice(prefix)
    }
}

} // verus!
