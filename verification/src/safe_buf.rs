//! The checked reading vocabulary, layered over any raw byte cursor.
//!
//! [`RawBuf`] is the raw capability a cursor type must expose: a ghost view of
//! its unread bytes, the count of those bytes, an advance primitive, and two
//! non-advancing copies. [`SafeBuf`] is the checked vocabulary every such type
//! gains through a blanket implementation: each operation either consumes
//! exactly the bytes its contract reports, or fails and leaves the cursor
//! byte-for-byte unchanged.

use vstd::prelude::*;

use crate::bytes_buf::bytes_view;
use crate::error::{ExtraneousBytes, Truncated};
use crate::num::{be_val, be_val_of_array, le_val, le_val_of_array, pow256, signed_val};
use crate::num::{lemma_be_val_bound, lemma_le_val_bound};
use crate::num::{to_i128, to_i16, to_i32, to_i64, to_i8};

verus! {

/// The raw capability a byte cursor exposes: a count of unread bytes, an
/// advance primitive, and non-advancing copies of a prefix.
///
/// `advance`, `peek_array` and `peek_bytes` demand that enough bytes remain;
/// the checked vocabulary of [`SafeBuf`] never calls them without first
/// verifying that.
pub trait RawBuf: Sized {
    /// The unread bytes of the cursor, in order.
    spec fn contents(&self) -> Seq<u8>;

    /// The number of unread bytes.
    fn remaining(&self) -> (n: usize)
        ensures
            n == self.contents().len(),
    ;

    /// Discard the next `n` unread bytes.
    fn advance(&mut self, n: usize)
        requires
            n <= old(self).contents().len(),
        ensures
            final(self).contents() == old(self).contents().skip(n as int),
    ;

    /// Copy the next `N` unread bytes into an array, without advancing.
    fn peek_array<const N: usize>(&self) -> (r: [u8; N])
        requires
            N <= self.contents().len(),
        ensures
            r@ == self.contents().take(N as int),
    ;

    /// Copy the next `len` unread bytes into an owned, shareable byte
    /// sequence, without advancing.
    fn peek_bytes(&self, len: usize) -> (r: bytes::Bytes)
        requires
            len <= self.contents().len(),
        ensures
            bytes_view(r) == self.contents().take(len as int),
    ;
}

/// A type that can construct itself by consuming bytes from a cursor.
///
/// An implementation must consume exactly the bytes of its own encoded
/// representation: the cursor it is handed comes back with some prefix
/// removed and nothing else changed. The bound is the raw capability alone,
/// but the blanket implementation of [`SafeBuf`] puts the whole checked
/// vocabulary on `buf`.
pub trait FromBuf: Sized {
    /// Construct a value by reading from the front of `buf`.
    fn from_buf<B: RawBuf>(buf: &mut B) -> (r: crate::Result<Self>)
        ensures
            exists|n: int|
                0 <= n <= old(buf).contents().len()
                    && final(buf).contents() == old(buf).contents().skip(n),
    ;
}

/// Checked, non-panicking reads over any [`RawBuf`].
///
/// Every type with the raw capability gains this whole vocabulary through the
/// blanket implementation; no per-type opt-in is needed.
pub trait SafeBuf: RawBuf {
    /// Peek at the next `N` bytes without advancing, with a bounds check.
    ///
    /// Returns `Truncated` and leaves the cursor unchanged when fewer than
    /// `N` bytes remain.
    fn try_peek_const<const N: usize>(&mut self) -> (r: Result<[u8; N], Truncated>)
        ensures
            final(self).contents() == old(self).contents(),
            old(self).contents().len() >= N
                ==> (r matches Ok(a) && a@ == old(self).contents().take(N as int)),
            old(self).contents().len() < N ==> r == Err::<[u8; N], Truncated>(Truncated),
    ;

    /// Take the next `N` bytes, with a bounds check.
    ///
    /// Behaves exactly as [`SafeBuf::try_peek_const`] followed by an advance
    /// of `N`; returns `Truncated` and leaves the cursor unchanged when fewer
    /// than `N` bytes remain.
    fn try_take_const<const N: usize>(&mut self) -> (r: Result<[u8; N], Truncated>)
        ensures
            old(self).contents().len() >= N
                ==> (r matches Ok(a) && a@ == old(self).contents().take(N as int)
                    && final(self).contents() == old(self).contents().skip(N as int)),
            old(self).contents().len() < N
                ==> (r == Err::<[u8; N], Truncated>(Truncated)
                    && final(self).contents() == old(self).contents()),
    ;

    /// Peek at the next `len` bytes without advancing, with a bounds check.
    ///
    /// Returns `Truncated` and leaves the cursor unchanged when fewer than
    /// `len` bytes remain.
    fn try_peek(&mut self, len: usize) -> (r: Result<bytes::Bytes, Truncated>)
        ensures
            final(self).contents() == old(self).contents(),
            old(self).contents().len() >= len
                ==> (r matches Ok(b) && bytes_view(b) == old(self).contents().take(len as int)),
            old(self).contents().len() < len ==> r == Err::<bytes::Bytes, Truncated>(Truncated),
    ;

    /// Take the next `len` bytes, with a bounds check.
    ///
    /// Behaves exactly as [`SafeBuf::try_peek`] followed by an advance of
    /// `len`; returns `Truncated` and leaves the cursor unchanged when fewer
    /// than `len` bytes remain.
    fn try_take(&mut self, len: usize) -> (r: Result<bytes::Bytes, Truncated>)
        ensures
            old(self).contents().len() >= len
                ==> (r matches Ok(b) && bytes_view(b) == old(self).contents().take(len as int)
                    && final(self).contents() == old(self).contents().skip(len as int)),
            old(self).contents().len() < len
                ==> (r == Err::<bytes::Bytes, Truncated>(Truncated)
                    && final(self).contents() == old(self).contents()),
    ;

    /// Read the next `N` bytes as one unsigned big-endian integer, with a
    /// bounds check.
    ///
    /// This is the single generic checked integer read; the per-width getters
    /// delegate to it. Returns `Truncated` and leaves the cursor unchanged
    /// when fewer than `N` bytes remain.
    fn try_get_be<const N: usize>(&mut self) -> (r: Result<u128, Truncated>)
        requires
            N <= 16,
        ensures
            old(self).contents().len() >= N
                ==> (r matches Ok(v) && v == be_val(old(self).contents().take(N as int))
                    && final(self).contents() == old(self).contents().skip(N as int)),
            old(self).contents().len() < N
                ==> (r == Err::<u128, Truncated>(Truncated)
                    && final(self).contents() == old(self).contents()),
    ;

    /// Read the next `N` bytes as one unsigned little-endian integer, with a
    /// bounds check.
    ///
    /// This is the single generic checked integer read; the per-width getters
    /// delegate to it. Returns `Truncated` and leaves the cursor unchanged
    /// when fewer than `N` bytes remain.
    fn try_get_le<const N: usize>(&mut self) -> (r: Result<u128, Truncated>)
        requires
            N <= 16,
        ensures
            old(self).contents().len() >= N
                ==> (r matches Ok(v) && v == le_val(old(self).contents().take(N as int))
                    && final(self).contents() == old(self).contents().skip(N as int)),
            old(self).contents().len() < N
                ==> (r == Err::<u128, Truncated>(Truncated)
                    && final(self).contents() == old(self).contents()),
    ;

    /// Read a one-byte `u8` from the front of the cursor, with a bounds
    /// check.
    ///
    /// Returns `Truncated` and leaves the cursor unchanged when fewer than
    /// 1 byte remains.
    fn try_get_u8(&mut self) -> (r: Result<u8, Truncated>)
        ensures
            old(self).contents().len() >= 1
                ==> (r matches Ok(v) && v == be_val(old(self).contents().take(1))
                    && final(self).contents() == old(self).contents().skip(1)),
            old(self).contents().len() < 1
                ==> (r == Err::<u8, Truncated>(Truncated)
                    && final(self).contents() == old(self).contents()),
    ;

    /// Read a one-byte `i8` from the front of the cursor, with a bounds
    /// check.
    ///
    /// Returns `Truncated` and leaves the cursor unchanged when fewer than
    /// 1 byte remains.
    fn try_get_i8(&mut self) -> (r: Result<i8, Truncated>)
        ensures
            old(self).contents().len() >= 1
                ==> (r matches Ok(v) && v as int == signed_val(be_val(old(self).contents().take(1)), 1)
                    && final(self).contents() == old(self).contents().skip(1)),
            old(self).contents().len() < 1
                ==> (r == Err::<i8, Truncated>(Truncated)
                    && final(self).contents() == old(self).contents()),
    ;

    /// Read a big-endian `u16` from the front of the cursor, with a bounds
    /// check.
    ///
    /// Returns `Truncated` and leaves the cursor unchanged when fewer than
    /// 2 bytes remain.
    fn try_get_u16(&mut self) -> (r: Result<u16, Truncated>)
        ensures
            old(self).contents().len() >= 2
                ==> (r matches Ok(v) && v == be_val(old(self).contents().take(2))
                    && final(self).contents() == old(self).contents().skip(2)),
            old(self).contents().len() < 2
                ==> (r == Err::<u16, Truncated>(Truncated)
                    && final(self).contents() == old(self).contents()),
    ;

    /// Read a big-endian `u32` from the front of the cursor, with a bounds
    /// check.
    ///
    /// Returns `Truncated` and leaves the cursor unchanged when fewer than
    /// 4 bytes remain.
    fn try_get_u32(&mut self) -> (r: Result<u32, Truncated>)
        ensures
            old(self).contents().len() >= 4
                ==> (r matches Ok(v) && v == be_val(old(self).contents().take(4))
                    && final(self).contents() == old(self).contents().skip(4)),
            old(self).contents().len() < 4
                ==> (r == Err::<u32, Truncated>(Truncated)
                    && final(self).contents() == old(self).contents()),
    ;

    /// Read a big-endian `u64` from the front of the cursor, with a bounds
    /// check.
    ///
    /// Returns `Truncated` and leaves the cursor unchanged when fewer than
    /// 8 bytes remain.
    fn try_get_u64(&mut self) -> (r: Result<u64, Truncated>)
        ensures
            old(self).contents().len() >= 8
                ==> (r matches Ok(v) && v == be_val(old(self).contents().take(8))
                    && final(self).contents() == old(self).contents().skip(8)),
            old(self).contents().len() < 8
                ==> (r == Err::<u64, Truncated>(Truncated)
                    && final(self).contents() == old(self).contents()),
    ;

    /// Read a big-endian `u128` from the front of the cursor, with a bounds
    /// check.
    ///
    /// Returns `Truncated` and leaves the cursor unchanged when fewer than
    /// 16 bytes remain.
    fn try_get_u128(&mut self) -> (r: Result<u128, Truncated>)
        ensures
            old(self).contents().len() >= 16
                ==> (r matches Ok(v) && v == be_val(old(self).contents().take(16))
                    && final(self).contents() == old(self).contents().skip(16)),
            old(self).contents().len() < 16
                ==> (r == Err::<u128, Truncated>(Truncated)
                    && final(self).contents() == old(self).contents()),
    ;

    /// Read a big-endian `i16` from the front of the cursor, with a bounds
    /// check.
    ///
    /// Returns `Truncated` and leaves the cursor unchanged when fewer than
    /// 2 bytes remain.
    fn try_get_i16(&mut self) -> (r: Result<i16, Truncated>)
        ensures
            old(self).contents().len() >= 2
                ==> (r matches Ok(v) && v as int == signed_val(be_val(old(self).contents().take(2)), 2)
                    && final(self).contents() == old(self).contents().skip(2)),
            old(self).contents().len() < 2
                ==> (r == Err::<i16, Truncated>(Truncated)
                    && final(self).contents() == old(self).contents()),
    ;

    /// Read a big-endian `i32` from the front of the cursor, with a bounds
    /// check.
    ///
    /// Returns `Truncated` and leaves the cursor unchanged when fewer than
    /// 4 bytes remain.
    fn try_get_i32(&mut self) -> (r: Result<i32, Truncated>)
        ensures
            old(self).contents().len() >= 4
                ==> (r matches Ok(v) && v as int == signed_val(be_val(old(self).contents().take(4)), 4)
                    && final(self).contents() == old(self).contents().skip(4)),
            old(self).contents().len() < 4
                ==> (r == Err::<i32, Truncated>(Truncated)
                    && final(self).contents() == old(self).contents()),
    ;

    /// Read a big-endian `i64` from the front of the cursor, with a bounds
    /// check.
    ///
    /// Returns `Truncated` and leaves the cursor unchanged when fewer than
    /// 8 bytes remain.
    fn try_get_i64(&mut self) -> (r: Result<i64, Truncated>)
        ensures
            old(self).contents().len() >= 8
                ==> (r matches Ok(v) && v as int == signed_val(be_val(old(self).contents().take(8)), 8)
                    && final(self).contents() == old(self).contents().skip(8)),
            old(self).contents().len() < 8
                ==> (r == Err::<i64, Truncated>(Truncated)
                    && final(self).contents() == old(self).contents()),
    ;

    /// Read a big-endian `i128` from the front of the cursor, with a bounds
    /// check.
    ///
    /// Returns `Truncated` and leaves the cursor unchanged when fewer than
    /// 16 bytes remain.
    fn try_get_i128(&mut self) -> (r: Result<i128, Truncated>)
        ensures
            old(self).contents().len() >= 16
                ==> (r matches Ok(v) && v as int == signed_val(be_val(old(self).contents().take(16)), 16)
                    && final(self).contents() == old(self).contents().skip(16)),
            old(self).contents().len() < 16
                ==> (r == Err::<i128, Truncated>(Truncated)
                    && final(self).contents() == old(self).contents()),
    ;

    /// Read a little-endian `u16` from the front of the cursor, with a bounds
    /// check.
    ///
    /// Returns `Truncated` and leaves the cursor unchanged when fewer than
    /// 2 bytes remain.
    fn try_get_u16_le(&mut self) -> (r: Result<u16, Truncated>)
        ensures
            old(self).contents().len() >= 2
                ==> (r matches Ok(v) && v == le_val(old(self).contents().take(2))
                    && final(self).contents() == old(self).contents().skip(2)),
            old(self).contents().len() < 2
                ==> (r == Err::<u16, Truncated>(Truncated)
                    && final(self).contents() == old(self).contents()),
    ;

    /// Read a little-endian `u32` from the front of the cursor, with a bounds
    /// check.
    ///
    /// Returns `Truncated` and leaves the cursor unchanged when fewer than
    /// 4 bytes remain.
    fn try_get_u32_le(&mut self) -> (r: Result<u32, Truncated>)
        ensures
            old(self).contents().len() >= 4
                ==> (r matches Ok(v) && v == le_val(old(self).contents().take(4))
                    && final(self).contents() == old(self).contents().skip(4)),
            old(self).contents().len() < 4
                ==> (r == Err::<u32, Truncated>(Truncated)
                    && final(self).contents() == old(self).contents()),
    ;

    /// Read a little-endian `u64` from the front of the cursor, with a bounds
    /// check.
    ///
    /// Returns `Truncated` and leaves the cursor unchanged when fewer than
    /// 8 bytes remain.
    fn try_get_u64_le(&mut self) -> (r: Result<u64, Truncated>)
        ensures
            old(self).contents().len() >= 8
                ==> (r matches Ok(v) && v == le_val(old(self).contents().take(8))
                    && final(self).contents() == old(self).contents().skip(8)),
            old(self).contents().len() < 8
                ==> (r == Err::<u64, Truncated>(Truncated)
                    && final(self).contents() == old(self).contents()),
    ;

    /// Read a little-endian `u128` from the front of the cursor, with a bounds
    /// check.
    ///
    /// Returns `Truncated` and leaves the cursor unchanged when fewer than
    /// 16 bytes remain.
    fn try_get_u128_le(&mut self) -> (r: Result<u128, Truncated>)
        ensures
            old(self).contents().len() >= 16
                ==> (r matches Ok(v) && v == le_val(old(self).contents().take(16))
                    && final(self).contents() == old(self).contents().skip(16)),
            old(self).contents().len() < 16
                ==> (r == Err::<u128, Truncated>(Truncated)
                    && final(self).contents() == old(self).contents()),
    ;

    /// Read a little-endian `i16` from the front of the cursor, with a bounds
    /// check.
    ///
    /// Returns `Truncated` and leaves the cursor unchanged when fewer than
    /// 2 bytes remain.
    fn try_get_i16_le(&mut self) -> (r: Result<i16, Truncated>)
        ensures
            old(self).contents().len() >= 2
                ==> (r matches Ok(v) && v as int == signed_val(le_val(old(self).contents().take(2)), 2)
                    && final(self).contents() == old(self).contents().skip(2)),
            old(self).contents().len() < 2
                ==> (r == Err::<i16, Truncated>(Truncated)
                    && final(self).contents() == old(self).contents()),
    ;

    /// Read a little-endian `i32` from the front of the cursor, with a bounds
    /// check.
    ///
    /// Returns `Truncated` and leaves the cursor unchanged when fewer than
    /// 4 bytes remain.
    fn try_get_i32_le(&mut self) -> (r: Result<i32, Truncated>)
        ensures
            old(self).contents().len() >= 4
                ==> (r matches Ok(v) && v as int == signed_val(le_val(old(self).contents().take(4)), 4)
                    && final(self).contents() == old(self).contents().skip(4)),
            old(self).contents().len() < 4
                ==> (r == Err::<i32, Truncated>(Truncated)
                    && final(self).contents() == old(self).contents()),
    ;

    /// Read a little-endian `i64` from the front of the cursor, with a bounds
    /// check.
    ///
    /// Returns `Truncated` and leaves the cursor unchanged when fewer than
    /// 8 bytes remain.
    fn try_get_i64_le(&mut self) -> (r: Result<i64, Truncated>)
        ensures
            old(self).contents().len() >= 8
                ==> (r matches Ok(v) && v as int == signed_val(le_val(old(self).contents().take(8)), 8)
                    && final(self).contents() == old(self).contents().skip(8)),
            old(self).contents().len() < 8
                ==> (r == Err::<i64, Truncated>(Truncated)
                    && final(self).contents() == old(self).contents()),
    ;

    /// Read a little-endian `i128` from the front of the cursor, with a bounds
    /// check.
    ///
    /// Returns `Truncated` and leaves the cursor unchanged when fewer than
    /// 16 bytes remain.
    fn try_get_i128_le(&mut self) -> (r: Result<i128, Truncated>)
        ensures
            old(self).contents().len() >= 16
                ==> (r matches Ok(v) && v as int == signed_val(le_val(old(self).contents().take(16)), 16)
                    && final(self).contents() == old(self).contents().skip(16)),
            old(self).contents().len() < 16
                ==> (r == Err::<i128, Truncated>(Truncated)
                    && final(self).contents() == old(self).contents()),
    ;

    /// Read a custom object from the front of the cursor.
    ///
    /// Delegates to the type's own [`FromBuf`] decoding and returns whatever
    /// result it produces; the cursor comes back with exactly the consumed
    /// prefix removed.
    fn extract<T: FromBuf>(&mut self) -> (r: crate::Result<T>)
        ensures
            exists|n: int|
                0 <= n <= old(self).contents().len()
                    && final(self).contents() == old(self).contents().skip(n),
    ;

    /// Check that the cursor is exhausted (out of bytes).
    ///
    /// Succeeds exactly when no bytes remain; otherwise returns
    /// `ExtraneousBytes`. Never alters the cursor.
    fn should_be_exhausted(&self) -> (r: Result<(), ExtraneousBytes>)
        ensures
            self.contents().len() == 0 ==> r == Ok::<(), ExtraneousBytes>(()),
            self.contents().len() != 0 ==> r == Err::<(), ExtraneousBytes>(ExtraneousBytes),
    ;
}

impl<B: RawBuf> SafeBuf for B {
    fn try_peek_const<const N: usize>(&mut self) -> (r: Result<[u8; N], Truncated>) {
        if self.remaining() < N {
            Err(Truncated)
        } else {
            Ok(self.peek_array::<N>())
        }
    }

    fn try_take_const<const N: usize>(&mut self) -> (r: Result<[u8; N], Truncated>) {
        match self.try_peek_const::<N>() {
            Ok(bytes) => {
                self.advance(N);
                Ok(bytes)
            },
            Err(e) => Err(e),
        }
    }

    fn try_peek(&mut self, len: usize) -> (r: Result<bytes::Bytes, Truncated>) {
        if self.remaining() < len {
            Err(Truncated)
        } else {
            Ok(self.peek_bytes(len))
        }
    }

    fn try_take(&mut self, len: usize) -> (r: Result<bytes::Bytes, Truncated>) {
        match self.try_peek(len) {
            Ok(bytes) => {
                self.advance(len);
                Ok(bytes)
            },
            Err(e) => Err(e),
        }
    }

    fn try_get_be<const N: usize>(&mut self) -> (r: Result<u128, Truncated>) {
        match self.try_take_const::<N>() {
            Ok(a) => Ok(be_val_of_array(&a)),
            Err(e) => Err(e),
        }
    }

    fn try_get_le<const N: usize>(&mut self) -> (r: Result<u128, Truncated>) {
        match self.try_take_const::<N>() {
            Ok(a) => Ok(le_val_of_array(&a)),
            Err(e) => Err(e),
        }
    }

    fn try_get_u8(&mut self) -> (r: Result<u8, Truncated>) {
        let ghost s0 = self.contents();
        match self.try_get_be::<1>() {
            Ok(v) => {
                proof {
                    lemma_be_val_bound(s0.take(1));
                    reveal_with_fuel(pow256, 2);
                }
                Ok(v as u8)
            },
            Err(e) => Err(e),
        }
    }

    fn try_get_i8(&mut self) -> (r: Result<i8, Truncated>) {
        let ghost s0 = self.contents();
        match self.try_get_be::<1>() {
            Ok(v) => {
                proof {
                    lemma_be_val_bound(s0.take(1));
                    reveal_with_fuel(pow256, 2);
                }
                Ok(to_i8(v as u8))
            },
            Err(e) => Err(e),
        }
    }

    fn try_get_u16(&mut self) -> (r: Result<u16, Truncated>) {
        let ghost s0 = self.contents();
        match self.try_get_be::<2>() {
            Ok(v) => {
                proof {
                    lemma_be_val_bound(s0.take(2));
                    reveal_with_fuel(pow256, 3);
                }
                Ok(v as u16)
            },
            Err(e) => Err(e),
        }
    }

    fn try_get_u32(&mut self) -> (r: Result<u32, Truncated>) {
        let ghost s0 = self.contents();
        match self.try_get_be::<4>() {
            Ok(v) => {
                proof {
                    lemma_be_val_bound(s0.take(4));
                    reveal_with_fuel(pow256, 5);
                }
                Ok(v as u32)
            },
            Err(e) => Err(e),
        }
    }

    fn try_get_u64(&mut self) -> (r: Result<u64, Truncated>) {
        let ghost s0 = self.contents();
        match self.try_get_be::<8>() {
            Ok(v) => {
                proof {
                    lemma_be_val_bound(s0.take(8));
                    reveal_with_fuel(pow256, 9);
                }
                Ok(v as u64)
            },
            Err(e) => Err(e),
        }
    }

    fn try_get_u128(&mut self) -> (r: Result<u128, Truncated>) {
        self.try_get_be::<16>()
    }

    fn try_get_i16(&mut self) -> (r: Result<i16, Truncated>) {
        let ghost s0 = self.contents();
        match self.try_get_be::<2>() {
            Ok(v) => {
                proof {
                    lemma_be_val_bound(s0.take(2));
                    reveal_with_fuel(pow256, 3);
                }
                Ok(to_i16(v as u16))
            },
            Err(e) => Err(e),
        }
    }

    fn try_get_i32(&mut self) -> (r: Result<i32, Truncated>) {
        let ghost s0 = self.contents();
        match self.try_get_be::<4>() {
            Ok(v) => {
                proof {
                    lemma_be_val_bound(s0.take(4));
                    reveal_with_fuel(pow256, 5);
                }
                Ok(to_i32(v as u32))
            },
            Err(e) => Err(e),
        }
    }

    fn try_get_i64(&mut self) -> (r: Result<i64, Truncated>) {
        let ghost s0 = self.contents();
        match self.try_get_be::<8>() {
            Ok(v) => {
                proof {
                    lemma_be_val_bound(s0.take(8));
                    reveal_with_fuel(pow256, 9);
                }
                Ok(to_i64(v as u64))
            },
            Err(e) => Err(e),
        }
    }

    fn try_get_i128(&mut self) -> (r: Result<i128, Truncated>) {
        let ghost s0 = self.contents();
        match self.try_get_be::<16>() {
            Ok(v) => {
                proof {
                    lemma_be_val_bound(s0.take(16));
                    reveal_with_fuel(pow256, 17);
                }
                Ok(to_i128(v))
            },
            Err(e) => Err(e),
        }
    }

    fn try_get_u16_le(&mut self) -> (r: Result<u16, Truncated>) {
        let ghost s0 = self.contents();
        match self.try_get_le::<2>() {
            Ok(v) => {
                proof {
                    lemma_le_val_bound(s0.take(2));
                    reveal_with_fuel(pow256, 3);
                }
                Ok(v as u16)
            },
            Err(e) => Err(e),
        }
    }

    fn try_get_u32_le(&mut self) -> (r: Result<u32, Truncated>) {
        let ghost s0 = self.contents();
        match self.try_get_le::<4>() {
            Ok(v) => {
                proof {
                    lemma_le_val_bound(s0.take(4));
                    reveal_with_fuel(pow256, 5);
                }
                Ok(v as u32)
            },
            Err(e) => Err(e),
        }
    }

    fn try_get_u64_le(&mut self) -> (r: Result<u64, Truncated>) {
        let ghost s0 = self.contents();
        match self.try_get_le::<8>() {
            Ok(v) => {
                proof {
                    lemma_le_val_bound(s0.take(8));
                    reveal_with_fuel(pow256, 9);
                }
                Ok(v as u64)
            },
            Err(e) => Err(e),
        }
    }

    fn try_get_u128_le(&mut self) -> (r: Result<u128, Truncated>) {
        self.try_get_le::<16>()
    }

    fn try_get_i16_le(&mut self) -> (r: Result<i16, Truncated>) {
        let ghost s0 = self.contents();
        match self.try_get_le::<2>() {
            Ok(v) => {
                proof {
                    lemma_le_val_bound(s0.take(2));
                    reveal_with_fuel(pow256, 3);
                }
                Ok(to_i16(v as u16))
            },
            Err(e) => Err(e),
        }
    }

    fn try_get_i32_le(&mut self) -> (r: Result<i32, Truncated>) {
        let ghost s0 = self.contents();
        match self.try_get_le::<4>() {
            Ok(v) => {
                proof {
                    lemma_le_val_bound(s0.take(4));
                    reveal_with_fuel(pow256, 5);
                }
                Ok(to_i32(v as u32))
            },
            Err(e) => Err(e),
        }
    }

    fn try_get_i64_le(&mut self) -> (r: Result<i64, Truncated>) {
        let ghost s0 = self.contents();
        match self.try_get_le::<8>() {
            Ok(v) => {
                proof {
                    lemma_le_val_bound(s0.take(8));
                    reveal_with_fuel(pow256, 9);
                }
                Ok(to_i64(v as u64))
            },
            Err(e) => Err(e),
        }
    }

    fn try_get_i128_le(&mut self) -> (r: Result<i128, Truncated>) {
        let ghost s0 = self.contents();
        match self.try_get_le::<16>() {
            Ok(v) => {
                proof {
                    lemma_le_val_bound(s0.take(16));
                    reveal_with_fuel(pow256, 17);
                }
                Ok(to_i128(v))
            },
            Err(e) => Err(e),
        }
    }

    fn extract<T: FromBuf>(&mut self) -> (r: crate::Result<T>) {
        T::from_buf(self)
    }

    fn should_be_exhausted(&self) -> (r: Result<(), ExtraneousBytes>) {
        if self.remaining() != 0 {
            Err(ExtraneousBytes)
        } else {
            Ok(())
        }
    }
}

/// Law: peeking `n` bytes and then advancing by `n` is equivalent to taking
/// `n` bytes at once.
///
/// For a cursor whose unread bytes are `s` with `n <= s.len()`, the contracts
/// of the peek operations pin the returned bytes to `peeked` and leave the
/// cursor at `s`; the contract of `advance` then pins the cursor at
/// `after_advance`. The contracts of the take operations on an identical
/// starting cursor pin the returned bytes to `taken` and the cursor at
/// `after_take`. The two pairs agree exactly.
pub proof fn lemma_peek_then_advance_is_take(
    s: Seq<u8>,
    n: int,
    peeked: Seq<u8>,
    after_advance: Seq<u8>,
    taken: Seq<u8>,
    after_take: Seq<u8>,
)
    requires
        0 <= n <= s.len(),
        peeked == s.take(n),
        after_advance == s.skip(n),
        taken == s.take(n),
        after_take == s.skip(n),
    ensures
        peeked == taken,
        after_advance == after_take,
{
}

/// Law: a checked read of exactly the remaining width consumes everything.
///
/// When a cursor's unread bytes `s` number exactly `w`, the checked reads of
/// width `w` succeed (their contracts promise success whenever at least `w`
/// bytes remain), return all of `s`, and leave zero bytes remaining; their
/// contracts state directly that with `w - 1` bytes remaining the same read
/// fails with `Truncated` and leaves the cursor unchanged.
pub proof fn lemma_boundary_exactness(s: Seq<u8>, w: int)
    requires
        0 <= w == s.len(),
    ensures
        s.take(w) == s,
        s.skip(w).len() == 0,
{
    assert(s.take(w) =~= s);
}

} // verus!
