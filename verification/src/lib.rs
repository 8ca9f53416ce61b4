//! A safe, non-panicking reading layer over a byte cursor.
//!
//! Every checked operation either consumes exactly the bytes it reports and
//! returns the decoded value, or fails with an explicit error and leaves the
//! cursor byte-for-byte unchanged.

use vstd::prelude::*;

pub mod bytes_buf;
pub mod error;
pub mod num;
pub mod safe_buf;

pub use error::Error;
pub use safe_buf::FromBuf;
pub use safe_buf::RawBuf;
pub use safe_buf::SafeBuf;

verus! {

/// Type alias for the return type of fallible functions in this crate
pub type Result<T> = core::result::Result<T, Error>;

} // verus!
