use vstd::prelude::*;

verus! {

/// Why a buffer could not be decoded.
#[derive(Debug, Clone, Copy, PartialEq, Eq, Structural)]
pub enum Error {
    /// A discriminant field held a value outside the recognised set.
    BadSignature(u64),
    /// A read would have consumed bytes past the end of the buffer.
    OutOfBounds,
}

pub type Result<T> = core::result::Result<T, Error>;

} // verus!
