//! Fixed-width little-endian reads at a cursor.
//!
//! Every decoder of the crate takes its bytes through the four `read_*`
//! functions of this module, so a read past the end of the buffer is caught
//! here and nowhere else.

use vstd::prelude::*;
use crate::error::Error;
use scroll::Pread;
use scroll::Error as ScrollError;

verus! {

#[verifier::external_type_specification]
#[verifier::external_body]
pub struct ExScrollError(ScrollError);

/// Whether `size` bytes can be read from a buffer of `len` bytes at `at`.
pub open spec fn fits(len: nat, at: int, size: int) -> bool {
    0 <= at && at + size <= len
}

/// The byte at `at`.
pub open spec fn le_u8(b: Seq<u8>, at: int) -> u8 {
    b[at]
}

/// The 16-bit little-endian integer whose first byte is at `at`.
pub open spec fn le_u16(b: Seq<u8>, at: int) -> u16 {
    (b[at] as int + 0x100 * (b[at + 1] as int)) as u16
}

/// The 32-bit little-endian integer whose first byte is at `at`.
pub open spec fn le_u32(b: Seq<u8>, at: int) -> u32 {
    (b[at] as int + 0x100 * (b[at + 1] as int) + 0x1_0000 * (b[at + 2] as int)
        + 0x100_0000 * (b[at + 3] as int)) as u32
}

/// The 64-bit little-endian integer whose first byte is at `at`.
pub open spec fn le_u64(b: Seq<u8>, at: int) -> u64 {
    (b[at] as int + 0x100 * (b[at + 1] as int) + 0x1_0000 * (b[at + 2] as int)
        + 0x100_0000 * (b[at + 3] as int) + 0x1_0000_0000 * (b[at + 4] as int)
        + 0x100_0000_0000 * (b[at + 5] as int) + 0x1_0000_0000_0000 * (b[at + 6] as int)
        + 0x100_0000_0000_0000 * (b[at + 7] as int)) as u64
}

/// The buffer `b` with the 16-bit little-endian encoding of `v` written at
/// `at`.
pub open spec fn with_le_u16(b: Seq<u8>, at: int, v: u16) -> Seq<u8> {
    b.update(at, (v % 0x100) as u8).update(at + 1, (v / 0x100) as u8)
}

/// Reading back what [`with_le_u16`] wrote gives the value written.
pub proof fn lemma_le_u16_written(b: Seq<u8>, at: int, v: u16)
    requires
        fits(b.len(), at, 2),
    ensures
        le_u16(with_le_u16(b, at, v), at) == v,
        with_le_u16(b, at, v).len() == b.len(),
        forall|i: int| 0 <= i < b.len() && i != at && i != at + 1 ==> with_le_u16(b, at, v)[i] == b[i],
{
}

/// `scroll::Pread::gread_with::<u8>` on a byte slice with `scroll::LE`: where
/// a byte is left at the cursor it returns that byte and moves the cursor
/// past it; otherwise it fails and leaves the cursor where it was.
#[verifier::external_body]
fn gread_u8(bytes: &[u8], offset: &mut usize) -> (r: core::result::Result<u8, ScrollError>)
    ensures
        r.is_ok() <==> fits(bytes@.len(), *old(offset) as int, 1),
        r.is_ok() ==> r.unwrap() == le_u8(bytes@, *old(offset) as int),
        *final(offset) == if r.is_ok() { *old(offset) + 1 } else { *old(offset) as int },
{
    bytes.gread_with::<u8>(offset, scroll::LE)
}

/// `scroll::Pread::gread_with::<u16>` on a byte slice with `scroll::LE`: where
/// two bytes are left at the cursor it returns their little-endian value and
/// moves the cursor past them; otherwise it fails and leaves the cursor where
/// it was.
#[verifier::external_body]
fn gread_u16(bytes: &[u8], offset: &mut usize) -> (r: core::result::Result<u16, ScrollError>)
    ensures
        r.is_ok() <==> fits(bytes@.len(), *old(offset) as int, 2),
        r.is_ok() ==> r.unwrap() == le_u16(bytes@, *old(offset) as int),
        *final(offset) == if r.is_ok() { *old(offset) + 2 } else { *old(offset) as int },
{
    bytes.gread_with::<u16>(offset, scroll::LE)
}

/// `scroll::Pread::gread_with::<u32>` on a byte slice with `scroll::LE`: where
/// four bytes are left at the cursor it returns their little-endian value and
/// moves the cursor past them; otherwise it fails and leaves the cursor where
/// it was.
#[verifier::external_body]
fn gread_u32(bytes: &[u8], offset: &mut usize) -> (r: core::result::Result<u32, ScrollError>)
    ensures
        r.is_ok() <==> fits(bytes@.len(), *old(offset) as int, 4),
        r.is_ok() ==> r.unwrap() == le_u32(bytes@, *old(offset) as int),
        *final(offset) == if r.is_ok() { *old(offset) + 4 } else { *old(offset) as int },
{
    bytes.gread_with::<u32>(offset, scroll::LE)
}

/// `scroll::Pread::gread_with::<u64>` on a byte slice with `scroll::LE`: where
/// eight bytes are left at the cursor it returns their little-endian value
/// and moves the cursor past them; otherwise it fails and leaves the cursor
/// where it was.
#[verifier::external_body]
fn gread_u64(bytes: &[u8], offset: &mut usize) -> (r: core::result::Result<u64, ScrollError>)
    ensures
        r.is_ok() <==> fits(bytes@.len(), *old(offset) as int, 8),
        r.is_ok() ==> r.unwrap() == le_u64(bytes@, *old(offset) as int),
        *final(offset) == if r.is_ok() { *old(offset) + 8 } else { *old(offset) as int },
{
    bytes.gread_with::<u64>(offset, scroll::LE)
}

/// Reads one byte at the cursor and advances the cursor by 1.
pub fn read_u8(bytes: &[u8], offset: &mut usize) -> (r: core::result::Result<u8, Error>)
    ensures
        fits(bytes@.len(), *old(offset) as int, 1) ==> r == Ok::<u8, Error>(
            le_u8(bytes@, *old(offset) as int),
        ) && *final(offset) == *old(offset) + 1,
        !fits(bytes@.len(), *old(offset) as int, 1) ==> r == Err::<u8, Error>(
            Error::OutOfBounds,
        ) && *final(offset) == *old(offset),
{
    match gread_u8(bytes, offset) {
        Ok(v) => Ok(v),
        Err(_) => Err(Error::OutOfBounds),
    }
}

/// Reads a 16-bit little-endian integer at the cursor and advances the cursor
/// by 2.
pub fn read_u16(bytes: &[u8], offset: &mut usize) -> (r: core::result::Result<
    u16,
    Error,
>)
    ensures
        fits(bytes@.len(), *old(offset) as int, 2) ==> r == Ok::<u16, Error>(
            le_u16(bytes@, *old(offset) as int),
        ) && *final(offset) == *old(offset) + 2,
        !fits(bytes@.len(), *old(offset) as int, 2) ==> r == Err::<u16, Error>(
            Error::OutOfBounds,
        ) && *final(offset) == *old(offset),
{
    match gread_u16(bytes, offset) {
        Ok(v) => Ok(v),
        Err(_) => Err(Error::OutOfBounds),
    }
}

/// Reads a 32-bit little-endian integer at the cursor and advances the cursor
/// by 4.
pub fn read_u32(bytes: &[u8], offset: &mut usize) -> (r: core::result::Result<
    u32,
    Error,
>)
    ensures
        fits(bytes@.len(), *old(offset) as int, 4) ==> r == Ok::<u32, Error>(
            le_u32(bytes@, *old(offset) as int),
        ) && *final(offset) == *old(offset) + 4,
        !fits(bytes@.len(), *old(offset) as int, 4) ==> r == Err::<u32, Error>(
            Error::OutOfBounds,
        ) && *final(offset) == *old(offset),
{
    match gread_u32(bytes, offset) {
        Ok(v) => Ok(v),
        Err(_) => Err(Error::OutOfBounds),
    }
}

/// Reads a 64-bit little-endian integer at the cursor and advances the cursor
/// by 8.
pub fn read_u64(bytes: &[u8], offset: &mut usize) -> (r: core::result::Result<
    u64,
    Error,
>)
    ensures
        fits(bytes@.len(), *old(offset) as int, 8) ==> r == Ok::<u64, Error>(
            le_u64(bytes@, *old(offset) as int),
        ) && *final(offset) == *old(offset) + 8,
        !fits(bytes@.len(), *old(offset) as int, 8) ==> r == Err::<u64, Error>(
            Error::OutOfBounds,
        ) && *final(offset) == *old(offset),
{
    match gread_u64(bytes, offset) {
        Ok(v) => Ok(v),
        Err(_) => Err(Error::OutOfBounds),
    }
}

} // verus!
