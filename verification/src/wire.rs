//! Little-endian integers inside byte strings.

use bytes::{Buf, BufMut};
use vstd::prelude::*;

verus! {

/// The unsigned 16-bit integer whose two bytes, low byte first, start at `at`.
pub open spec fn u16_le(bytes: Seq<u8>, at: int) -> int {
    bytes[at] + 0x100 * bytes[at + 1]
}

/// The signed 16-bit integer, in two's complement, whose two bytes, low byte
/// first, start at `at`.
pub open spec fn i16_le(bytes: Seq<u8>, at: int) -> int {
    if u16_le(bytes, at) < 0x8000 {
        u16_le(bytes, at)
    } else {
        u16_le(bytes, at) - 0x1_0000
    }
}

/// The unsigned 32-bit integer whose four bytes, lowest byte first, start at
/// `at`.
pub open spec fn u32_le(bytes: Seq<u8>, at: int) -> int {
    bytes[at] + 0x100 * bytes[at + 1] + 0x1_0000 * bytes[at + 2] + 0x100_0000 * bytes[at + 3]
}

/// Calls `bytes::Buf::get_u16_le` on the bytes from `at` on.
///
/// Trusted: that the call returns the first two of those bytes read as an
/// unsigned integer, low byte first. It panics on fewer than two bytes, which
/// `requires` excludes.
#[verifier::external_body]
pub(crate) fn get_u16_le(bytes: &[u8], at: usize) -> (value: u16)
    requires
        at + 2 <= bytes@.len(),
    ensures
        value == u16_le(bytes@, at as int),
{
    let mut rest = &bytes[at..];
    rest.get_u16_le()
}

/// Calls `bytes::Buf::get_i16_le` on the bytes from `at` on.
///
/// Trusted: that the call returns the first two of those bytes read as a
/// signed integer in two's complement, low byte first. It panics on fewer
/// than two bytes, which `requires` excludes.
#[verifier::external_body]
pub(crate) fn get_i16_le(bytes: &[u8], at: usize) -> (value: i16)
    requires
        at + 2 <= bytes@.len(),
    ensures
        value == i16_le(bytes@, at as int),
{
    let mut rest = &bytes[at..];
    rest.get_i16_le()
}

/// Calls `bytes::Buf::get_u32_le` on the bytes from `at` on.
///
/// Trusted: that the call returns the first four of those bytes read as an
/// unsigned integer, lowest byte first. It panics on fewer than four bytes,
/// which `requires` excludes.
#[verifier::external_body]
pub(crate) fn get_u32_le(bytes: &[u8], at: usize) -> (value: u32)
    requires
        at + 4 <= bytes@.len(),
    ensures
        value == u32_le(bytes@, at as int),
{
    let mut rest = &bytes[at..];
    rest.get_u32_le()
}

/// Calls `bytes::BufMut::put_u16_le` on a vector.
///
/// Trusted: that the call appends the two bytes of the integer, low byte
/// first, and nothing else. It panics where the vector cannot grow by two
/// bytes, which `requires` excludes.
#[verifier::external_body]
pub(crate) fn put_u16_le(dst: &mut Vec<u8>, value: u16)
    requires
        old(dst)@.len() + 2 <= isize::MAX,
    ensures
        final(dst)@ == old(dst)@.push((value % 0x100) as u8).push((value / 0x100) as u8),
{
    dst.put_u16_le(value)
}

} // verus!
