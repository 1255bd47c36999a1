//! Bounds-checked reads over an input octet sequence.
//!
//! A read names the buffer and the offset it starts at, and either returns
//! the value together with the offset just past it, or fails with
//! `DecodeError::OutOfBounds`; `copy_range` copies a range its caller has
//! already checked. Where a decoder indexes the input directly instead,
//! Verus proves the index in bounds, so no decode can read past the end of
//! the buffer.

use vstd::prelude::*;
use vstd::slice::slice_subrange;

verus! {

/// The ways a decode can fail.
#[derive(Debug, Clone, Copy, PartialEq, Eq, Structural)]
pub enum DecodeError {
    /// A fixed or length-prefixed field extends past the end of the input.
    OutOfBounds,
    /// A QoS rule carries an operation code outside the six defined values.
    InvalidOperationCode,
    /// A packet filter component tag is not in the component table.
    UnknownComponentType,
    /// An inner record extends past the length its container declared.
    TruncatedContainer,
    /// Text content is not valid UTF-8.
    InvalidUtf8,
}

/// The big-endian 16-bit value formed by two octets.
pub open spec fn be16(hi: u8, lo: u8) -> u16 {
    ((hi as u16) << 8) | (lo as u16)
}

/// Read one octet at `pos`, returning it with the offset just past it.
pub fn read_u8(data: &[u8], pos: usize) -> (r: Result<(u8, usize), DecodeError>)
    ensures
        match r {
            Ok((b, p)) => pos + 1 <= data@.len() && b == data@[pos as int] && p == pos + 1,
            Err(e) => pos + 1 > data@.len() && e == DecodeError::OutOfBounds,
        },
{
    if pos < data.len() {
        Ok((data[pos], pos + 1))
    } else {
        Err(DecodeError::OutOfBounds)
    }
}

/// Read a big-endian 16-bit value at `pos`, returning it with the offset just
/// past it.
pub fn read_u16_be(data: &[u8], pos: usize) -> (r: Result<(u16, usize), DecodeError>)
    ensures
        match r {
            Ok((v, p)) => pos + 2 <= data@.len() && v == be16(
                data@[pos as int],
                data@[pos as int + 1],
            ) && p == pos + 2,
            Err(e) => pos + 2 > data@.len() && e == DecodeError::OutOfBounds,
        },
{
    if pos < data.len() && pos + 1 < data.len() {
        let v = ((data[pos] as u16) << 8) | (data[pos + 1] as u16);
        Ok((v, pos + 2))
    } else {
        Err(DecodeError::OutOfBounds)
    }
}

/// Copy the octets of `data` from `start` to `end` into an owned buffer.
/// Callers must have bounds-checked the range already.
pub fn copy_range(data: &[u8], start: usize, end: usize) -> (v: Vec<u8>)
    requires
        start <= end <= data@.len(),
    ensures
        v@ == data@.subrange(start as int, end as int),
{
    vstd::slice::slice_to_vec(slice_subrange(data, start, end))
}

/// Read `n` octets at `pos` into an owned buffer, returning it with the
/// offset just past the octets read.
pub fn read_slice(data: &[u8], pos: usize, n: usize) -> (r: Result<(Vec<u8>, usize), DecodeError>)
    ensures
        match r {
            Ok((v, p)) => pos + n <= data@.len() && v@ == data@.subrange(
                pos as int,
                pos + n,
            ) && p == pos + n,
            Err(e) => pos + n > data@.len() && e == DecodeError::OutOfBounds,
        },
{
    if n <= data.len() && pos <= data.len() - n {
        let sub = slice_subrange(data, pos, pos + n);
        Ok((vstd::slice::slice_to_vec(sub), pos + n))
    } else {
        Err(DecodeError::OutOfBounds)
    }
}

} // verus!
