//! Bounds-checked little-endian integer reads over an immutable byte buffer,
//! through an advancing cursor.

use vstd::prelude::*;
use crate::error::Error;

verus! {

/// The little-endian value of the `n` bytes of `data` starting at `off`.
pub open spec fn le_bytes(data: Seq<u8>, off: int, n: int) -> int
    decreases n,
{
    if n <= 0 {
        0
    } else {
        data[off] + 0x100 * le_bytes(data, off + 1, n - 1)
    }
}

/// Reads one byte and advances the cursor; fails when no byte remains,
/// leaving the cursor where it was.
pub fn read_u8(data: &[u8], offset: &mut usize) -> (r: Result<u8, Error>)
    ensures
        match r {
            Ok(v) => {
                &&& *old(offset) + 1 <= data@.len()
                &&& v == le_bytes(data@, *old(offset) as int, 1)
                &&& *final(offset) == *old(offset) + 1
            },
            Err(e) => {
                &&& e == Error::BoundsError
                &&& *old(offset) + 1 > data@.len()
                &&& *final(offset) == *old(offset)
            },
        },
{
    if *offset < data.len() {
        let b = data[*offset];
        *offset = *offset + 1;
        proof {
            reveal_with_fuel(le_bytes, 2);
        }
        Ok(b)
    } else {
        Err(Error::BoundsError)
    }
}

/// Reads a two-byte little-endian integer and advances the cursor; fails
/// when fewer than two bytes remain, leaving the cursor where it was.
pub fn read_u16(data: &[u8], offset: &mut usize) -> (r: Result<u16, Error>)
    ensures
        match r {
            Ok(v) => {
                &&& *old(offset) + 2 <= data@.len()
                &&& v == le_bytes(data@, *old(offset) as int, 2)
                &&& *final(offset) == *old(offset) + 2
            },
            Err(e) => {
                &&& e == Error::BoundsError
                &&& *old(offset) + 2 > data@.len()
                &&& *final(offset) == *old(offset)
            },
        },
{
    if data.len() >= 2 && *offset <= data.len() - 2 {
        let b0 = data[*offset] as u16;
        let b1 = data[*offset + 1] as u16;
        *offset = *offset + 2;
        proof {
            reveal_with_fuel(le_bytes, 3);
        }
        Ok(b0 + 0x100 * b1)
    } else {
        Err(Error::BoundsError)
    }
}

/// Reads a four-byte little-endian integer and advances the cursor; fails
/// when fewer than four bytes remain, leaving the cursor where it was.
pub fn read_u32(data: &[u8], offset: &mut usize) -> (r: Result<u32, Error>)
    ensures
        match r {
            Ok(v) => {
                &&& *old(offset) + 4 <= data@.len()
                &&& v == le_bytes(data@, *old(offset) as int, 4)
                &&& *final(offset) == *old(offset) + 4
            },
            Err(e) => {
                &&& e == Error::BoundsError
                &&& *old(offset) + 4 > data@.len()
                &&& *final(offset) == *old(offset)
            },
        },
{
    if data.len() >= 4 && *offset <= data.len() - 4 {
        let b0 = data[*offset] as u32;
        let b1 = data[*offset + 1] as u32;
        let b2 = data[*offset + 2] as u32;
        let b3 = data[*offset + 3] as u32;
        *offset = *offset + 4;
        proof {
            reveal_with_fuel(le_bytes, 5);
        }
        Ok(b0 + 0x100 * (b1 + 0x100 * (b2 + 0x100 * b3)))
    } else {
        Err(Error::BoundsError)
    }
}

/// Reads an eight-byte little-endian integer and advances the cursor; fails
/// when fewer than eight bytes remain, leaving the cursor where it was.
pub fn read_u64(data: &[u8], offset: &mut usize) -> (r: Result<u64, Error>)
    ensures
        match r {
            Ok(v) => {
                &&& *old(offset) + 8 <= data@.len()
                &&& v == le_bytes(data@, *old(offset) as int, 8)
                &&& *final(offset) == *old(offset) + 8
            },
            Err(e) => {
                &&& e == Error::BoundsError
                &&& *old(offset) + 8 > data@.len()
                &&& *final(offset) == *old(offset)
            },
        },
{
    if data.len() >= 8 && *offset <= data.len() - 8 {
        let b0 = data[*offset] as u64;
        let b1 = data[*offset + 1] as u64;
        let b2 = data[*offset + 2] as u64;
        let b3 = data[*offset + 3] as u64;
        let b4 = data[*offset + 4] as u64;
        let b5 = data[*offset + 5] as u64;
        let b6 = data[*offset + 6] as u64;
        let b7 = data[*offset + 7] as u64;
        *offset = *offset + 8;
        proof {
            reveal_with_fuel(le_bytes, 9);
        }
        Ok(b0 + 0x100 * (b1 + 0x100 * (b2 + 0x100 * (b3 + 0x100 * (b4 + 0x100 * (b5
            + 0x100 * (b6 + 0x100 * b7)))))))
    } else {
        Err(Error::BoundsError)
    }
}

} // verus!
