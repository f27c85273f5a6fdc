//! Integer readers for byte buffers, little-endian and big-endian.

use vstd::prelude::*;

verus! {

/// The unsigned integer encoded by `width` bytes of `b` starting at `off`,
/// least significant byte first (little-endian).
pub open spec fn le_bytes(b: Seq<u8>, off: int, width: int) -> int
    decreases width,
{
    if width <= 0 {
        0
    } else {
        b[off] + 256 * le_bytes(b, off + 1, width - 1)
    }
}

/// The unsigned integer encoded by `width` bytes of `b` starting at `off`,
/// most significant byte first (big-endian).
pub open spec fn be_bytes(b: Seq<u8>, off: int, width: int) -> int
    decreases width,
{
    if width <= 0 {
        0
    } else {
        256 * be_bytes(b, off, width - 1) + b[off + width - 1]
    }
}

pub proof fn lemma_le_bytes_4_bound(b: Seq<u8>, off: int)
    ensures
        0 <= le_bytes(b, off, 4) < 0x1_0000_0000,
{
    reveal_with_fuel(le_bytes, 5);
}

pub proof fn lemma_le_bytes_8_bound(b: Seq<u8>, off: int)
    ensures
        0 <= le_bytes(b, off, 8) < 0x1_0000_0000_0000_0000,
{
    reveal_with_fuel(le_bytes, 9);
}

/// Reads the two bytes at `off` as a little-endian `u16`.
pub fn read_u16_le(data: &[u8], off: usize) -> (r: u16)
    requires
        off + 2 <= data@.len(),
    ensures
        r == le_bytes(data@, off as int, 2),
{
    proof {
        reveal_with_fuel(le_bytes, 3);
    }
    let b0: u8 = data[off];
    let b1: u8 = data[off + 1];
    b0 as u16 + (b1 as u16) * 0x100
}

/// Reads the four bytes at `off` as a little-endian `u32`.
pub fn read_u32_le(data: &[u8], off: usize) -> (r: u32)
    requires
        off + 4 <= data@.len(),
    ensures
        r == le_bytes(data@, off as int, 4),
{
    proof {
        reveal_with_fuel(le_bytes, 5);
    }
    let b0: u8 = data[off];
    let b1: u8 = data[off + 1];
    let b2: u8 = data[off + 2];
    let b3: u8 = data[off + 3];
    b0 as u32 + (b1 as u32) * 0x100 + (b2 as u32) * 0x1_0000 + (b3 as u32) * 0x100_0000
}

/// Reads the eight bytes at `off` as a little-endian `u64`.
pub fn read_u64_le(data: &[u8], off: usize) -> (r: u64)
    requires
        off + 8 <= data@.len(),
    ensures
        r == le_bytes(data@, off as int, 8),
{
    proof {
        reveal_with_fuel(le_bytes, 9);
    }
    let b0: u8 = data[off];
    let b1: u8 = data[off + 1];
    let b2: u8 = data[off + 2];
    let b3: u8 = data[off + 3];
    let b4: u8 = data[off + 4];
    let b5: u8 = data[off + 5];
    let b6: u8 = data[off + 6];
    let b7: u8 = data[off + 7];
    b0 as u64 + (b1 as u64) * 0x100 + (b2 as u64) * 0x1_0000 + (b3 as u64) * 0x100_0000
        + (b4 as u64) * 0x1_0000_0000 + (b5 as u64) * 0x100_0000_0000
        + (b6 as u64) * 0x1_0000_0000_0000 + (b7 as u64) * 0x100_0000_0000_0000
}

/// Reads the two bytes at `off` in the requested byte order.
pub fn read_u16_at(data: &[u8], off: usize, big: bool) -> (r: u16)
    requires
        off + 2 <= data@.len(),
    ensures
        big ==> r == be_bytes(data@, off as int, 2),
        !big ==> r == le_bytes(data@, off as int, 2),
{
    if big {
        proof {
            reveal_with_fuel(be_bytes, 3);
        }
        let b0: u8 = data[off];
        let b1: u8 = data[off + 1];
        (b0 as u16) * 0x100 + b1 as u16
    } else {
        read_u16_le(data, off)
    }
}

/// Reads the four bytes at `off` in the requested byte order.
pub fn read_u32_at(data: &[u8], off: usize, big: bool) -> (r: u32)
    requires
        off + 4 <= data@.len(),
    ensures
        big ==> r == be_bytes(data@, off as int, 4),
        !big ==> r == le_bytes(data@, off as int, 4),
{
    if big {
        proof {
            reveal_with_fuel(be_bytes, 5);
        }
        let b0: u8 = data[off];
        let b1: u8 = data[off + 1];
        let b2: u8 = data[off + 2];
        let b3: u8 = data[off + 3];
        (b0 as u32) * 0x100_0000 + (b1 as u32) * 0x1_0000 + (b2 as u32) * 0x100 + b3 as u32
    } else {
        read_u32_le(data, off)
    }
}

/// Reads the eight bytes at `off` in the requested byte order.
pub fn read_u64_at(data: &[u8], off: usize, big: bool) -> (r: u64)
    requires
        off + 8 <= data@.len(),
    ensures
        big ==> r == be_bytes(data@, off as int, 8),
        !big ==> r == le_bytes(data@, off as int, 8),
{
    if big {
        proof {
            reveal_with_fuel(be_bytes, 9);
        }
        let b0: u8 = data[off];
        let b1: u8 = data[off + 1];
        let b2: u8 = data[off + 2];
        let b3: u8 = data[off + 3];
        let b4: u8 = data[off + 4];
        let b5: u8 = data[off + 5];
        let b6: u8 = data[off + 6];
        let b7: u8 = data[off + 7];
        (b0 as u64) * 0x100_0000_0000_0000 + (b1 as u64) * 0x1_0000_0000_0000
            + (b2 as u64) * 0x100_0000_0000 + (b3 as u64) * 0x1_0000_0000
            + (b4 as u64) * 0x100_0000 + (b5 as u64) * 0x1_0000 + (b6 as u64) * 0x100
            + b7 as u64
    } else {
        read_u64_le(data, off)
    }
}

/// Reads a slice of exactly four bytes as a little-endian `u32`.
pub fn into_u32_le(s: &[u8]) -> (r: u32)
    requires
        s@.len() == 4,
    ensures
        r == le_bytes(s@, 0, 4),
{
    read_u32_le(s, 0)
}

/// Reads a slice of exactly eight bytes as a little-endian `u64`.
pub fn into_u64_le(s: &[u8]) -> (r: u64)
    requires
        s@.len() == 8,
    ensures
        r == le_bytes(s@, 0, 8),
{
    read_u64_le(s, 0)
}

} // verus!
