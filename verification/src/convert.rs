//! Reading little-endian data files as arrays of 16-bit and 32-bit words.
use vstd::prelude::*;

verus! {

/// Bytes joined as a little-endian 16-bit word are the low byte plus 256 times the high byte.
proof fn lemma_join_le(b0: u8, b1: u8, b2: u8, b3: u8)
    by (bit_vector)
    ensures
        (b0 as u16) | ((b1 as u16) << 8u16) == b0 as u16 + 256 * (b1 as u16),
        (b0 as u32) | ((b1 as u32) << 8u32) | ((b2 as u32) << 16u32) | ((b3 as u32) << 24u32)
            == b0 as u32 + 256 * (b1 as u32) + 65536 * (b2 as u32) + 16777216 * (b3 as u32),
{
}

/// The little-endian 16-bit word at word index `i` of bytes.
pub open spec fn le_u16(data: Seq<u8>, i: int) -> int {
    data[2 * i] + 256 * data[2 * i + 1]
}

/// The little-endian 32-bit word at word index `i` of bytes.
pub open spec fn le_u32(data: Seq<u8>, i: int) -> int {
    data[4 * i] + 256 * data[4 * i + 1] + 65536 * data[4 * i + 2] + 16777216 * data[4 * i + 3]
}

/// Reads bytes as `n` little-endian 16-bit words; the bytes must be exactly `n` words long.
pub fn xfer_u8_u16(data: &[u8], n: usize) -> (r: Vec<u16>)
    requires
        data@.len() == n * 2,
    ensures
        r@.len() == n,
        forall|i: int| 0 <= i < n ==> #[trigger] r@[i] as int == le_u16(data@, i),
{
    let mut out: Vec<u16> = Vec::new();
    let mut i: usize = 0;
    while i < n
        invariant
            data.len() == n * 2,
            i <= n,
            out@.len() == i,
            forall|k: int| 0 <= k < i ==> #[trigger] out@[k] as int == le_u16(data@, k),
        decreases n - i,
    {
        let b0 = data[i * 2];
        let b1 = data[i * 2 + 1];
        proof {
            lemma_join_le(b0, b1, 0, 0);
        }
        out.push((b0 as u16) | ((b1 as u16) << 8));
        i = i + 1;
    }
    out
}

/// Reads bytes as `n` little-endian 32-bit words; the bytes must be exactly `n` words long.
pub fn xfer_u8_u32(data: &[u8], n: usize) -> (r: Vec<u32>)
    requires
        data@.len() == n * 4,
    ensures
        r@.len() == n,
        forall|i: int| 0 <= i < n ==> #[trigger] r@[i] as int == le_u32(data@, i),
{
    let mut out: Vec<u32> = Vec::new();
    let mut i: usize = 0;
    while i < n
        invariant
            data.len() == n * 4,
            i <= n,
            out@.len() == i,
            forall|k: int| 0 <= k < i ==> #[trigger] out@[k] as int == le_u32(data@, k),
        decreases n - i,
    {
        let b0 = data[i * 4];
        let b1 = data[i * 4 + 1];
        let b2 = data[i * 4 + 2];
        let b3 = data[i * 4 + 3];
        proof {
            lemma_join_le(b0, b1, b2, b3);
        }
        out.push((b0 as u32) | ((b1 as u32) << 8) | ((b2 as u32) << 16) | ((b3 as u32) << 24));
        i = i + 1;
    }
    out
}

} // verus!
