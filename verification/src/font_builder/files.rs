//! The data files of a font: arrays of 16-bit words stored as little-endian bytes.
use crate::convert::le_u16;
use vstd::prelude::*;

verus! {

/// The little-endian bytes of 16-bit words.
pub open spec fn le_bytes(data: Seq<u16>) -> Seq<u8> {
    Seq::new(
        2 * data.len(),
        |j: int|
            if j % 2 == 0 {
                (data[j / 2] % 256) as u8
            } else {
                (data[j / 2] / 256) as u8
            },
    )
}

/// The contents of a file of 16-bit words: each word as two little-endian bytes.
pub fn make_u16_file(data: &[u16]) -> (r: Vec<u8>)
    ensures
        r@ == le_bytes(data@),
{
    let mut out: Vec<u8> = Vec::new();
    let mut i: usize = 0;
    while i < data.len()
        invariant
            i <= data@.len(),
            out@.len() == 2 * i,
            forall|j: int| 0 <= j < 2 * i ==> #[trigger] out@[j] == le_bytes(data@)[j],
        decreases data@.len() - i,
    {
        let v = data[i];
        out.push((v % 256) as u8);
        out.push((v / 256) as u8);
        i = i + 1;
    }
    assert(out@ =~= le_bytes(data@));
    out
}

/// Reading a file of 16-bit words back as little-endian words gives the words written.
pub proof fn lemma_u16_file_round_trip(data: Seq<u16>, i: int)
    requires
        0 <= i < data.len(),
    ensures
        le_u16(le_bytes(data), i) == data[i],
{
    let b = le_bytes(data);
    assert(b[2 * i] == (data[i] % 256) as u8);
    assert(b[2 * i + 1] == (data[i] / 256) as u8);
}

} // verus!
