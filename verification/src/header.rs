//! The GBA cartridge header: its template, its text fields and its complement check.
use vstd::prelude::*;
use vstd::string::StringSliceAdditionalSpecFns;

verus! {

/// The 32 bytes of the cartridge header from the game title on.
pub type GbaHeader = [u8; 0x20];

/// The header template: the title `LGBA_ROM`, the game code `LGBA`, the maker code `00` and
/// the fixed value 0x96; everything else is zero.
pub fn gba_header_template() -> (r: GbaHeader)
    ensures
        r@ == seq![
            76u8, 71, 66, 65, 95, 82, 79, 77, 32, 32, 32, 32, 76, 71, 66, 65, 48, 48, 0x96, 0, 0, 0,
            0, 0, 0, 0, 0, 0, 0, 0, 0, 0,
        ],
{
    let r: GbaHeader = [
        76, 71, 66, 65, 95, 82, 79, 77, 32, 32, 32, 32, 76, 71, 66, 65, 48, 48, 0x96, 0, 0, 0, 0, 0,
        0, 0, 0, 0, 0, 0, 0, 0,
    ];
    assert(r@ =~= seq![
        76u8, 71, 66, 65, 95, 82, 79, 77, 32, 32, 32, 32, 76, 71, 66, 65, 48, 48, 0x96, 0, 0, 0,
        0, 0, 0, 0, 0, 0, 0, 0, 0, 0,
    ]);
    r
}

/// A byte in upper case where asked: lower-case ASCII letters become upper-case ones.
pub open spec fn spec_upper(b: u8, to_upper: bool) -> u8 {
    if to_upper && 97 <= b <= 122 {
        (b - 32) as u8
    } else {
        b
    }
}

/// Converts a byte to upper case where asked.
pub fn byte_to_upper(i: u8, to_upper: bool) -> (r: u8)
    ensures
        r == spec_upper(i, to_upper),
{
    if to_upper && 97 <= i && i <= 122 {
        i - 97 + 65
    } else {
        i
    }
}

/// Writes a text field of the header: the bytes of `s`, at most `len` of them, from `off` on,
/// in upper case where asked. The field must lie inside the header.
pub fn set_header_field(header: GbaHeader, s: &str, off: usize, len: usize, to_upper: bool) -> (r:
    GbaHeader)
    requires
        off + (if s.spec_bytes().len() < len {
            s.spec_bytes().len() as int
        } else {
            len as int
        }) <= 0x20,
    ensures
        forall|j: int|
            0 <= j < 0x20 ==> #[trigger] r@[j] == if off <= j < off + len && j - off < s.spec_bytes().len() {
                spec_upper(s.spec_bytes()[j - off], to_upper)
            } else {
                header@[j]
            },
{
    let title_bytes = s.as_bytes();
    let mut copy_len = title_bytes.len();
    if copy_len > len {
        copy_len = len;
    }
    let ghost h0 = header@;
    let mut header = header;
    let mut i: usize = 0;
    while i < copy_len
        invariant
            title_bytes@ == s.spec_bytes(),
            copy_len <= title_bytes@.len(),
            copy_len <= len,
            off + copy_len <= 0x20,
            i <= copy_len,
            forall|j: int|
                0 <= j < 0x20 ==> #[trigger] header@[j] == if off <= j < off + i {
                    spec_upper(title_bytes@[j - off], to_upper)
                } else {
                    h0[j]
                },
        decreases copy_len - i,
    {
        header[off + i] = byte_to_upper(title_bytes[i], to_upper);
        i = i + 1;
    }
    header
}

/// The sum of the first `n` bytes of the header.
pub open spec fn header_sum(h: Seq<u8>, n: int) -> int
    decreases n,
{
    if n <= 0 {
        0
    } else {
        header_sum(h, n - 1) + h[n - 1]
    }
}

/// The complement check byte: minus the sum of the bytes before it, minus 0x19, modulo 256.
pub open spec fn complement_of(h: Seq<u8>) -> u8 {
    ((-(0x19 + header_sum(h, 0x1D))) % 256) as u8
}

/// Fills in the complement check byte of the header, which makes the bytes from the title to
/// the check byte, plus 0x19, sum to a multiple of 256.
pub fn calculate_complement(header: GbaHeader) -> (r: GbaHeader)
    ensures
        r@ == header@.update(0x1D, complement_of(header@)),
{
    let mut header = header;
    let mut i: usize = 0;
    let mut c: i32 = 0;
    while i < 0x1D
        invariant
            i <= 0x1D,
            c == header_sum(header@, i as int),
            0 <= c <= 255 * i,
        decreases 0x1D - i,
    {
        c = c + header[i] as i32;
        i = i + 1;
    }
    let v = -(0x19 + c);
    let b = (v % 256 + 256) % 256;
    assert(b == (-(0x19 + header_sum(header@, 0x1D))) % 256);
    header[0x1D] = b as u8;
    header
}

/// The header check: once the complement is filled in, the bytes from the title to the check
/// byte, plus 0x19, sum to a multiple of 256.
pub proof fn lemma_complement_checks(h: Seq<u8>)
    requires
        h.len() == 0x20,
    ensures
        (header_sum(h.update(0x1D, complement_of(h)), 0x1E) + 0x19) % 256 == 0,
{
    let h2 = h.update(0x1D, complement_of(h));
    assert forall|n: int| 0 <= n <= 0x1D implies header_sum(h2, n) == header_sum(h, n) by {
        lemma_sum_prefix(h, h2, n);
    }
    assert(header_sum(h2, 0x1E) == header_sum(h, 0x1D) + complement_of(h));
}

/// Sums of equal prefixes are equal.
proof fn lemma_sum_prefix(a: Seq<u8>, b: Seq<u8>, n: int)
    requires
        0 <= n <= a.len(),
        n <= b.len(),
        forall|k: int| 0 <= k < n ==> a[k] == b[k],
    ensures
        header_sum(a, n) == header_sum(b, n),
    decreases n,
{
    if n > 0 {
        lemma_sum_prefix(a, b, n - 1);
    }
}

} // verus!
