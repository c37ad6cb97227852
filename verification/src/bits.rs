//! Bit-field access on register values.
use vstd::prelude::*;

verus! {

/// The mask with the low `w` bits set.
pub open spec fn low_mask(w: u32) -> u32 {
    !(0xffff_ffffu32 << w)
}

/// The `w`-bit field of `v` starting at bit `s`.
pub open spec fn get_bits(v: u32, s: u32, w: u32) -> u32 {
    (v >> s) & low_mask(w)
}

/// `v` with its `w`-bit field at bit `s` replaced by `x`.
pub open spec fn set_bits(v: u32, s: u32, w: u32, x: u32) -> u32 {
    (v & !(low_mask(w) << s)) | (x << s)
}

/// Whether a field of width `w` at bit `s` lies inside a 32-bit value.
pub open spec fn field_ok(s: u32, w: u32) -> bool {
    1 <= w && s + w <= 32 && w < 32
}

/// Whether `x` fits in `w` bits.
pub open spec fn fits(x: u32, w: u32) -> bool {
    x >> w == 0
}

/// A value fits in `w` bits exactly when it is below `2^w`.
pub proof fn lemma_fits_lt(x: u32, w: u32)
    requires
        w < 32,
    ensures
        fits(x, w) <==> x < (1u32 << w),
{
    assert(x >> w == 0 <==> x < (1u32 << w)) by (bit_vector)
        requires
            w < 32,
    ;
}

/// Reading a field just written gives the written value.
pub proof fn lemma_get_set_same(v: u32, s: u32, w: u32, x: u32)
    requires
        field_ok(s, w),
        fits(x, w),
    ensures
        get_bits(set_bits(v, s, w, x), s, w) == x,
{
    assert(((((v & !((!(0xffff_ffffu32 << w)) << s)) | (x << s)) >> s) & !(0xffff_ffffu32 << w))
        == x) by (bit_vector)
        requires
            1 <= w && s + w <= 32 && w < 32,
            x >> w == 0,
    ;
}

/// Writing a field leaves every disjoint field unchanged.
pub proof fn lemma_get_set_other(v: u32, s: u32, w: u32, x: u32, s2: u32, w2: u32)
    requires
        field_ok(s, w),
        field_ok(s2, w2),
        fits(x, w),
        s2 + w2 <= s || s + w <= s2,
    ensures
        get_bits(set_bits(v, s, w, x), s2, w2) == get_bits(v, s2, w2),
{
    assert(((((v & !((!(0xffff_ffffu32 << w)) << s)) | (x << s)) >> s2) & !(0xffff_ffffu32 << w2))
        == ((v >> s2) & !(0xffff_ffffu32 << w2))) by (bit_vector)
        requires
            1 <= w && s + w <= 32 && w < 32,
            1 <= w2 && s2 + w2 <= 32 && w2 < 32,
            x >> w == 0,
            s2 + w2 <= s || s + w <= s2,
    ;
}

/// A field read always fits in its width.
pub proof fn lemma_get_fits(v: u32, s: u32, w: u32)
    requires
        field_ok(s, w),
    ensures
        fits(get_bits(v, s, w), w),
{
    assert((((v >> s) & !(0xffff_ffffu32 << w)) >> w) == 0) by (bit_vector)
        requires
            w < 32,
    ;
}

/// Writing a field inside the low 16 bits keeps a 16-bit value 16-bit.
pub proof fn lemma_set_u16(v: u32, s: u32, w: u32, x: u32)
    requires
        field_ok(s, w),
        s + w <= 16,
        fits(x, w),
        v < 0x10000,
    ensures
        set_bits(v, s, w, x) < 0x10000,
{
    assert(((v & !((!(0xffff_ffffu32 << w)) << s)) | (x << s)) < 0x10000) by (bit_vector)
        requires
            1 <= w && s + w <= 16 && w < 32,
            x >> w == 0,
            v < 0x10000,
    ;
}

/// Writing a field twice keeps only the second write.
pub proof fn lemma_set_set(v: u32, s: u32, w: u32, x: u32, y: u32)
    requires
        field_ok(s, w),
        fits(x, w),
        fits(y, w),
    ensures
        set_bits(set_bits(v, s, w, x), s, w, y) == set_bits(v, s, w, y),
{
    assert(((((v & !((!(0xffff_ffffu32 << w)) << s)) | (x << s)) & !((!(0xffff_ffffu32 << w))
        << s)) | (y << s)) == ((v & !((!(0xffff_ffffu32 << w)) << s)) | (y << s))) by (bit_vector)
        requires
            1 <= w && s + w <= 32 && w < 32,
            x >> w == 0,
            y >> w == 0,
    ;
}

/// Writing a field with the value it holds changes nothing.
pub proof fn lemma_set_get(v: u32, s: u32, w: u32)
    requires
        field_ok(s, w),
    ensures
        set_bits(v, s, w, get_bits(v, s, w)) == v,
{
    assert(((v & !((!(0xffff_ffffu32 << w)) << s)) | (((v >> s) & !(0xffff_ffffu32 << w)) << s))
        == v) by (bit_vector)
        requires
            1 <= w && s + w <= 32 && w < 32,
    ;
}

/// `2^w` for the field widths `1` to `24`.
pub open spec fn small_pow2(w: u32) -> u32 {
    if w == 1 { 2 } else if w == 2 { 4 } else if w == 3 { 8 } else if w == 4 { 16 }
    else if w == 5 { 32 } else if w == 6 { 64 } else if w == 7 { 128 } else if w == 8 { 256 }
    else if w == 9 { 512 } else if w == 10 { 1024 } else if w == 11 { 2048 }
    else if w == 12 { 4096 } else if w == 13 { 8192 } else if w == 14 { 16384 }
    else if w == 15 { 32768 } else if w == 16 { 65536 } else if w == 17 { 131072 }
    else if w == 18 { 262144 } else if w == 19 { 524288 } else if w == 20 { 1048576 }
    else if w == 21 { 2097152 } else if w == 22 { 4194304 } else if w == 23 { 8388608 }
    else { 16777216 }
}

/// A value fits in `w` bits exactly when it is below `2^w`, and then masking it with `w` ones
/// keeps it.
pub proof fn lemma_fits_small(x: u32, w: u32)
    requires
        1 <= w <= 24,
    ensures
        fits(x, w) <==> x < small_pow2(w),
        fits(x, w) ==> x & ((small_pow2(w) - 1) as u32) == x,
{
    let p = small_pow2(w);
    assert(p == 1u32 << w && 1 <= w <= 24) by (bit_vector)
        requires
            1 <= w <= 24,
            p == (if w == 1 { 2u32 } else if w == 2 { 4u32 } else if w == 3 { 8u32 } else if w == 4 { 16u32 }
            else if w == 5 { 32u32 } else if w == 6 { 64u32 } else if w == 7 { 128u32 } else if w == 8 { 256u32 }
            else if w == 9 { 512u32 } else if w == 10 { 1024u32 } else if w == 11 { 2048u32 }
            else if w == 12 { 4096u32 } else if w == 13 { 8192u32 } else if w == 14 { 16384u32 }
            else if w == 15 { 32768u32 } else if w == 16 { 65536u32 } else if w == 17 { 131072u32 }
            else if w == 18 { 262144u32 } else if w == 19 { 524288u32 } else if w == 20 { 1048576u32 }
            else if w == 21 { 2097152u32 } else if w == 22 { 4194304u32 } else if w == 23 { 8388608u32 }
            else { 16777216u32 }),
    ;
    lemma_fits_mask(x, w, p);
}

proof fn lemma_fits_mask(x: u32, w: u32, p: u32)
    by (bit_vector)
    requires
        1 <= w <= 24,
        p == 1u32 << w,
    ensures
        (x >> w == 0) <==> x < p,
        (x >> w == 0) ==> x & ((p - 1) as u32) == x,
{
}

/// Set operations on bit masks of `n` members stay within the mask of all members, for the
/// member counts of the register sets.
pub proof fn lemma_mask_ops(a: u32, b: u32, m: u32)
    by (bit_vector)
    requires
        m == 63 || m == 1023 || m == 16383,
        a <= m,
    ensures
        b <= m ==> (a | b) <= m && (a ^ b) <= m,
        (a & b) <= m,
        (a & !b) <= m,
        (!b & m) <= m,
        (b & m) <= m,
{
}

/// The mask of member `b` lies within the mask of all `n` members, and has bit `b` set.
pub proof fn lemma_single_bit(b: u32, m: u32)
    by (bit_vector)
    requires
        (m == 63 && b < 6) || (m == 1023 && b < 10) || (m == 16383 && b < 14),
    ensures
        (1u32 << b) <= m,
        (((1u32 << b) >> b) & !(0xffff_ffffu32 << 1u32)) == 1,
{
}

/// Fixed bit facts about constants used by the register code.
pub proof fn lemma_bit_constants()
    by (bit_vector)
    ensures
        7u32 & 16383u32 == 7u32,
        ((0u32 >> 7u32) & !(0xffff_ffffu32 << 1u32)) == 0u32,
        ((((0u32 & !((!(0xffff_ffffu32 << 1u32)) << 2u32)) | (1u32 << 2u32)) >> 7u32) & !(
        0xffff_ffffu32 << 1u32)) == 0u32,
{
}

/// Two 16-bit halves joined with `|` and a shift are the sum of the low half and the high half
/// times `2^16`.
pub proof fn lemma_pack_halves(lo: u32, hi: u32)
    by (bit_vector)
    requires
        lo < 0x10000,
        hi < 0x10000,
    ensures
        lo | (hi << 16u32) == lo + hi * 0x10000,
{
}

/// Masking never gives more than the mask.
pub proof fn lemma_and_le(a: u32, m: u32)
    by (bit_vector)
    ensures
        a & m <= m,
{
}

/// The low bits of an index: shifting right divides, masking takes the remainder.
pub proof fn lemma_low_bits(id: u32)
    by (bit_vector)
    ensures
        id >> 4u32 == id / 16,
        id & 15 == id % 16,
        id & 15 < 16,
        id >> 2u32 == id / 4,
        id & 3 == id % 4,
        id & 3 < 4,
        id >> 1u32 == id / 2,
        id & 1 == id % 2,
        id >> 3u32 == id / 8,
        id & 7 == id % 8,
{
}

/// Every field of zero is zero.
pub proof fn lemma_get_zero(s: u32, w: u32)
    by (bit_vector)
    ensures
        ((0u32 >> s) & !(0xffff_ffffu32 << w)) == 0,
{
}

/// Facts about a packed glyph ID, a plane above a character number: both can be read back,
/// and it splits into a low byte and the high bits above it.
pub proof fn lemma_packed(plane: u32, ch: u32, cb: u32, hb: u32)
    by (bit_vector)
    requires
        plane < 4,
        ch < (1u32 << cb),
        cb <= 14,
        cb + 2 <= 8 + hb,
        hb <= 8,
    ensures
        ((plane << cb) | ch) >> cb == plane,
        ((plane << cb) | ch) & !(0xffff_ffffu32 << cb) == ch,
        (((plane << cb) | ch) >> 8u32) >> hb == 0,
        ((((plane << cb) | ch) >> 8u32) << 8u32) | (((plane << cb) | ch) & 0xff) == (plane << cb) | ch,
        ((plane << cb) | ch) < 0x10000,
        ((plane << cb) | ch) >> 0u32 == (plane << cb) | ch,
        hb == 0 ==> ((plane << cb) | ch) >> 8u32 == 0,
{
}

/// Reads the `w`-bit field at bit `s` of a 32-bit register value.
pub fn read_field(v: u32, s: u32, w: u32) -> (r: u32)
    requires
        field_ok(s, w),
    ensures
        r == get_bits(v, s, w),
        fits(r, w),
{
    proof {
        lemma_get_fits(v, s, w);
    }
    (v >> s) & !(0xffff_ffffu32 << w)
}

/// Writes `x` into the `w`-bit field at bit `s` of a 32-bit register value.
pub fn write_field(v: u32, s: u32, w: u32, x: u32) -> (r: u32)
    requires
        field_ok(s, w),
        fits(x, w),
    ensures
        r == set_bits(v, s, w, x),
        get_bits(r, s, w) == x,
{
    proof {
        lemma_get_set_same(v, s, w, x);
    }
    (v & !((!(0xffff_ffffu32 << w)) << s)) | (x << s)
}

} // verus!
