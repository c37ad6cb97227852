//! Encoding a font's glyph assignment as the lookup tables a terminal font reads: the low plane
//! bitmap, and the slot tables of the other code points.
use crate::bits::{
    field_ok, fits, get_bits, lemma_fits_small, lemma_get_fits, lemma_get_set_other,
    lemma_get_set_same, lemma_set_u16, read_field, set_bits, write_field,
};
use crate::display::fonts::FontView;
use crate::font_builder::chars::{CharacterInfo, FontConfiguration};
use crate::font_builder::planes::{planes_built, GlyphData, GlyphSlot};
use vstd::prelude::*;

verus! {

broadcast use vstd::std_specs::hash::group_hash_axioms;

/// The packed glyph ID of a slot: the plane above the character number.
pub open spec fn packed_id(plane: usize, ch: usize, char_bits: u32) -> u32 {
    ((plane as u32) << char_bits) | (ch as u32)
}

/// Doubling a power of two moves its bit up by one.
pub proof fn lemma_shl_double(b: u32)
    by (bit_vector)
    requires
        b < 31,
    ensures
        (1u32 << b) * 2 == 1u32 << (b + 1),
        (1u32 << b) >= 1,
        (1u32 << b) < 0x4000 ==> b < 14 && (1u32 << b) * 2 <= 0x4000,
{
}

/// The least exponent from `b` on, up to 14, whose power of two is at least `n`.
pub open spec fn least_bits(n: u32, b: u32) -> u32
    decreases 14 - b,
{
    if b >= 14 || (1u32 << b) >= n {
        b
    } else {
        least_bits(n, (b + 1) as u32)
    }
}

/// The exponent of the least power of two at least `n`, for `n` up to `2^14`: the number of
/// bits that number the characters `0` to `n`.
pub fn char_bits_for(n: u32) -> (b: u32)
    requires
        n <= 0x4000,
    ensures
        b == least_bits(n, 0),
        b <= 14,
        (1u32 << b) >= n,
        b == 0 || (1u32 << ((b - 1) as u32)) < n,
{
    let mut b: u32 = 0;
    let mut p: u32 = 1;
    proof {
        assert(1u32 << 0u32 == 1) by (bit_vector);
    }
    while p < n
        invariant
            n <= 0x4000,
            b <= 14,
            p == 1u32 << b,
            p <= 0x4000,
            b == 0 || (1u32 << ((b - 1) as u32)) < n,
            least_bits(n, 0) == least_bits(n, b),
        decreases 0x4000 - p,
    {
        proof {
            lemma_shl_double(b);
        }
        p = p * 2;
        b = b + 1;
    }
    b
}

/// The layout of the high bits of packed glyph IDs for `char_bits` bits of character number:
/// the high bits per slot, and the number of slots per 16-bit word (all ones where no high
/// bits are needed).
pub open spec fn spec_hi_layout(char_bits: u32) -> (u32, u32) {
    let x = char_bits + 2;
    if x <= 8 {
        (0, 0xFFFFFFFF)
    } else if x <= 9 {
        (1, 16)
    } else if x <= 10 {
        (2, 8)
    } else if x <= 12 {
        (4, 4)
    } else {
        (8, 2)
    }
}

/// The layout of the high bits of packed glyph IDs for `char_bits` bits of character number.
pub fn hi_layout(char_bits: u32) -> (r: (u32, u32))
    requires
        char_bits <= 14,
    ensures
        r == spec_hi_layout(char_bits),
{
    let x = char_bits + 2;
    if x <= 8 {
        (0, 0xFFFFFFFF)
    } else if x <= 9 {
        (1, 16)
    } else if x <= 10 {
        (2, 8)
    } else if x <= 12 {
        (4, 4)
    } else {
        (8, 2)
    }
}

/// Whether bit `i` of a bitmap of 16-bit words is set.
pub open spec fn word_bit(words: Seq<u16>, i: int) -> bool {
    get_bits(words[i / 16] as u32, (i % 16) as u32, 1) == 1
}

/// The low plane bitmap: bit `i % 16` of word `i / 16` tells whether code point `i` uses its
/// own slot.
pub fn low_plane_words(low_plane: &Vec<bool>) -> (r: Vec<u16>)
    requires
        low_plane@.len() % 16 == 0,
    ensures
        r@.len() == low_plane@.len() / 16,
        forall|i: int| 0 <= i < low_plane@.len() ==> word_bit(r@, i) == #[trigger] low_plane@[i],
{
    let n = low_plane.len() / 16;
    let mut out: Vec<u16> = Vec::new();
    let mut w: usize = 0;
    proof {
        lemma_fits_small(1, 1);
    }
    while w < n
        invariant
            n == low_plane@.len() / 16,
            low_plane@.len() % 16 == 0,
            w <= n,
            out@.len() == w,
            fits(1, 1),
            forall|i: int| 0 <= i < w * 16 ==> word_bit(out@, i) == #[trigger] low_plane@[i],
        decreases n - w,
    {
        let mut word: u32 = 0;
        let mut b: u32 = 0;
        proof {
            assert forall|b2: u32| b2 < 16 implies get_bits(0, b2, 1) == 0 by {
                crate::bits::lemma_get_zero(b2, 1);
            }
            assert(w * 16 + 16 <= low_plane.len()) by (nonlinear_arith)
                requires
                    w < n,
                    n == low_plane.len() / 16,
            ;
        }
        while b < 16
            invariant
                w < n,
                n == low_plane@.len() / 16,
                b <= 16,
                w * 16 + 16 <= low_plane.len(),
                word < 0x10000,
                fits(1, 1),
                forall|b2: u32| b2 < b ==> (#[trigger] get_bits(word, b2, 1) == 1) == low_plane@[w * 16 + b2],
                forall|b2: u32| b <= b2 < 16 ==> #[trigger] get_bits(word, b2, 1) == 0,
            decreases 16 - b,
        {
            let ghost old_word = word;
            let set = low_plane[w * 16 + b as usize];
            if set {
                proof {
                    lemma_set_u16(word, b, 1, 1);
                }
                word = write_field(word, b, 1, 1);
            }
            proof {
                assert forall|b2: u32| b2 < b + 1 implies (#[trigger] get_bits(word, b2, 1) == 1)
                    == low_plane@[w * 16 + b2] by {
                    assert(get_bits(old_word, b2, 1) == get_bits(old_word, b2, 1));
                    if set {
                        if b2 != b {
                            lemma_get_set_other(old_word, b, 1, 1, b2, 1);
                        } else {
                            lemma_get_set_same(old_word, b, 1, 1);
                        }
                    }
                }
                assert forall|b2: u32| b + 1 <= b2 < 16 implies #[trigger] get_bits(word, b2, 1) == 0 by {
                    assert(get_bits(old_word, b2, 1) == 0);
                    if set {
                        lemma_get_set_other(old_word, b, 1, 1, b2, 1);
                    }
                }
            }
            b = b + 1;
        }
        let ghost before = out@;
        out.push(word as u16);
        proof {
            assert forall|i: int| 0 <= i < (w + 1) * 16 implies word_bit(out@, i) == #[trigger] low_plane@[i] by {
                if i >= w * 16 {
                    assert(i / 16 == w);
                    let b2 = (i % 16) as u32;
                    assert(i == w * 16 + b2);
                    assert(out@[i / 16] == word as u16);
                } else {
                    assert(i / 16 < w);
                    assert(out@[i / 16] == before[i / 16]);
                }
            }
        }
        w = w + 1;
    }
    out
}


/// The slot tables of the code points outside the low plane: slot `i` holds code point
/// `entries[i]`, and its packed glyph ID, split into a low byte in `id_lo` and, where the IDs
/// are wider than a byte, high bits packed `divisor` slots to a word of `id_hi`.
pub fn encode_slots(
    entries: &Vec<u16>,
    slots: &Vec<(usize, usize)>,
    char_bits: u32,
    hi_bits: u32,
    divisor: u32,
) -> (r: (Vec<u16>, Vec<u16>, Vec<u8>))
    requires
        entries@.len() == slots@.len(),
        entries@.len() < 0x10000,
        char_bits <= 14,
        (hi_bits, divisor) == spec_hi_layout(char_bits),
        forall|i: int|
            0 <= i < slots@.len() ==> (#[trigger] slots@[i]).0 < 4 && slots@[i].1 < (1u32
                << char_bits),
    ensures
        r.0@ == entries@,
        r.2@.len() == entries@.len(),
        hi_bits == 0 ==> r.1@.len() == 0,
        hi_bits != 0 ==> r.1@.len() * divisor >= entries@.len(),
        hi_bits != 0 ==> r.1@.len() == (entries@.len() + divisor - 1) / divisor as int,
        r.1@.len() <= entries@.len(),
        forall|t: int|
            entries@.len() <= t < r.1@.len() * divisor && hi_bits != 0 ==> get_bits(
                #[trigger] r.1@[t / divisor as int] as u32,
                (hi_bits * (t % divisor as int)) as u32,
                hi_bits,
            ) == 0,
        forall|i: int|
            0 <= i < entries@.len() ==> #[trigger] r.2@[i] as u32 == packed_id(slots@[i].0, slots@[i].1, char_bits) & 0xff,
        forall|i: int|
            0 <= i < entries@.len() && hi_bits != 0 ==> get_bits(
                #[trigger] r.1@[i as int / divisor as int] as u32,
                (hi_bits * (i as int % divisor as int)) as u32,
                hi_bits,
            ) == packed_id(slots@[i].0, slots@[i].1, char_bits) >> 8u32,
{
    let n = entries.len();
    let hi_len: usize = if hi_bits == 0 {
        0
    } else {
        (n + divisor as usize - 1) / divisor as usize
    };
    proof {
        if hi_bits != 0 {
            assert(hi_len * divisor >= n && hi_len <= n) by (nonlinear_arith)
                requires
                    divisor >= 2,
                    hi_len == (n + divisor - 1) / (divisor as int),
            ;
        }
    }
    let mut check: Vec<u16> = Vec::new();
    let mut id_lo: Vec<u8> = Vec::new();
    let mut id_hi: Vec<u16> = vec![0u16; hi_len];
    proof {
        assert forall|t: int| 0 <= t < hi_len implies id_hi@[t] == 0u16 by {
            assert(cloned(0u16, id_hi@[t]));
        }
        assert forall|t: int|
            0 <= t < hi_len * divisor && hi_bits != 0 implies get_bits(
                #[trigger] id_hi@[t / divisor as int] as u32,
                (hi_bits * (t % divisor as int)) as u32,
                hi_bits,
            ) == 0 by {
            assert((t / (divisor as int)) < hi_len) by (nonlinear_arith)
                requires
                    0 <= t < hi_len * divisor,
                    divisor >= 2,
            ;
            crate::bits::lemma_get_zero((hi_bits * (t % divisor as int)) as u32, hi_bits);
        }
    }
    let mut i: usize = 0;
    while i < n
        invariant
            n == entries@.len(),
            n == slots@.len(),
            n < 0x10000,
            char_bits <= 14,
            (hi_bits, divisor) == spec_hi_layout(char_bits),
            forall|t: int|
                0 <= t < slots@.len() ==> (#[trigger] slots@[t]).0 < 4 && slots@[t].1 < (1u32
                    << char_bits),
            i <= n,
            check@ == entries@.subrange(0, i as int),
            id_lo@.len() == i,
            id_hi@.len() == hi_len,
            hi_bits != 0 ==> hi_len * divisor >= n,
            forall|t: int|
                0 <= t < i ==> #[trigger] id_lo@[t] as u32 == packed_id(slots@[t].0, slots@[t].1, char_bits) & 0xff,
            forall|t: int|
                0 <= t < i && hi_bits != 0 ==> get_bits(
                    #[trigger] id_hi@[t / divisor as int] as u32,
                    (hi_bits * (t % divisor as int)) as u32,
                    hi_bits,
                ) == packed_id(slots@[t].0, slots@[t].1, char_bits) >> 8u32,
            forall|t: int|
                i <= t < hi_len * divisor && hi_bits != 0 ==> get_bits(
                    #[trigger] id_hi@[t / divisor as int] as u32,
                    (hi_bits * (t % divisor as int)) as u32,
                    hi_bits,
                ) == 0,
        decreases n - i,
    {
        let (plane, ch) = slots[i];
        proof {
            crate::bits::lemma_packed(plane as u32, ch as u32, char_bits, hi_bits);
        }
        let packed: u32 = ((plane as u32) << char_bits) | (ch as u32);
        check.push(entries[i]);
        proof {
            crate::bits::lemma_and_le(packed, 0xff);
        }
        id_lo.push((packed & 0xff) as u8);
        if hi_bits != 0 {
            let w = i / divisor as usize;
            let pos: u32 = hi_bits * (i as u32 % divisor);
            let ghost old_hi = id_hi@;
            proof {
                assert(w < hi_len) by (nonlinear_arith)
                    requires
                        i < n,
                        hi_len * divisor >= n,
                        w == i as int / divisor as int,
                        divisor >= 2,
                ;
                assert(hi_bits * (i as int % divisor as int) + hi_bits <= 16) by (nonlinear_arith)
                    requires
                        (hi_bits == 1 && divisor == 16) || (hi_bits == 2 && divisor == 8) || (
                        hi_bits == 4 && divisor == 4) || (hi_bits == 8 && divisor == 2),
                ;
                lemma_set_u16(old_hi[w as int] as u32, pos, hi_bits, packed >> 8u32);
                lemma_get_set_same(old_hi[w as int] as u32, pos, hi_bits, packed >> 8u32);
            }
            let word = write_field(id_hi[w] as u32, pos, hi_bits, packed >> 8u32);
            id_hi.set(w, word as u16);
            proof {
                assert forall|t: int|
                    0 <= t < i + 1 && hi_bits != 0 implies get_bits(
                        #[trigger] id_hi@[t / divisor as int] as u32,
                        (hi_bits * (t % divisor as int)) as u32,
                        hi_bits,
                    ) == packed_id(slots@[t].0, slots@[t].1, char_bits) >> 8u32 by {
                    if t < i {
                        assert(get_bits(old_hi[t / divisor as int] as u32, (hi_bits * (t % divisor as int)) as u32, hi_bits) == packed_id(slots@[t].0, slots@[t].1, char_bits) >> 8u32);
                        if t / divisor as int == w {
                            assert(hi_bits * (t % divisor as int) + hi_bits <= hi_bits * (i as int % divisor as int)) by (nonlinear_arith)
                                requires
                                    t < i,
                                    t / divisor as int == i as int / divisor as int,
                                    divisor >= 2,
                                    hi_bits >= 1,
                            ;
                            assert(hi_bits * (t % divisor as int) + hi_bits <= 16) by (nonlinear_arith)
                                requires
                                    (hi_bits == 1 && divisor == 16) || (hi_bits == 2 && divisor == 8) || (
                                    hi_bits == 4 && divisor == 4) || (hi_bits == 8 && divisor == 2),
                            ;
                            lemma_get_set_other(
                                old_hi[w as int] as u32,
                                pos,
                                hi_bits,
                                packed >> 8u32,
                                (hi_bits * (t % divisor as int)) as u32,
                                hi_bits,
                            );
                        }
                    }
                }
                assert forall|t: int|
                    i + 1 <= t < hi_len * divisor && hi_bits != 0 implies get_bits(
                        #[trigger] id_hi@[t / divisor as int] as u32,
                        (hi_bits * (t % divisor as int)) as u32,
                        hi_bits,
                    ) == 0 by {
                    assert((t / (divisor as int)) < hi_len) by (nonlinear_arith)
                        requires
                            0 <= t < hi_len * divisor,
                            divisor >= 2,
                    ;
                    assert(get_bits(old_hi[t / divisor as int] as u32, (hi_bits * (t % divisor as int)) as u32, hi_bits) == 0);
                    if t / divisor as int != w {
                        assert(id_hi@[t / divisor as int] == old_hi[t / divisor as int]);
                    }
                    if t / divisor as int == w {
                        assert(hi_bits * (i as int % divisor as int) + hi_bits <= hi_bits * (t % divisor as int)) by (nonlinear_arith)
                            requires
                                i < t,
                                t / divisor as int == i as int / divisor as int,
                                divisor >= 2,
                                hi_bits >= 1,
                        ;
                        assert(hi_bits * (t % divisor as int) + hi_bits <= 16) by (nonlinear_arith)
                            requires
                                (hi_bits == 1 && divisor == 16) || (hi_bits == 2 && divisor == 8) || (
                                hi_bits == 4 && divisor == 4) || (hi_bits == 8 && divisor == 2),
                        ;
                        lemma_get_set_other(
                            old_hi[w as int] as u32,
                            pos,
                            hi_bits,
                            packed >> 8u32,
                            (hi_bits * (t % divisor as int)) as u32,
                            hi_bits,
                        );
                    }
                }
            }
        }
        i = i + 1;
        proof {
            assert(check@ =~= entries@.subrange(0, i as int));
        }
    }
    proof {
        assert(check@ =~= entries@);
    }
    (check, id_hi, id_lo)
}


/// The encoded lookup tables of a font.
pub struct GlyphTables {
    /// The low plane bitmap.
    pub low_plane: Vec<u16>,
    /// The code point of each slot of the slot table.
    pub glyph_check: Vec<u16>,
    /// The high bits of the packed glyph IDs, `divisor` slots per word.
    pub glyph_id_hi: Vec<u16>,
    /// The low bytes of the packed glyph IDs.
    pub glyph_id_lo: Vec<u8>,
    /// The bits of character number in a packed glyph ID.
    pub glyph_char_bits: u32,
    /// The high bits per slot.
    pub hi_bits: u32,
    /// The slots per word of high bits.
    pub divisor: u32,
    /// The plane and character of the fallback glyph.
    pub fallback: (usize, usize),
    /// The size of all the font's data, in bytes.
    pub total_bytes: usize,
}

/// Whether `entries` lists, in increasing order, exactly the code points of the characters that
/// the slot map holds.
pub open spec fn entries_of(
    chars: Seq<CharacterInfo>,
    map: Map<u16, GlyphSlot>,
    entries: Seq<u16>,
) -> bool {
    &&& forall|a: int, b: int| 0 <= a < b < entries.len() ==> entries[a] < entries[b]
    &&& forall|a: int| 0 <= a < entries.len() ==> map.contains_key(#[trigger] entries[a])
    &&& forall|k: int|
        0 <= k < chars.len() && map.contains_key(#[trigger] chars[k].ch as u16) ==> entries.contains(
            chars[k].ch as u16,
        )
}

/// Whether the character numbers of a font fit in the bits that number its characters.
pub open spec fn char_numbers_fit(count: usize) -> bool {
    4 <= count <= 0x10000 && (count / 4) as u32 <= (1u32 << least_bits((count / 4 - 1) as u32, 0))
}

/// Whether `t` encodes the glyph assignment `g`: the low plane bitmap, the slot table of the
/// code points of the slot map in increasing order, the layout of the packed glyph IDs for the
/// font's character count, and the fallback glyph.
pub open spec fn tables_built(
    config: FontConfiguration,
    chars: Seq<CharacterInfo>,
    g: GlyphData,
    t: GlyphTables,
) -> bool {
    let cb = least_bits((config.character_count / 4 - 1) as u32, 0);
    let n = t.glyph_check@.len();
    &&& t.glyph_char_bits == cb
    &&& (t.hi_bits, t.divisor) == spec_hi_layout(cb)
    &&& t.low_plane@.len() == config.low_plane_limit / 16
    &&& forall|x: int| 0 <= x < config.low_plane_limit ==> word_bit(t.low_plane@, x) == #[trigger] g.low_plane@[x]
    &&& entries_of(chars, g.glyph_map@, t.glyph_check@)
    &&& n < 0x10000
    &&& t.glyph_id_lo@.len() == n
    &&& (t.hi_bits == 0 ==> t.glyph_id_hi@.len() == 0)
    &&& (t.hi_bits != 0 ==> t.glyph_id_hi@.len() * t.divisor >= n)
    &&& (t.hi_bits != 0 ==> t.glyph_id_hi@.len() == (n + t.divisor - 1) / t.divisor as int)
    &&& forall|i: int|
        n <= i < t.glyph_id_hi@.len() * t.divisor && t.hi_bits != 0 ==> get_bits(
            #[trigger] t.glyph_id_hi@[i / t.divisor as int] as u32,
            (t.hi_bits * (i % t.divisor as int)) as u32,
            t.hi_bits,
        ) == 0
    &&& forall|i: int|
        0 <= i < n ==> {
            let e = g.glyph_map@[#[trigger] t.glyph_check@[i]];
            &&& t.glyph_id_lo@[i] as u32 == packed_id(e.0, e.1, cb) & 0xff
            &&& t.hi_bits != 0 ==> get_bits(
                t.glyph_id_hi@[i / t.divisor as int] as u32,
                (t.hi_bits * (i % t.divisor as int)) as u32,
                t.hi_bits,
            ) == packed_id(e.0, e.1, cb) >> 8u32
        }
    &&& t.fallback == (g.glyph_lookup@[config.fallback_char as u16].0, g.glyph_lookup@[config.fallback_char as u16].1)
}

/// Encodes a font's glyph assignment as lookup tables: the low plane bitmap, and a slot table
/// holding the other code points in increasing order with their packed glyph IDs. The
/// fallback character must have a slot.
pub fn make_glyph_tables(
    config: &FontConfiguration,
    glyphs: &GlyphData,
    characters: &Vec<CharacterInfo>,
) -> (r: GlyphTables)
    requires
        crate::font_builder::planes::keys_ok(characters@),
        planes_built(*config, characters@, *glyphs),
        config.low_plane_limit % 16 == 0,
        characters@.len() < 0x10000,
        char_numbers_fit(config.character_count),
        glyphs.glyph_lookup@.contains_key(config.fallback_char as u16),
    ensures
        tables_built(*config, characters@, *glyphs, r),
        r.total_bytes == glyphs.data@.len() + r.low_plane@.len() * 2 + r.glyph_check@.len() * 2
            + r.glyph_id_hi@.len() * 2 + r.glyph_id_lo@.len(),
{
    let count = config.character_count;
    let low_plane = low_plane_words(&glyphs.low_plane);

    // the code points of the slot table, in increasing order
    let mut entries: Vec<u16> = Vec::new();
    let mut slots: Vec<(usize, usize)> = Vec::new();
    let cb = char_bits_for((count / 4 - 1) as u32);
    let n = characters.len();
    let mut k: usize = 0;
    while k < n
        invariant
            n == characters@.len(),
            crate::font_builder::planes::keys_ok(characters@),
            planes_built(*config, characters@, *glyphs),
            char_numbers_fit(config.character_count),
            count == config.character_count,
            cb == least_bits((count / 4 - 1) as u32, 0),
            k <= n,
            n < 0x10000,
            entries@.len() == slots@.len(),
            entries@.len() <= k,
            forall|a: int, b: int| 0 <= a < b < entries@.len() ==> entries@[a] < entries@[b],
            forall|a: int| 0 <= a < entries@.len() ==> k < n ==> entries@[a] < (characters@[k as int].ch as u32) as u16,
            forall|a: int| 0 <= a < entries@.len() ==> glyphs.glyph_map@.contains_key(#[trigger] entries@[a]),
            forall|a: int|
                0 <= a < entries@.len() ==> (#[trigger] slots@[a]).0 == glyphs.glyph_map@[entries@[a]].0
                    && slots@[a].1 == glyphs.glyph_map@[entries@[a]].1 && slots@[a].0 < 4 && slots@[a].1
                    < (1u32 << cb),
            forall|k2: int|
                0 <= k2 < k && glyphs.glyph_map@.contains_key(#[trigger] characters@[k2].ch as u16)
                    ==> entries@.contains(characters@[k2].ch as u16),
        decreases n - k,
    {
        let key = characters[k].ch as u16;
        let ghost before = entries@;
        if glyphs.glyph_map.contains_key(&key) {
            let e = *glyphs.glyph_map.get(&key).unwrap();
            proof {
                let cs = characters@;
                let ek = glyphs.glyph_lookup@[cs[k as int].ch as u16];
                assert(ek.1 < count / 4);
            }
            entries.push(key);
            slots.push((e.0, e.1));
            proof {
                assert(entries@[before.len() as int] == key);
                assert forall|k2: int|
                    0 <= k2 < k + 1 && glyphs.glyph_map@.contains_key(#[trigger] characters@[k2].ch as u16)
                        implies entries@.contains(characters@[k2].ch as u16) by {
                    if k2 < k {
                        let t = choose|t: int| 0 <= t < before.len() && before[t] == characters@[k2].ch as u16;
                        assert(entries@[t] == before[t]);
                    } else {
                        assert(entries@[before.len() as int] == characters@[k2].ch as u16);
                    }
                }
            }
        }
        k = k + 1;
        proof {
            if k < n {
                assert((characters@[k - 1].ch as u32) < (characters@[k as int].ch as u32));
                assert((characters@[k as int].ch as u32) < 0x10000);
                assert((characters@[k - 1].ch as u32) < 0x10000);
            }
        }
    }
    let (hi_bits, divisor) = hi_layout(cb);
    let (glyph_check, glyph_id_hi, glyph_id_lo) = encode_slots(&entries, &slots, cb, hi_bits, divisor);
    let fb = *glyphs.glyph_lookup.get(&(config.fallback_char as u16)).unwrap();
    let total_bytes = glyphs.data.len() + low_plane.len() * 2 + glyph_check.len() * 2
        + glyph_id_hi.len() * 2 + glyph_id_lo.len();
    GlyphTables {
        low_plane,
        glyph_check,
        glyph_id_hi,
        glyph_id_lo,
        glyph_char_bits: cb,
        hi_bits,
        divisor,
        fallback: (fb.0, fb.1),
        total_bytes,
    }
}


/// The shift that turns a slot number into its word of high bits.
pub open spec fn shift_of(divisor: u32) -> u32 {
    if divisor == 16 {
        4
    } else if divisor == 8 {
        3
    } else if divisor == 4 {
        2
    } else if divisor == 2 {
        1
    } else {
        0
    }
}

/// The terminal font tables that built tables make, for a font without half-width flags.
pub open spec fn tables_view(t: GlyphTables, low_limit: usize) -> FontView {
    FontView {
        lo_limit: low_limit as u32,
        lo_map: t.low_plane@,
        lo_map_half: Seq::empty(),
        low_miss_searches: false,
        check: t.glyph_check@,
        id_hi: t.glyph_id_hi@,
        id_lo: t.glyph_id_lo@,
        hi_bits: t.hi_bits,
        hi_index_shift: shift_of(t.divisor),
        hi_pos_mask: if t.hi_bits == 0 {
            0
        } else {
            (t.divisor - 1) as u32
        },
        char_bits: t.glyph_char_bits,
        half_flag: false,
        fallback: (t.fallback.0 as u8, t.fallback.1 as u16, false),
    }
}

/// Bounds of the number of bits that number `n` characters.
proof fn lemma_least_bits(n: u32, b: u32)
    requires
        b <= 14,
    ensures
        b <= least_bits(n, b) <= 14,
        n <= 1024 && b <= 10 ==> least_bits(n, b) <= 10,
    decreases 14 - b,
{
    lemma_shl_bounds(b);
    if b < 14 && (1u32 << b) < n {
        lemma_least_bits(n, (b + 1) as u32);
    }
}

/// Powers of two of small exponents.
proof fn lemma_shl_bounds(b: u32)
    by (bit_vector)
    requires
        b <= 14,
    ensures
        b == 0 ==> (1u32 << b) == 1,
        b == 10 ==> (1u32 << b) == 1024,
{
}

/// Looking a character of a built font up in the tables built for it gives the slot that holds
/// its glyph, for the code points of the low plane and those at or above the low plane limit.
pub proof fn lemma_built_font_lookup(
    config: FontConfiguration,
    chars: Seq<CharacterInfo>,
    g: GlyphData,
    t: GlyphTables,
    k: int,
)
    requires
        crate::font_builder::planes::keys_ok(chars),
        planes_built(config, chars, g),
        tables_built(config, chars, g, t),
        char_numbers_fit(config.character_count),
        config.low_plane_limit % 16 == 0,
        config.low_plane_limit <= 4096,
        12 <= config.character_count <= 4096,
        0 <= k < chars.len(),
        (chars[k].ch as u32) >= config.low_plane_limit || g.low_plane@[chars[k].ch as int],
    ensures
        tables_view(t, config.low_plane_limit).glyph(chars[k].ch as u32) == (
            g.glyph_lookup@[chars[k].ch as u16].0 as u8,
            g.glyph_lookup@[chars[k].ch as u16].1 as u16,
            false,
        ),
{
    let v = tables_view(t, config.low_plane_limit);
    let id = chars[k].ch as u32;
    let key = chars[k].ch as u16;
    let count = config.character_count;
    let low = config.low_plane_limit;
    let cb = t.glyph_char_bits;
    assert(id < 0x10000);
    assert(key as u32 == id);
    lemma_least_bits((count / 4 - 1) as u32, 0);
    assert(1 <= cb) by {
        lemma_shl_bounds(0);
    }
    if id < low {
        assert(g.low_plane@[id as int]);
        assert(word_bit(t.low_plane@, id as int));
        v.lemma_glyph_low(id);
    } else {
        assert(!(key < low && g.low_plane@[key as int]));
        assert(g.glyph_map@.contains_key(key));
        let e = g.glyph_map@[key];
        let check = t.glyph_check@;
        assert(check.contains(key));
        let i = choose|i: int| 0 <= i < check.len() && check[i] == key;
        assert forall|s2: int| 0 <= s2 < i implies !crate::display::fonts::slot_matches(check, id, s2) by {
            assert(check[s2] < check[i]);
        }
        assert(crate::display::fonts::is_first_slot(check, id, i));
        v.lemma_glyph_slot(id, i);
        assert(e.1 < count / 4);
        crate::bits::lemma_low_bits(i as u32);
        if t.hi_bits != 0 {
            assert(i / (t.divisor as int) < t.glyph_id_hi@.len()) by (nonlinear_arith)
                requires
                    0 <= i < check.len(),
                    t.glyph_id_hi@.len() * t.divisor >= check.len(),
                    t.divisor >= 2,
            ;
        }
        assert(v.hi_bits * (v.hi_pos_mask + 1) <= 16) by (nonlinear_arith)
            requires
                (v.hi_bits == 0 && v.hi_pos_mask == 0) || (v.hi_bits == 1 && v.hi_pos_mask == 15)
                    || (v.hi_bits == 2 && v.hi_pos_mask == 7) || (v.hi_bits == 4 && v.hi_pos_mask
                    == 3) || (v.hi_bits == 8 && v.hi_pos_mask == 1),
        ;
        v.lemma_decode_packed(i, e.0 as u32, e.1 as u32);
    }
}

} // verus!
