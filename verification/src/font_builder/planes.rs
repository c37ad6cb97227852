//! Assigning the glyphs of a font's characters to glyph slots, and laying the slots out as 4bpp
//! character data.
//!
//! Each 4bpp character of 32 bytes holds four 1bpp glyphs, one per bit plane. A glyph slot is a
//! pair `(plane, character)`, numbered `character * 4 + plane`. Code points below the low plane
//! limit use the slot with their own number where they can; the other code points take free
//! slots, sharing the slot of an equal glyph where one is stored already.
use crate::font_builder::chars::{
    data_is_half_width, sorted_by_ch, spec_half_width, CharacterInfo, FontConfiguration,
};
use std::collections::{HashMap, HashSet};
use vstd::prelude::*;

verus! {

broadcast use vstd::std_specs::hash::group_hash_axioms;

/// A glyph slot with whether the character using it is half-width.
pub type GlyphSlot = (usize, usize, bool);

/// The number of slot `(plane, character)`.
pub open spec fn slot_index(plane: usize, ch: usize) -> int {
    ch * 4 + plane
}

/// Whether pixel `(x, y)` of a glyph is set; the top-left pixel is the highest bit.
pub open spec fn pixel_on(glyph: u64, x: int, y: int) -> bool {
    (glyph >> ((63 - (x + 8 * y)) as u64)) & 1 == 1
}

/// Whether a bit of a byte is set.
pub open spec fn byte_bit(b: u8, bit: int) -> bool {
    (b >> (bit as u8)) & 1 == 1
}

/// Whether byte `b` of the 4bpp layout holds the pixels of glyph `g` in plane `p` at byte
/// position `j` of its character: pixel `(2 * (j % 4) + h, j / 4)` in bit `(3 - p) + 4 * h`.
pub open spec fn byte_matches(b: u8, g: u64, j: int, p: int) -> bool {
    &&& byte_bit(b, 3 - p) == pixel_on(g, 2 * (j % 4), j / 4)
    &&& byte_bit(b, 7 - p) == pixel_on(g, 2 * (j % 4) + 1, j / 4)
}

/// Whether `data` is the 4bpp layout of the glyph planes: byte `j` of character `c` holds the
/// pixels of the glyphs of slots `c * 4` to `c * 4 + 3`, as `byte_matches` says.
pub open spec fn interlaced(planes: Seq<u64>, chars: int, data: Seq<u8>) -> bool {
    &&& data.len() == chars * 32
    &&& forall|c: int, j: int, p: int|
        0 <= c < chars && 0 <= j < 32 && 0 <= p < 4 ==> byte_matches(
            #[trigger] data[c * 32 + j],
            #[trigger] planes[c * 4 + p],
            j,
            p,
        )
}

/// Byte `j` of a 4bpp character made of four glyph planes.
pub fn interlace_byte(g0: u64, g1: u64, g2: u64, g3: u64, j: usize) -> (r: u8)
    requires
        j < 32,
    ensures
        byte_matches(r, g0, j as int, 0),
        byte_matches(r, g1, j as int, 1),
        byte_matches(r, g2, j as int, 2),
        byte_matches(r, g3, j as int, 3),
{
    let s: u64 = (63 - (2 * (j % 4) + 8 * (j / 4))) as u64;
    let t: u64 = s - 1;
    let lo: u64 = (((g0 >> s) & 1) << 3) | (((g1 >> s) & 1) << 2) | (((g2 >> s) & 1) << 1) | ((g3
        >> s) & 1);
    let hi: u64 = (((g0 >> t) & 1) << 3) | (((g1 >> t) & 1) << 2) | (((g2 >> t) & 1) << 1) | ((g3
        >> t) & 1);
    let r: u8 = (lo | (hi << 4)) as u8;
    proof {
        assert((63 - (2 * (j % 4) + 8 * (j / 4))) as u64 == s);
        assert((63 - (2 * (j % 4) + 1 + 8 * (j / 4))) as u64 == t);
        lemma_interlace_bits(g0, g1, g2, g3, s, t, r);
    }
    r
}

/// The bits of a 4bpp byte built from the pixels at bit positions `s` and `t` of four glyphs.
proof fn lemma_interlace_bits(g0: u64, g1: u64, g2: u64, g3: u64, s: u64, t: u64, r: u8)
    by (bit_vector)
    requires
        r == ((((g0 >> s) & 1) << 3) | (((g1 >> s) & 1) << 2) | (((g2 >> s) & 1) << 1) | ((g3 >> s)
            & 1) | (((((g0 >> t) & 1) << 3) | (((g1 >> t) & 1) << 2) | (((g2 >> t) & 1) << 1) | ((g3
            >> t) & 1)) << 4u64)) as u8,
    ensures
        byte_bit(r, 3) == ((g0 >> s) & 1 == 1),
        byte_bit(r, 2) == ((g1 >> s) & 1 == 1),
        byte_bit(r, 1) == ((g2 >> s) & 1 == 1),
        byte_bit(r, 0) == ((g3 >> s) & 1 == 1),
        byte_bit(r, 7) == ((g0 >> t) & 1 == 1),
        byte_bit(r, 6) == ((g1 >> t) & 1 == 1),
        byte_bit(r, 5) == ((g2 >> t) & 1 == 1),
        byte_bit(r, 4) == ((g3 >> t) & 1 == 1),
{
}

/// Lays out glyph planes, four glyphs per character, as 4bpp character data.
pub fn interlace(planes: &Vec<u64>, chars: usize) -> (r: Vec<u8>)
    requires
        planes@.len() == chars * 4,
        chars * 32 <= usize::MAX,
    ensures
        interlaced(planes@, chars as int, r@),
{
    let mut data: Vec<u8> = Vec::new();
    let mut c: usize = 0;
    while c < chars
        invariant
            planes@.len() == chars * 4,
            chars * 32 <= usize::MAX,
            c <= chars,
            data@.len() == c * 32,
            forall|c2: int, j: int, p: int|
                0 <= c2 < c && 0 <= j < 32 && 0 <= p < 4 ==> byte_matches(
                    #[trigger] data@[c2 * 32 + j],
                    #[trigger] planes@[c2 * 4 + p],
                    j,
                    p,
                ),
        decreases chars - c,
    {
        let base = c * 4;
        let g0 = planes[base];
        let g1 = planes[base + 1];
        let g2 = planes[base + 2];
        let g3 = planes[base + 3];
        let mut j: usize = 0;
        while j < 32
            invariant
                planes@.len() == chars * 4,
                c < chars,
                base == c * 4,
                g0 == planes@[c * 4],
                g1 == planes@[c * 4 + 1],
                g2 == planes@[c * 4 + 2],
                g3 == planes@[c * 4 + 3],
                j <= 32,
                data@.len() == c * 32 + j,
                forall|c2: int, j2: int, p: int|
                    0 <= c2 < c && 0 <= j2 < 32 && 0 <= p < 4 ==> byte_matches(
                        #[trigger] data@[c2 * 32 + j2],
                        #[trigger] planes@[c2 * 4 + p],
                        j2,
                        p,
                    ),
                forall|j2: int, p: int|
                    0 <= j2 < j && 0 <= p < 4 ==> byte_matches(
                        #[trigger] data@[c * 32 + j2],
                        #[trigger] planes@[c * 4 + p],
                        j2,
                        p,
                    ),
            decreases 32 - j,
        {
            let b = interlace_byte(g0, g1, g2, g3, j);
            let ghost before = data@;
            data.push(b);
            proof {
                assert forall|c2: int, j2: int, p: int|
                    0 <= c2 < c && 0 <= j2 < 32 && 0 <= p < 4 implies byte_matches(
                        #[trigger] data@[c2 * 32 + j2],
                        #[trigger] planes@[c2 * 4 + p],
                        j2,
                        p,
                    ) by {
                    assert(c2 * 32 + j2 < c * 32) by (nonlinear_arith)
                        requires
                            c2 < c,
                            j2 < 32,
                    ;
                    assert(data@[c2 * 32 + j2] == before[c2 * 32 + j2]);
                }
                assert forall|j2: int, p: int|
                    0 <= j2 < j + 1 && 0 <= p < 4 implies byte_matches(
                        #[trigger] data@[c * 32 + j2],
                        #[trigger] planes@[c * 4 + p],
                        j2,
                        p,
                    ) by {
                    if j2 < j {
                        assert(data@[c * 32 + j2] == before[c * 32 + j2]);
                    } else {
                        assert(data@[c * 32 + j2] == b);
                    }
                }
            }
            j = j + 1;
        }
        c = c + 1;
    }
    data
}


/// Whether the code points of characters can key a table of 16-bit code points: all in the
/// basic multilingual plane, in strictly increasing order.
pub open spec fn keys_ok(chars: Seq<CharacterInfo>) -> bool {
    &&& sorted_by_ch(chars)
    &&& forall|k: int| 0 <= k < chars.len() ==> (#[trigger] chars[k].ch as u32) < 0x10000
}

/// Whether `e` is a valid slot holding the glyph of a character with 16-bit code point `key`.
pub open spec fn slot_holds(
    chars: Seq<CharacterInfo>,
    planes: Seq<u64>,
    count: int,
    key: u16,
    e: GlyphSlot,
) -> bool {
    &&& e.0 < 4
    &&& e.1 < count / 4
    &&& exists|k: int|
        0 <= k < chars.len() && chars[k].ch as u16 == key && planes[slot_index(e.0, e.1)]
            == chars[k].data && e.2 == chars[k].is_half_width
}

/// The glyph slot a font uses for each of its characters, and its 4bpp character data.
pub struct GlyphData {
    /// The character data: the glyph slots laid out four per 4bpp character.
    pub data: Vec<u8>,
    /// The glyph in each slot, by slot number.
    pub planes: Vec<u64>,
    /// For each code point below the low plane limit, whether it uses its own slot.
    pub low_plane: Vec<bool>,
    /// For each code point below the low plane limit, whether it is half-width.
    pub low_plane_half_width: Vec<bool>,
    /// The slots of the code points that do not use the low plane.
    pub glyph_map: HashMap<u16, GlyphSlot>,
    /// The slots of all code points.
    pub glyph_lookup: HashMap<u16, GlyphSlot>,
    /// The number of low plane code points that share a glyph with another one.
    pub dupe_low: usize,
    /// The number of free slots left.
    pub remaining_slots: usize,
}

/// The state of the slot assignment of a font.
#[verifier::ext_equal]
pub struct PlaneState {
    /// The number of glyph slots.
    pub count: usize,
    /// The code points below this may use their own slot.
    pub low_limit: usize,
    /// The code points at or above this may not repeat a stored glyph in their own slot.
    pub dupe_limit: usize,
    /// For each low code point, whether it uses its own slot.
    pub low_plane_table: Seq<bool>,
    /// For each low code point, whether it is half-width.
    pub low_plane_half_width: Seq<bool>,
    /// For each slot, whether it holds a glyph.
    pub slot_used: Seq<bool>,
    /// The free slots for full-width glyphs, taken from the end.
    pub available: Seq<(usize, usize)>,
    /// The free slots of 4bpp characters holding half-width glyphs, taken from the end.
    pub available_half: Seq<(usize, usize)>,
    /// The glyph in each slot.
    pub glyph_planes: Seq<u64>,
    /// The slots of the code points that do not use their own slot.
    pub glyph_map: Map<u16, GlyphSlot>,
    /// The slots of all code points.
    pub glyph_lookup: Map<u16, GlyphSlot>,
    /// For each 4bpp character, whether it holds half-width glyphs, once known.
    pub char_is_half: Seq<Option<bool>>,
    /// The glyphs that some half-width character uses.
    pub glyph_needs_half: Set<u64>,
    /// The slot where each stored glyph was first stored.
    pub glyph_assigned: Map<u64, (usize, usize)>,
    /// The number of low code points that repeat a stored glyph in their own slot.
    pub dupe_low: usize,
}

/// Records the width of a glyph for 4bpp character `ch`: `false` where it conflicts with the
/// width recorded. Glyphs that fit in half a cell and are not half-width record nothing.
pub open spec fn width_step(s: PlaneState, ch: int, data: u64, half: bool) -> (PlaneState, bool) {
    if half {
        if s.char_is_half[ch] == Some(false) {
            (s, false)
        } else {
            (PlaneState { char_is_half: s.char_is_half.update(ch, Some(true)), ..s }, true)
        }
    } else if !spec_half_width(data) {
        if s.char_is_half[ch] == Some(true) {
            (s, false)
        } else {
            (PlaneState { char_is_half: s.char_is_half.update(ch, Some(false)), ..s }, true)
        }
    } else {
        (s, true)
    }
}

/// Stores a low character in its own slot where it can: where it has no slot yet, the slot is
/// free or holds the same glyph, a code point at or above the duplicate limit does not repeat a
/// stored glyph, and the width its glyph needs agrees with the width recorded for its 4bpp
/// character. `false` where the width of the glyph then conflicts.
pub open spec fn low_step(s: PlaneState, i: CharacterInfo) -> (PlaneState, bool) {
    let key = i.ch as u16;
    let c = i.ch as usize as int;
    let plane = c % 4;
    let ch = c / 4;
    let assigned = s.glyph_assigned.contains_key(i.data);
    if s.glyph_lookup.contains_key(key) {
        (s, true)
    } else if !(!s.slot_used[c] || s.glyph_planes[c] == i.data) || (assigned && c >= s.dupe_limit)
        || s.char_is_half[ch] == Some(!s.glyph_needs_half.contains(i.data)) {
        (s, true)
    } else {
        let s1 = PlaneState {
            low_plane_table: s.low_plane_table.update(c, true),
            low_plane_half_width: s.low_plane_half_width.update(c, i.is_half_width),
            slot_used: s.slot_used.update(c, true),
            glyph_planes: s.glyph_planes.update(c, i.data),
            glyph_lookup: s.glyph_lookup.insert(key, (plane as usize, ch as usize, i.is_half_width)),
            glyph_assigned: if !assigned {
                s.glyph_assigned.insert(i.data, (plane as usize, ch as usize))
            } else {
                s.glyph_assigned
            },
            dupe_low: if assigned && s.dupe_low < usize::MAX {
                (s.dupe_low + 1) as usize
            } else {
                s.dupe_low
            },
            ..s
        };
        width_step(s1, ch, i.data, i.is_half_width)
    }
}

/// The free-slot lists after listing slot `(plane, c)` if it is free: in the half-width list
/// where its 4bpp character holds half-width glyphs.
pub open spec fn push_slot(
    l: (Seq<(usize, usize)>, Seq<(usize, usize)>),
    s: PlaneState,
    plane: int,
    c: int,
) -> (Seq<(usize, usize)>, Seq<(usize, usize)>) {
    if !s.slot_used[c * 4 + plane] {
        if s.char_is_half[c] != Some(true) {
            (l.0.push((plane as usize, c as usize)), l.1)
        } else {
            (l.0, l.1.push((plane as usize, c as usize)))
        }
    } else {
        l
    }
}

/// The free-slot lists after listing the planes from 3 down to `lo` of 4bpp character `c`.
pub open spec fn planes_down(
    l: (Seq<(usize, usize)>, Seq<(usize, usize)>),
    s: PlaneState,
    c: int,
    lo: int,
) -> (Seq<(usize, usize)>, Seq<(usize, usize)>)
    decreases 4 - lo,
{
    if lo >= 4 {
        l
    } else {
        push_slot(planes_down(l, s, c, lo + 1), s, lo, c)
    }
}

/// The free-slot lists after listing the 4bpp characters from the last down to `c`.
pub open spec fn avail_above(s: PlaneState, c: int) -> (Seq<(usize, usize)>, Seq<(usize, usize)>)
    decreases s.count / 4 - c,
{
    if c >= s.count / 4 {
        (s.available, s.available_half)
    } else {
        planes_down(avail_above(s, c + 1), s, c, 0)
    }
}

/// The state with every free slot listed, the lowest slot last.
pub open spec fn found_available(s: PlaneState) -> PlaneState {
    let l = avail_above(s, 0);
    PlaneState { available: l.0, available_half: l.1, ..s }
}

/// The first position from `i` on of a listed slot whose 4bpp character is not recorded as
/// full-width.
pub open spec fn first_half_slot(avail: Seq<(usize, usize)>, cih: Seq<Option<bool>>, i: int) -> Option<int>
    decreases avail.len() - i,
{
    if i < 0 || i >= avail.len() {
        None
    } else if cih[avail[i].1 as int] != Some(false) {
        Some(i)
    } else {
        first_half_slot(avail, cih, i + 1)
    }
}

/// Takes a free slot for a glyph that fits in half a cell: the first listed slot whose 4bpp
/// character is not recorded as full-width, or, where `can_use_normal`, the last slot of
/// either list.
pub open spec fn half_step(s: PlaneState, can_use_normal: bool) -> (PlaneState, Option<(usize, usize)>) {
    match first_half_slot(s.available, s.char_is_half, 0) {
        Some(i) => (PlaneState { available: s.available.remove(i), ..s }, Some(s.available[i])),
        None => if !can_use_normal {
            (s, None)
        } else if s.available.len() > 0 {
            (PlaneState { available: s.available.drop_last(), ..s }, Some(s.available.last()))
        } else if s.available_half.len() > 0 {
            (PlaneState { available_half: s.available_half.drop_last(), ..s }, Some(s.available_half.last()))
        } else {
            (s, None)
        },
    }
}

/// Takes a free slot for a full-width glyph: listed slots of 4bpp characters recorded as
/// half-width move to the half-width list until one of another character comes.
pub open spec fn full_slot(s: PlaneState) -> (PlaneState, Option<(usize, usize)>)
    decreases s.available.len(),
{
    if s.available.len() == 0 {
        (s, None)
    } else {
        let e = s.available.last();
        let s1 = PlaneState { available: s.available.drop_last(), ..s };
        if s.char_is_half[e.1 as int] == Some(true) {
            full_slot(PlaneState { available_half: s1.available_half.push(e), ..s1 })
        } else {
            (s1, Some(e))
        }
    }
}

/// Takes a free slot for a glyph: half-width characters take the last half-width slot, or a
/// slot of a character not recorded as full-width; glyphs that fit in half a cell prefer such
/// a slot; full-width glyphs take a slot of a character not recorded as half-width.
pub open spec fn next_step(s: PlaneState, is_half: bool, data: u64) -> (PlaneState, Option<(usize, usize)>) {
    if is_half {
        if s.available_half.len() > 0 {
            (PlaneState { available_half: s.available_half.drop_last(), ..s }, Some(s.available_half.last()))
        } else {
            half_step(s, false)
        }
    } else if spec_half_width(data) {
        half_step(s, true)
    } else {
        full_slot(s)
    }
}

/// Gives a character without a slot the slot of an equal stored glyph, or a free slot;
/// `false` when no slot is left or the width of the glyph conflicts.
pub open spec fn assign_step(s: PlaneState, i: CharacterInfo) -> (PlaneState, bool) {
    let key = i.ch as u16;
    if s.glyph_lookup.contains_key(key) {
        (s, true)
    } else if s.glyph_assigned.contains_key(i.data) {
        let a = s.glyph_assigned[i.data];
        let entry = (a.0, a.1, i.is_half_width);
        (
            PlaneState {
                glyph_map: s.glyph_map.insert(key, entry),
                glyph_lookup: s.glyph_lookup.insert(key, entry),
                ..s
            },
            true,
        )
    } else {
        let n = next_step(s, i.is_half_width, i.data);
        let s1 = n.0;
        match n.1 {
            None => (s1, false),
            Some(e) => {
                let slot = e.1 * 4 + e.0;
                if s1.slot_used[slot] {
                    (s1, false)
                } else {
                    let entry = (e.0, e.1, i.is_half_width);
                    let s2 = PlaneState {
                        glyph_map: s1.glyph_map.insert(key, entry),
                        glyph_lookup: s1.glyph_lookup.insert(key, entry),
                        glyph_planes: s1.glyph_planes.update(slot, i.data),
                        slot_used: s1.slot_used.update(slot, true),
                        glyph_assigned: s1.glyph_assigned.insert(i.data, (e.0, e.1)),
                        ..s1
                    };
                    width_step(s2, e.1 as int, i.data, i.is_half_width)
                }
            },
        }
    }
}

/// The glyphs of the half-width characters among the first `k`.
pub open spec fn needs_half_upto(chars: Seq<CharacterInfo>, k: int) -> Set<u64>
    decreases k,
{
    if k <= 0 {
        Set::empty()
    } else if chars[k - 1].is_half_width {
        needs_half_upto(chars, k - 1).insert(chars[k - 1].data)
    } else {
        needs_half_upto(chars, k - 1)
    }
}

/// The state before any slot is assigned.
pub open spec fn initial_state(config: FontConfiguration, chars: Seq<CharacterInfo>) -> PlaneState {
    PlaneState {
        count: config.character_count,
        low_limit: config.low_plane_limit,
        dupe_limit: config.low_plane_dupe_limit,
        low_plane_table: Seq::new(config.low_plane_limit as nat, |x: int| false),
        low_plane_half_width: Seq::new(config.low_plane_limit as nat, |x: int| false),
        slot_used: Seq::new(config.character_count as nat, |x: int| false),
        available: Seq::empty(),
        available_half: Seq::empty(),
        glyph_planes: Seq::new(config.character_count as nat, |x: int| 0u64),
        glyph_map: Map::empty(),
        glyph_lookup: Map::empty(),
        char_is_half: Seq::new((config.character_count / 4) as nat, |x: int| None),
        glyph_needs_half: needs_half_upto(chars, chars.len() as int),
        glyph_assigned: Map::empty(),
        dupe_low: 0,
    }
}

/// One character of a pass of the assignment: pass 0 gives the space its own slot, pass 1
/// the low characters whose glyph some half-width character uses, pass 2 all low characters,
/// and pass 3 gives every character a slot. `None` where the pass fails.
pub open spec fn pass_step(s: PlaneState, i: CharacterInfo, pass: int) -> Option<PlaneState> {
    let low = if pass == 3 {
        assign_step(s, i)
    } else {
        low_step(s, i)
    };
    let take = if pass == 0 {
        i.ch == ' '
    } else if pass == 1 {
        (i.ch as usize) < s.low_limit && s.glyph_needs_half.contains(i.data)
    } else if pass == 2 {
        (i.ch as usize) < s.low_limit
    } else {
        true
    };
    if !take {
        Some(s)
    } else if low.1 {
        Some(low.0)
    } else {
        None
    }
}

/// The state after a pass over the first `k` characters.
pub open spec fn run_pass(s: Option<PlaneState>, chars: Seq<CharacterInfo>, pass: int, k: int) -> Option<PlaneState>
    decreases k,
{
    if k <= 0 {
        s
    } else {
        match run_pass(s, chars, pass, k - 1) {
            None => None,
            Some(t) => pass_step(t, chars[k - 1], pass),
        }
    }
}

/// The state after the whole assignment, `None` where it fails: the three low plane passes,
/// the listing of the free slots, and the pass that gives every character a slot.
pub open spec fn planes_spec(config: FontConfiguration, chars: Seq<CharacterInfo>) -> Option<PlaneState> {
    let n = chars.len() as int;
    let a = run_pass(Some(initial_state(config, chars)), chars, 0, n);
    let b = run_pass(a, chars, 1, n);
    let c = run_pass(b, chars, 2, n);
    let d = match c {
        None => None,
        Some(t) => Some(found_available(t)),
    };
    run_pass(d, chars, 3, n)
}

/// A failed pass stays failed.
proof fn lemma_run_pass_none(s: Option<PlaneState>, chars: Seq<CharacterInfo>, pass: int, k: int, n: int)
    requires
        k <= n,
        run_pass(s, chars, pass, k) is None,
    ensures
        run_pass(s, chars, pass, n) is None,
    decreases n - k,
{
    if k < n {
        lemma_run_pass_none(s, chars, pass, k, n - 1);
    }
}

/// A pass started from a failure fails.
proof fn lemma_run_pass_from_none(chars: Seq<CharacterInfo>, pass: int, n: int)
    ensures
        run_pass(None, chars, pass, n) is None,
    decreases n,
{
    if n > 0 {
        lemma_run_pass_from_none(chars, pass, n - 1);
    }
}

/// A low-plane pass leaves the state as it is from the first character at or above the low
/// limit on, the characters being in code point order.
proof fn lemma_run_pass_rest(s: Option<PlaneState>, chars: Seq<CharacterInfo>, pass: int, k: int, n: int, t: PlaneState)
    requires
        pass == 1 || pass == 2,
        sorted_by_ch(chars),
        0 <= k < n <= chars.len(),
        (chars[k].ch as usize) >= t.low_limit,
        run_pass(s, chars, pass, k) == Some(t),
    ensures
        run_pass(s, chars, pass, n) == Some(t),
    decreases n - k,
{
    if n - 1 > k {
        lemma_run_pass_rest(s, chars, pass, k, n - 1, t);
        assert((chars[k].ch as u32) < (chars[n - 1].ch as u32));
    }
}

/// The state of the slot assignment.
struct GlyphPlaneBuilder {
    chars: Ghost<Seq<CharacterInfo>>,
    count: usize,
    low_limit: usize,
    dupe_limit: usize,
    low_plane_table: Vec<bool>,
    low_plane_half_width: Vec<bool>,
    slot_used: Vec<bool>,
    available: Vec<(usize, usize)>,
    available_half: Vec<(usize, usize)>,
    glyph_planes: Vec<u64>,
    glyph_map: HashMap<u16, GlyphSlot>,
    glyph_lookup: HashMap<u16, GlyphSlot>,
    char_is_half: Vec<Option<bool>>,
    glyph_needs_half: HashSet<u64>,
    glyph_assigned: HashMap<u64, (usize, usize)>,
    dupe_low: usize,
}

impl GlyphPlaneBuilder {
    /// The state of the assignment.
    spec fn state(&self) -> PlaneState {
        PlaneState {
            count: self.count,
            low_limit: self.low_limit,
            dupe_limit: self.dupe_limit,
            low_plane_table: self.low_plane_table@,
            low_plane_half_width: self.low_plane_half_width@,
            slot_used: self.slot_used@,
            available: self.available@,
            available_half: self.available_half@,
            glyph_planes: self.glyph_planes@,
            glyph_map: self.glyph_map@,
            glyph_lookup: self.glyph_lookup@,
            char_is_half: self.char_is_half@,
            glyph_needs_half: self.glyph_needs_half@,
            glyph_assigned: self.glyph_assigned@,
            dupe_low: self.dupe_low,
        }
    }

    spec fn inv(&self) -> bool {
        let chars = self.chars@;
        let count = self.count as int;
        &&& keys_ok(chars)
        &&& count % 4 == 0
        &&& count <= 0x10000
        &&& forall|k: int|
            0 <= k < chars.len() && (chars[k].ch as u32) < self.low_limit ==> (#[trigger] chars[k].ch as u32)
                < count
        &&& self.low_plane_table@.len() == self.low_limit
        &&& self.low_plane_half_width@.len() == self.low_limit
        &&& self.slot_used@.len() == count
        &&& self.glyph_planes@.len() == count
        &&& self.char_is_half@.len() == count / 4
        &&& forall|key: u16| #[trigger]
            self.glyph_lookup@.contains_key(key) ==> {
                let e = self.glyph_lookup@[key];
                &&& slot_holds(chars, self.glyph_planes@, count, key, e)
                &&& self.slot_used@[slot_index(e.0, e.1)]
            }
        &&& forall|key: u16| #[trigger]
            self.glyph_map@.contains_key(key) ==> self.glyph_lookup@.contains_key(key)
                && self.glyph_lookup@[key] == self.glyph_map@[key]
        &&& forall|key: u16| #[trigger]
            self.glyph_lookup@.contains_key(key) ==> self.glyph_map@.contains_key(key) || (key
                < self.low_limit && self.low_plane_table@[key as int])
        &&& forall|d: u64| #[trigger]
            self.glyph_assigned@.contains_key(d) ==> {
                let a = self.glyph_assigned@[d];
                &&& a.0 < 4
                &&& a.1 < count / 4
                &&& self.slot_used@[slot_index(a.0, a.1)]
                &&& self.glyph_planes@[slot_index(a.0, a.1)] == d
            }
        &&& forall|x: int|
            0 <= x < self.low_limit && #[trigger] self.low_plane_table@[x] ==> {
                &&& self.glyph_lookup@.contains_key(x as u16)
                &&& self.glyph_lookup@[x as u16] == ((x % 4) as usize, (x / 4) as usize, self.low_plane_half_width@[x])
            }
        &&& forall|i: int| 0 <= i < self.available@.len() ==> (#[trigger] self.available@[i]).0 < 4 && self.available@[i].1 < count / 4
        &&& forall|i: int| 0 <= i < self.available_half@.len() ==> (#[trigger] self.available_half@[i]).0 < 4 && self.available_half@[i].1 < count / 4
    }

    /// Records the width of a character's glyph for the 4bpp character holding it; `false`
    /// where it conflicts with the width recorded.
    fn set_plane_width(&mut self, ch: usize, data: u64, is_half_width: bool) -> (ok: bool)
        requires
            ch < old(self).char_is_half@.len(),
        ensures
            final(self).char_is_half@.len() == old(self).char_is_half@.len(),
            final(self).chars == old(self).chars,
            final(self).count == old(self).count,
            final(self).low_limit == old(self).low_limit,
            final(self).dupe_limit == old(self).dupe_limit,
            final(self).glyph_needs_half == old(self).glyph_needs_half,
            final(self).low_plane_table == old(self).low_plane_table,
            final(self).low_plane_half_width == old(self).low_plane_half_width,
            final(self).slot_used == old(self).slot_used,
            final(self).available == old(self).available,
            final(self).available_half == old(self).available_half,
            final(self).glyph_planes == old(self).glyph_planes,
            final(self).glyph_map == old(self).glyph_map,
            final(self).glyph_lookup == old(self).glyph_lookup,
            final(self).glyph_assigned == old(self).glyph_assigned,
            final(self).dupe_low == old(self).dupe_low,
            (final(self).state(), ok) == width_step(old(self).state(), ch as int, data, is_half_width),
    {
        if is_half_width {
            if self.char_is_half[ch] == Some(false) {
                return false;
            }
            self.char_is_half.set(ch, Some(true));
        } else if !data_is_half_width(data) {
            if self.char_is_half[ch] == Some(true) {
                return false;
            }
            self.char_is_half.set(ch, Some(false));
        }
        true
    }

    /// Stores a character in its own slot of the low plane where it can: where the slot is
    /// free or holds the same glyph, where a code point at or above the duplicate limit does
    /// not repeat a glyph stored already, and where the glyph's width agrees with the width
    /// recorded for its 4bpp character. Returns `false` on a width conflict.
    fn try_insert_low_plane(&mut self, i: CharacterInfo, Ghost(k): Ghost<int>) -> (ok: bool)
        requires
            old(self).inv(),
            0 <= k < old(self).chars@.len(),
            old(self).chars@[k] == i,
            (i.ch as u32) < old(self).low_limit,
        ensures
            final(self).inv(),
            final(self).chars == old(self).chars,
            final(self).count == old(self).count,
            final(self).low_limit == old(self).low_limit,
            final(self).dupe_limit == old(self).dupe_limit,
            forall|key: u16| #[trigger] old(self).glyph_lookup@.contains_key(key) ==> final(self).glyph_lookup@.contains_key(key),
            (final(self).state(), ok) == low_step(old(self).state(), i),
    {
        let ghost s0 = self.state();
        let key = i.ch as u16;
        if self.glyph_lookup.contains_key(&key) {
            return true;
        }
        let c = i.ch as usize;
        let plane = c % 4;
        let ch = c / 4;
        let slot = c;
        assert(slot_index(plane, ch) == c);
        let valid = !self.slot_used[slot] || self.glyph_planes[slot] == i.data;
        let assigned = self.glyph_assigned.contains_key(&i.data);
        let needs_half = self.glyph_needs_half.contains(&i.data);
        if !valid || (assigned && c >= self.dupe_limit) || self.char_is_half[ch] == Some(!needs_half) {
            return true;
        }
        let ghost old_planes = self.glyph_planes@;
        let ghost old_used = self.slot_used@;
        let ghost old_lookup = self.glyph_lookup@;
        let ghost old_assigned = self.glyph_assigned@;
        let ghost old_low = self.low_plane_table@;
        let ghost old_low_hw = self.low_plane_half_width@;
        self.low_plane_table.set(c, true);
        self.low_plane_half_width.set(c, i.is_half_width);
        self.slot_used.set(slot, true);
        self.glyph_planes.set(slot, i.data);
        self.glyph_lookup.insert(key, (plane, ch, i.is_half_width));
        if !assigned {
            self.glyph_assigned.insert(i.data, (plane, ch));
        } else if self.dupe_low < usize::MAX {
            self.dupe_low = self.dupe_low + 1;
        }
        proof {
            assert(key as int == c);
            assert forall|key2: u16| #[trigger] self.glyph_lookup@.contains_key(key2) implies {
                let e = self.glyph_lookup@[key2];
                &&& slot_holds(self.chars@, self.glyph_planes@, self.count as int, key2, e)
                &&& self.slot_used@[slot_index(e.0, e.1)]
            } by {
                if key2 != key {
                    let e = old_lookup[key2];
                    let k2 = choose|k2: int|
                        0 <= k2 < self.chars@.len() && self.chars@[k2].ch as u16 == key2
                            && old_planes[slot_index(e.0, e.1)] == self.chars@[k2].data && e.2
                            == self.chars@[k2].is_half_width;
                    assert(self.glyph_planes@[slot_index(e.0, e.1)] == self.chars@[k2].data);
                } else {
                    assert(self.glyph_planes@[slot_index(plane, ch)] == self.chars@[k].data);
                }
            }
            assert forall|d: u64| #[trigger] self.glyph_assigned@.contains_key(d) implies {
                let a = self.glyph_assigned@[d];
                &&& a.0 < 4
                &&& a.1 < self.count / 4
                &&& self.slot_used@[slot_index(a.0, a.1)]
                &&& self.glyph_planes@[slot_index(a.0, a.1)] == d
            } by {
                if d != i.data || assigned {
                    let a = old_assigned[d];
                    assert(old_used[slot_index(a.0, a.1)]);
                }
            }
            assert forall|x: int|
                0 <= x < self.low_limit && #[trigger] self.low_plane_table@[x] implies {
                    &&& self.glyph_lookup@.contains_key(x as u16)
                    &&& self.glyph_lookup@[x as u16] == ((x % 4) as usize, (x / 4) as usize, self.low_plane_half_width@[x])
                } by {
                if x != c {
                    assert(old_low[x]);
                    assert(old_lookup.contains_key(x as u16));
                }
            }
            let cc = i.ch as usize as int;
            let s1 = PlaneState {
                low_plane_table: s0.low_plane_table.update(cc, true),
                low_plane_half_width: s0.low_plane_half_width.update(cc, i.is_half_width),
                slot_used: s0.slot_used.update(cc, true),
                glyph_planes: s0.glyph_planes.update(cc, i.data),
                glyph_lookup: s0.glyph_lookup.insert(key, ((cc % 4) as usize, (cc / 4) as usize, i.is_half_width)),
                glyph_assigned: if !assigned {
                    s0.glyph_assigned.insert(i.data, ((cc % 4) as usize, (cc / 4) as usize))
                } else {
                    s0.glyph_assigned
                },
                dupe_low: if assigned && s0.dupe_low < usize::MAX {
                    (s0.dupe_low + 1) as usize
                } else {
                    s0.dupe_low
                },
                ..s0
            };
            assert(self.state() =~= s1);
        }
        self.set_plane_width(ch, i.data, i.is_half_width)
    }

    /// Lists the free slots, taking the slots of 4bpp characters recorded as half-width
    /// apart; the lists are taken from their ends, lowest slot first.
    fn find_available(&mut self)
        requires
            old(self).inv(),
        ensures
            final(self).inv(),
            final(self).chars == old(self).chars,
            final(self).count == old(self).count,
            final(self).low_limit == old(self).low_limit,
            final(self).glyph_lookup == old(self).glyph_lookup,
            final(self).glyph_map == old(self).glyph_map,
            final(self).glyph_planes == old(self).glyph_planes,
            final(self).low_plane_table == old(self).low_plane_table,
            final(self).low_plane_half_width == old(self).low_plane_half_width,
            final(self).state() == found_available(old(self).state()),
    {
        let ghost s0 = self.state();
        let n = self.count / 4;
        let mut ch = n;
        while ch > 0
            invariant
                self.inv(),
                n == self.count / 4,
                ch <= n,
                self.chars == old(self).chars,
                self.count == old(self).count,
                self.low_limit == old(self).low_limit,
                self.glyph_lookup == old(self).glyph_lookup,
                self.glyph_map == old(self).glyph_map,
                self.glyph_planes == old(self).glyph_planes,
                self.low_plane_table == old(self).low_plane_table,
                self.low_plane_half_width == old(self).low_plane_half_width,
                s0 == old(self).state(),
                n == s0.count / 4,
                self.state() == (PlaneState { available: self.available@, available_half: self.available_half@, ..s0 }),
                (self.available@, self.available_half@) == avail_above(s0, ch as int),
            decreases ch,
        {
            ch = ch - 1;
            assert(planes_down(avail_above(s0, ch + 1), s0, ch as int, 4) == avail_above(s0, ch + 1));
            let mut plane: usize = 4;
            while plane > 0
                invariant
                    self.inv(),
                    n == self.count / 4,
                    ch < n,
                    plane <= 4,
                    self.chars == old(self).chars,
                    self.count == old(self).count,
                    self.low_limit == old(self).low_limit,
                    self.glyph_lookup == old(self).glyph_lookup,
                    self.glyph_map == old(self).glyph_map,
                    self.glyph_planes == old(self).glyph_planes,
                    self.low_plane_table == old(self).low_plane_table,
                    self.low_plane_half_width == old(self).low_plane_half_width,
                    s0 == old(self).state(),
                    n == s0.count / 4,
                    self.state() == (PlaneState { available: self.available@, available_half: self.available_half@, ..s0 }),
                    (self.available@, self.available_half@) == planes_down(avail_above(s0, ch + 1), s0, ch as int, plane as int),
                decreases plane,
            {
                plane = plane - 1;
                if !self.slot_used[ch * 4 + plane] {
                    if self.char_is_half[ch] != Some(true) {
                        self.available.push((plane, ch));
                    } else {
                        self.available_half.push((plane, ch));
                    }
                }
                assert(self.state() =~= (PlaneState { available: self.available@, available_half: self.available_half@, ..s0 }));
            }
        }
    }

    /// Takes a free slot that may hold a half-width glyph: the first listed slot whose 4bpp
    /// character is not recorded as full-width, or, where `can_use_normal`, any slot left.
    fn first_available_half(&mut self, can_use_normal: bool) -> (r: Option<(usize, usize)>)
        requires
            old(self).inv(),
        ensures
            final(self).inv(),
            final(self).chars == old(self).chars,
            final(self).count == old(self).count,
            final(self).low_limit == old(self).low_limit,
            final(self).glyph_lookup == old(self).glyph_lookup,
            final(self).glyph_map == old(self).glyph_map,
            final(self).glyph_planes == old(self).glyph_planes,
            final(self).glyph_assigned == old(self).glyph_assigned,
            final(self).slot_used == old(self).slot_used,
            final(self).char_is_half == old(self).char_is_half,
            final(self).low_plane_table == old(self).low_plane_table,
            final(self).low_plane_half_width == old(self).low_plane_half_width,
            r matches Some(e) ==> e.0 < 4 && e.1 < final(self).count / 4,
            (final(self).state(), r) == half_step(old(self).state(), can_use_normal),
    {
        let ghost s0 = self.state();
        let mut i: usize = 0;
        while i < self.available.len()
            invariant
                self.inv(),
                *self == *old(self),
                s0 == old(self).state(),
                i <= self.available@.len(),
                first_half_slot(s0.available, s0.char_is_half, 0) == first_half_slot(s0.available, s0.char_is_half, i as int),
            decreases self.available@.len() - i,
        {
            let e = self.available[i];
            if self.char_is_half[e.1] != Some(false) {
                let r = self.available.remove(i);
                assert(self.state() =~= PlaneState { available: s0.available.remove(i as int), ..s0 });
                return Some(r);
            }
            i = i + 1;
        }
        if can_use_normal {
            match self.available.pop() {
                Some(e) => {
                    assert(self.state() =~= PlaneState { available: s0.available.drop_last(), ..s0 });
                    Some(e)
                },
                None => {
                    let r = self.available_half.pop();
                    assert(self.state() =~= PlaneState { available: s0.available, available_half: if s0.available_half.len() > 0 {
                        s0.available_half.drop_last()
                    } else {
                        s0.available_half
                    }, ..s0 });
                    r
                },
            }
        } else {
            None
        }
    }

    /// Takes a free slot for a glyph: half-width characters take a slot of a half-width 4bpp
    /// character, glyphs that fit in half a cell prefer one, and full-width glyphs take a slot
    /// of a 4bpp character not recorded as half-width. `None` when no slot is left.
    fn next_available(&mut self, is_half: bool, data: u64) -> (r: Option<(usize, usize)>)
        requires
            old(self).inv(),
        ensures
            final(self).inv(),
            final(self).chars == old(self).chars,
            final(self).count == old(self).count,
            final(self).low_limit == old(self).low_limit,
            final(self).glyph_lookup == old(self).glyph_lookup,
            final(self).glyph_map == old(self).glyph_map,
            final(self).glyph_planes == old(self).glyph_planes,
            final(self).glyph_assigned == old(self).glyph_assigned,
            final(self).slot_used == old(self).slot_used,
            final(self).char_is_half == old(self).char_is_half,
            final(self).low_plane_table == old(self).low_plane_table,
            final(self).low_plane_half_width == old(self).low_plane_half_width,
            r matches Some(e) ==> e.0 < 4 && e.1 < final(self).count / 4,
            (final(self).state(), r) == next_step(old(self).state(), is_half, data),
    {
        let ghost s0 = self.state();
        if is_half {
            match self.available_half.pop() {
                Some(slot) => {
                    assert(self.state() =~= PlaneState { available_half: s0.available_half.drop_last(), ..s0 });
                    Some(slot)
                },
                None => {
                    assert(self.state() =~= s0);
                    self.first_available_half(false)
                },
            }
        } else if data_is_half_width(data) {
            self.first_available_half(true)
        } else {
            loop
                invariant
                    self.inv(),
                    self.chars == old(self).chars,
                    self.count == old(self).count,
                    self.low_limit == old(self).low_limit,
                    self.glyph_lookup == old(self).glyph_lookup,
                    self.glyph_map == old(self).glyph_map,
                    self.glyph_planes == old(self).glyph_planes,
                    self.glyph_assigned == old(self).glyph_assigned,
                    self.slot_used == old(self).slot_used,
                    self.char_is_half == old(self).char_is_half,
                    self.low_plane_table == old(self).low_plane_table,
                    self.low_plane_half_width == old(self).low_plane_half_width,
                    s0 == old(self).state(),
                    !is_half && !spec_half_width(data),
                    full_slot(self.state()) == full_slot(s0),
                decreases self.available@.len(),
            {
                let ghost st = self.state();
                match self.available.pop() {
                    Some(e) => {
                        let ghost s1 = PlaneState { available: st.available.drop_last(), ..st };
                        assert(self.state() =~= s1);
                        if self.char_is_half[e.1] == Some(true) {
                            self.available_half.push(e);
                            assert(self.state() =~= PlaneState { available_half: s1.available_half.push(e), ..s1 });
                        } else {
                            return Some(e);
                        }
                    },
                    None => {
                        assert(self.state() =~= st);
                        return None;
                    },
                }
            }
        }
    }

    /// Gives a character outside the low plane a slot: the slot of an equal glyph stored
    /// already, or a free slot. Returns `false` when no slot is left or widths conflict.
    fn try_assign_character(&mut self, i: CharacterInfo, Ghost(k): Ghost<int>) -> (ok: bool)
        requires
            old(self).inv(),
            0 <= k < old(self).chars@.len(),
            old(self).chars@[k] == i,
        ensures
            final(self).inv(),
            final(self).chars == old(self).chars,
            final(self).count == old(self).count,
            final(self).low_limit == old(self).low_limit,
            final(self).low_plane_table == old(self).low_plane_table,
            final(self).low_plane_half_width == old(self).low_plane_half_width,
            forall|key: u16| #[trigger] old(self).glyph_lookup@.contains_key(key) ==> final(self).glyph_lookup@.contains_key(key),
            ok ==> final(self).glyph_lookup@.contains_key(i.ch as u16),
            (final(self).state(), ok) == assign_step(old(self).state(), i),
    {
        let ghost s0 = self.state();
        let key = i.ch as u16;
        if self.glyph_lookup.contains_key(&key) {
            return true;
        }
        let found = match self.glyph_assigned.get(&i.data) {
            Some(a) => Some(*a),
            None => None,
        };
        match found {
            Some(a) => {
                let (p, c) = a;
                let entry = (p, c, i.is_half_width);
                let ghost old_lookup = self.glyph_lookup@;
                self.glyph_map.insert(key, entry);
                self.glyph_lookup.insert(key, entry);
                proof {
                    assert(slot_holds(self.chars@, self.glyph_planes@, self.count as int, key, entry));
                    assert forall|x: int|
                        0 <= x < self.low_limit && #[trigger] self.low_plane_table@[x] implies {
                            &&& self.glyph_lookup@.contains_key(x as u16)
                            &&& self.glyph_lookup@[x as u16] == ((x % 4) as usize, (x / 4) as usize, self.low_plane_half_width@[x])
                        } by {
                        assert(old_lookup.contains_key(x as u16));
                    }
                    assert(self.state() =~= PlaneState {
                        glyph_map: s0.glyph_map.insert(key, entry),
                        glyph_lookup: s0.glyph_lookup.insert(key, entry),
                        ..s0
                    });
                }
                true
            },
            None => {
                let r = self.next_available(i.is_half_width, i.data);
                let ghost s1 = self.state();
                match r {
                    None => false,
                    Some(e) => {
                        let (p, c) = e;
                        let slot = c * 4 + p;
                        if self.slot_used[slot] {
                            return false;
                        }
                        let entry = (p, c, i.is_half_width);
                        let ghost old_planes = self.glyph_planes@;
                        let ghost old_lookup = self.glyph_lookup@;
                        let ghost old_assigned = self.glyph_assigned@;
                        self.glyph_map.insert(key, entry);
                        self.glyph_lookup.insert(key, entry);
                        self.glyph_planes.set(slot, i.data);
                        self.slot_used.set(slot, true);
                        self.glyph_assigned.insert(i.data, (p, c));
                        proof {
                            assert forall|key2: u16| #[trigger] self.glyph_lookup@.contains_key(key2) implies {
                                let e2 = self.glyph_lookup@[key2];
                                &&& slot_holds(self.chars@, self.glyph_planes@, self.count as int, key2, e2)
                                &&& self.slot_used@[slot_index(e2.0, e2.1)]
                            } by {
                                if key2 != key {
                                    let e2 = old_lookup[key2];
                                    let k2 = choose|k2: int|
                                        0 <= k2 < self.chars@.len() && self.chars@[k2].ch as u16 == key2
                                            && old_planes[slot_index(e2.0, e2.1)] == self.chars@[k2].data
                                            && e2.2 == self.chars@[k2].is_half_width;
                                    assert(self.glyph_planes@[slot_index(e2.0, e2.1)] == self.chars@[k2].data);
                                } else {
                                    assert(self.glyph_planes@[slot_index(p, c)] == self.chars@[k].data);
                                }
                            }
                            assert forall|d: u64| #[trigger] self.glyph_assigned@.contains_key(d) implies {
                                let a = self.glyph_assigned@[d];
                                &&& a.0 < 4
                                &&& a.1 < self.count / 4
                                &&& self.slot_used@[slot_index(a.0, a.1)]
                                &&& self.glyph_planes@[slot_index(a.0, a.1)] == d
                            } by {
                                if d != i.data {
                                    let a = old_assigned[d];
                                    assert(slot_index(a.0, a.1) != slot_index(p, c));
                                }
                            }
                            assert forall|x: int|
                                0 <= x < self.low_limit && #[trigger] self.low_plane_table@[x] implies {
                                    &&& self.glyph_lookup@.contains_key(x as u16)
                                    &&& self.glyph_lookup@[x as u16] == ((x % 4) as usize, (x / 4) as usize, self.low_plane_half_width@[x])
                                } by {
                                assert(old_lookup.contains_key(x as u16));
                            }
                            assert(self.state() =~= PlaneState {
                                glyph_map: s1.glyph_map.insert(key, entry),
                                glyph_lookup: s1.glyph_lookup.insert(key, entry),
                                glyph_planes: s1.glyph_planes.update(slot as int, i.data),
                                slot_used: s1.slot_used.update(slot as int, true),
                                glyph_assigned: s1.glyph_assigned.insert(i.data, (p, c)),
                                ..s1
                            });
                        }
                        self.set_plane_width(c, i.data, i.is_half_width)
                    },
                }
            },
        }
    }
}


/// Two characters of a list with the same 16-bit code point are the same entry.
proof fn lemma_key_unique(chars: Seq<CharacterInfo>, a: int, b: int)
    requires
        keys_ok(chars),
        0 <= a < chars.len(),
        0 <= b < chars.len(),
        chars[a].ch as u16 == chars[b].ch as u16,
    ensures
        a == b,
{
    assert((chars[a].ch as u32) < 0x10000);
    assert((chars[b].ch as u32) < 0x10000);
    if a < b {
        assert((chars[a].ch as u32) < (chars[b].ch as u32));
    } else if b < a {
        assert((chars[b].ch as u32) < (chars[a].ch as u32));
    }
}

/// Whether every character of the list has a slot holding its glyph, with its width.
pub open spec fn all_assigned(
    chars: Seq<CharacterInfo>,
    lookup: Map<u16, GlyphSlot>,
    planes: Seq<u64>,
    count: int,
) -> bool {
    forall|k: int|
        0 <= k < chars.len() ==> {
            let key = (#[trigger] chars[k]).ch as u16;
            let e = lookup[key];
            &&& lookup.contains_key(key)
            &&& e.0 < 4
            &&& e.1 < count / 4
            &&& planes[slot_index(e.0, e.1)] == chars[k].data
            &&& e.2 == chars[k].is_half_width
        }
}

/// Whether `g` assigns every character of a font to a slot holding its glyph: the slots are
/// laid out as 4bpp character data, low plane code points use their own slot, and the slot
/// map holds the other code points.
pub open spec fn planes_built(config: FontConfiguration, chars: Seq<CharacterInfo>, g: GlyphData) -> bool {
    let count = config.character_count as int;
    &&& g.planes@.len() == count
    &&& interlaced(g.planes@, count / 4, g.data@)
    &&& all_assigned(chars, g.glyph_lookup@, g.planes@, count)
    &&& g.low_plane@.len() == config.low_plane_limit
    &&& g.low_plane_half_width@.len() == config.low_plane_limit
    &&& forall|x: int|
        0 <= x < config.low_plane_limit && #[trigger] g.low_plane@[x] ==> {
            &&& g.glyph_lookup@.contains_key(x as u16)
            &&& g.glyph_lookup@[x as u16] == ((x % 4) as usize, (x / 4) as usize, g.low_plane_half_width@[x])
        }
    &&& forall|key: u16| #[trigger]
        g.glyph_map@.contains_key(key) ==> g.glyph_lookup@.contains_key(key)
            && g.glyph_lookup@[key] == g.glyph_map@[key]
    &&& forall|key: u16| #[trigger]
        g.glyph_lookup@.contains_key(key) ==> g.glyph_map@.contains_key(key) || (key
            < config.low_plane_limit && g.low_plane@[key as int])
}

/// Assigns the characters of a font, in code point order, to glyph slots, and lays the slots
/// out as 4bpp character data.
///
/// The space character, then the low characters with a glyph some half-width character uses,
/// then the other low characters get their own slot where they can; the others then share a
/// stored equal glyph or take free slots. Returns `None` when the slots run out or a 4bpp
/// character would hold both half-width and full-width glyphs.
pub fn build_planes(config: &FontConfiguration, characters: &Vec<CharacterInfo>) -> (r: Option<
    GlyphData,
>)
    requires
        keys_ok(characters@),
        config.character_count % 4 == 0,
        config.character_count <= 0x10000,
        forall|k: int|
            0 <= k < characters@.len() && (characters@[k].ch as u32) < config.low_plane_limit
                ==> (#[trigger] characters@[k].ch as u32) < config.character_count,
        (exists|k: int| 0 <= k < characters@.len() && (#[trigger] characters@[k]).ch == ' ')
            ==> 32 < config.low_plane_limit,
    ensures
        r is None <==> planes_spec(*config, characters@) is None,
        r matches Some(g) ==> {
            &&& planes_built(*config, characters@, g)
            &&& planes_spec(*config, characters@) matches Some(t)
            &&& g.planes@ == t.glyph_planes
            &&& g.low_plane@ == t.low_plane_table
            &&& g.low_plane_half_width@ == t.low_plane_half_width
            &&& g.glyph_map@ == t.glyph_map
            &&& g.glyph_lookup@ == t.glyph_lookup
            &&& g.dupe_low == t.dupe_low
            &&& g.remaining_slots == if t.available.len() + t.available_half.len() <= usize::MAX {
                (t.available.len() + t.available_half.len()) as usize
            } else {
                usize::MAX
            }
        },
{
    let ghost cs = characters@;
    let ghost n_all = cs.len() as int;
    let ghost init = initial_state(*config, cs);
    let count = config.character_count;
    let low = config.low_plane_limit;
    let mut builder = GlyphPlaneBuilder {
        chars: Ghost(characters@),
        count,
        low_limit: low,
        dupe_limit: config.low_plane_dupe_limit,
        low_plane_table: vec![false; low],
        low_plane_half_width: vec![false; low],
        slot_used: vec![false; count],
        available: Vec::new(),
        available_half: Vec::new(),
        glyph_planes: vec![0u64; count],
        glyph_map: HashMap::new(),
        glyph_lookup: HashMap::new(),
        char_is_half: vec![None; count / 4],
        glyph_needs_half: HashSet::new(),
        glyph_assigned: HashMap::new(),
        dupe_low: 0,
    };
    proof {
        assert forall|x: int| 0 <= x < low implies !builder.low_plane_table@[x] by {
            assert(cloned(false, builder.low_plane_table@[x]));
        }
        assert forall|t: int| 0 <= t < count implies !builder.slot_used@[t] by {
            assert(cloned(false, builder.slot_used@[t]));
        }
        assert forall|x: int| 0 <= x < low implies !builder.low_plane_half_width@[x] by {
            assert(cloned(false, builder.low_plane_half_width@[x]));
        }
        assert forall|t: int| 0 <= t < count implies builder.glyph_planes@[t] == 0u64 by {
            assert(cloned(0u64, builder.glyph_planes@[t]));
        }
        assert forall|t: int| 0 <= t < count / 4 implies builder.char_is_half@[t] is None by {
            assert(cloned(None::<bool>, builder.char_is_half@[t]));
        }
        assert(builder.state() =~= PlaneState { glyph_needs_half: needs_half_upto(cs, 0), ..init });
    }
    let n = characters.len();

    // preprocess glyphs
    let mut k: usize = 0;
    while k < n
        invariant
            builder.inv(),
            builder.chars@ == characters@,
            n == characters@.len(),
            builder.count == count,
            builder.low_limit == low,
            k <= n,
            cs == characters@,
            init == initial_state(*config, cs),
            builder.state() == (PlaneState { glyph_needs_half: needs_half_upto(cs, k as int), ..init }),
        decreases n - k,
    {
        let i = characters[k];
        if i.is_half_width {
            builder.glyph_needs_half.insert(i.data);
        }
        k = k + 1;
        assert(builder.state() =~= PlaneState { glyph_needs_half: needs_half_upto(cs, k as int), ..init });
    }
    assert(builder.state() == init);

    // assign low plane
    let mut k: usize = 0;
    while k < n
        invariant
            builder.inv(),
            builder.chars@ == characters@,
            n == characters@.len(),
            builder.count == count,
            builder.low_limit == low,
            (exists|j: int| 0 <= j < n && (#[trigger] cs[j]).ch == ' ') ==> 32 < low,
            k <= n,
            cs == characters@,
            n_all == n,
            init == initial_state(*config, cs),
            run_pass(Some(init), cs, 0, k as int) == Some(builder.state()),
        decreases n - k,
    {
        let i = characters[k];
        if i.ch == ' ' {
            assert(cs[k as int].ch == ' ');
            if !builder.try_insert_low_plane(i, Ghost(k as int)) {
                proof {
                    lemma_run_pass_none(Some(init), cs, 0, k + 1, n_all);
                    lemma_run_pass_from_none(cs, 1, n_all);
                    lemma_run_pass_from_none(cs, 2, n_all);
                    lemma_run_pass_from_none(cs, 3, n_all);
                }
                return None;
            }
        }
        k = k + 1;
    }
    let ghost pa = run_pass(Some(init), cs, 0, n_all);
    let mut k: usize = 0;
    while k < n
        invariant
            builder.inv(),
            builder.chars@ == characters@,
            n == characters@.len(),
            builder.count == count,
            builder.low_limit == low,
            k <= n,
            cs == characters@,
            n_all == n,
            init == initial_state(*config, cs),
            pa == run_pass(Some(init), cs, 0, n_all),
            run_pass(pa, cs, 1, k as int) == Some(builder.state()),
        ensures
            run_pass(pa, cs, 1, n_all) == Some(builder.state()),
        decreases n - k,
    {
        let i = characters[k];
        if i.ch as usize >= low {
            proof {
                lemma_run_pass_rest(pa, cs, 1, k as int, n_all, builder.state());
            }
            break;
        }
        if builder.glyph_needs_half.contains(&i.data) {
            if !builder.try_insert_low_plane(i, Ghost(k as int)) {
                proof {
                    lemma_run_pass_none(pa, cs, 1, k + 1, n_all);
                    lemma_run_pass_from_none(cs, 2, n_all);
                    lemma_run_pass_from_none(cs, 3, n_all);
                }
                return None;
            }
        }
        k = k + 1;
    }
    let ghost pb = run_pass(pa, cs, 1, n_all);
    let mut k: usize = 0;
    while k < n
        invariant
            builder.inv(),
            builder.chars@ == characters@,
            n == characters@.len(),
            builder.count == count,
            builder.low_limit == low,
            k <= n,
            cs == characters@,
            n_all == n,
            init == initial_state(*config, cs),
            pb == run_pass(run_pass(Some(init), cs, 0, n_all), cs, 1, n_all),
            run_pass(pb, cs, 2, k as int) == Some(builder.state()),
        ensures
            run_pass(pb, cs, 2, n_all) == Some(builder.state()),
        decreases n - k,
    {
        let i = characters[k];
        if i.ch as usize >= low {
            proof {
                lemma_run_pass_rest(pb, cs, 2, k as int, n_all, builder.state());
            }
            break;
        }
        if !builder.try_insert_low_plane(i, Ghost(k as int)) {
            proof {
                lemma_run_pass_none(pb, cs, 2, k + 1, n_all);
                lemma_run_pass_from_none(cs, 3, n_all);
            }
            return None;
        }
        k = k + 1;
    }

    // build table of available glyph locations
    builder.find_available();
    let ghost pd = Some(builder.state());
    assert(pd == (match run_pass(pb, cs, 2, n_all) {
        None => None,
        Some(t) => Some(found_available(t)),
    }));
    assert(planes_spec(*config, cs) == run_pass(pd, cs, 3, n_all));

    // assign remaining characters to the glyph planes
    let mut k: usize = 0;
    while k < n
        invariant
            builder.inv(),
            builder.chars@ == characters@,
            n == characters@.len(),
            builder.count == count,
            builder.low_limit == low,
            k <= n,
            forall|k2: int| 0 <= k2 < k ==> builder.glyph_lookup@.contains_key(#[trigger] characters@[k2].ch as u16),
            cs == characters@,
            n_all == n,
            run_pass(pd, cs, 3, k as int) == Some(builder.state()),
            planes_spec(*config, cs) == run_pass(pd, cs, 3, n_all),
        decreases n - k,
    {
        let i = characters[k];
        if !builder.try_assign_character(i, Ghost(k as int)) {
            proof {
                lemma_run_pass_none(pd, cs, 3, k + 1, n_all);
            }
            return None;
        }
        k = k + 1;
    }
    assert(planes_spec(*config, cs) == Some(builder.state()));
    proof {
        let cs = characters@;
        assert forall|k2: int| 0 <= k2 < cs.len() implies {
            let key = (#[trigger] cs[k2]).ch as u16;
            let e = builder.glyph_lookup@[key];
            &&& builder.glyph_lookup@.contains_key(key)
            &&& e.0 < 4
            &&& e.1 < count / 4
            &&& builder.glyph_planes@[slot_index(e.0, e.1)] == cs[k2].data
            &&& e.2 == cs[k2].is_half_width
        } by {
            let key = cs[k2].ch as u16;
            assert(builder.glyph_lookup@.contains_key(key));
            let e = builder.glyph_lookup@[key];
            let k3 = choose|k3: int|
                0 <= k3 < cs.len() && cs[k3].ch as u16 == key && builder.glyph_planes@[slot_index(e.0, e.1)]
                    == cs[k3].data && e.2 == cs[k3].is_half_width;
            lemma_key_unique(cs, k2, k3);
        }
    }

    // interlace planes into something the GBA can use
    let data = interlace(&builder.glyph_planes, count / 4);
    let a = builder.available.len();
    let b = builder.available_half.len();
    let remaining_slots = if a <= usize::MAX - b {
        a + b
    } else {
        usize::MAX
    };
    Some(
        GlyphData {
            data,
            planes: builder.glyph_planes,
            low_plane: builder.low_plane_table,
            low_plane_half_width: builder.low_plane_half_width,
            glyph_map: builder.glyph_map,
            glyph_lookup: builder.glyph_lookup,
            dupe_low: builder.dupe_low,
            remaining_slots,
        },
    )
}

} // verus!
