//! The characters of the source fonts, and the choice of the characters a terminal font holds.
use vstd::prelude::*;

verus! {

/// The mask of the left half of every row of an 8x8 glyph.
pub const LEFT_HALF: u64 = 0xF0F0F0F0F0F0F0F0;

/// The mask of the right half of every row of an 8x8 glyph.
pub const RIGHT_HALF: u64 = 0x0F0F0F0F0F0F0F0F;

/// Whether a glyph has no pixel in the right half of its rows.
pub open spec fn spec_half_width(data: u64) -> bool {
    data & RIGHT_HALF == 0
}

/// A character of a source font: its code point and its 8x8 glyph, one bit per pixel, the
/// top-left pixel in the highest bit.
#[derive(Copy, Clone, Debug, PartialEq, Eq, Structural)]
pub struct CharacterInfo {
    /// The code point.
    pub ch: char,
    /// The glyph.
    pub data: u64,
    /// Whether the character is drawn in half a cell.
    pub is_half_width: bool,
}

impl CharacterInfo {
    /// A character with its glyph; it is half-width when the glyph only uses the left half of
    /// its rows and uses it somewhere.
    pub fn new(ch: char, data: u64) -> (r: Self)
        ensures
            r.ch == ch,
            r.data == data,
            r.is_half_width == (data & LEFT_HALF != 0 && data & RIGHT_HALF == 0),
    {
        let has_left = (data & LEFT_HALF) != 0;
        let has_right = (data & RIGHT_HALF) != 0;
        CharacterInfo { ch, data, is_half_width: has_left && !has_right }
    }
}

/// Whether a glyph fits in half a cell: no pixel in the right half of its rows.
pub fn data_is_half_width(data: u64) -> (r: bool)
    ensures
        r == spec_half_width(data),
{
    (data & RIGHT_HALF) == 0
}

/// Whether a character is half-width only where its glyph fits in half a cell.
pub open spec fn width_ok(c: CharacterInfo) -> bool {
    c.is_half_width ==> spec_half_width(c.data)
}

/// Whether characters are in strictly increasing code point order.
pub open spec fn sorted_by_ch(s: Seq<CharacterInfo>) -> bool {
    forall|a: int, b: int| 0 <= a < b < s.len() ==> (s[a].ch as u32) < (s[b].ch as u32)
}

/// The characters of the two source fonts.
pub struct CharacterSets {
    /// The characters of the unscii font.
    pub unscii: Vec<CharacterInfo>,
    /// The characters of the misaki font.
    pub misaki: Vec<CharacterInfo>,
}

/// The Unicode block a character belongs to, by name, if it belongs to one.
pub uninterp spec fn ucd_block_of(ch: char) -> Option<Seq<char>>;

/// Whether a character is a control character.
pub uninterp spec fn ucd_is_control(ch: char) -> bool;

/// Whether a character is a combining mark.
pub uninterp spec fn ucd_is_combining_mark(ch: char) -> bool;

/// Whether a character has a right-to-left bidirectional class.
pub uninterp spec fn ucd_is_rtl(ch: char) -> bool;

/// The kanji exam level of a kanji, as the level's position from level 10 (0) to level 1 (11),
/// if the exam lists hold it.
pub uninterp spec fn kanji_list_level(ch: char) -> Option<u8>;

/// `unic_ucd::block::Block::of`: the name of the block of a character. The result is a fixed
/// function of the character, which this contract names.
#[verifier::external_body]
fn ucd_block_name(ch: char) -> (r: Option<&'static str>)
    ensures
        r.is_some() == ucd_block_of(ch).is_some(),
        r matches Some(s) ==> s@ == ucd_block_of(ch)->0,
{
    unic_ucd::block::Block::of(ch).map(|b| b.name)
}

/// `unic_ucd::common::is_control`, a fixed function of the character, named by this contract.
#[verifier::external_body]
fn ucd_control(ch: char) -> (r: bool)
    ensures
        r == ucd_is_control(ch),
{
    unic_ucd::common::is_control(ch)
}

/// `unic_ucd::normal::is_combining_mark`, a fixed function of the character, named by this
/// contract.
#[verifier::external_body]
fn ucd_combining_mark(ch: char) -> (r: bool)
    ensures
        r == ucd_is_combining_mark(ch),
{
    unic_ucd::normal::is_combining_mark(ch)
}

/// `unic_ucd::BidiClass::of` followed by `BidiClass::is_rtl`, a fixed function of the
/// character, named by this contract.
#[verifier::external_body]
fn ucd_rtl(ch: char) -> (r: bool)
    ensures
        r == ucd_is_rtl(ch),
{
    unic_ucd::BidiClass::of(ch).is_rtl()
}

/// Whether the kanji crate counts a character as a kanji: the CJK unified ideographs, their
/// extensions and the compatibility ideographs.
pub open spec fn is_kanji(c: char) -> bool {
    let v = c as u32;
    (0x4e00 <= v <= 0x9ffc) || (0xf900 <= v <= 0xfaff) || (0x3400 <= v <= 0x4dbf) || (0x20000 <= v
        <= 0x2a6dd) || (0x2a700 <= v <= 0x2b734) || (0x2b740 <= v <= 0x2b81d) || (0x2b820 <= v
        <= 0x2cea1) || (0x2ceb0 <= v <= 0x2ebe0) || (0x30000 <= v <= 0x3134a)
}

/// `kanji::Kanji::new`, then a lookup in `kanji::level_table()`: `None` for a character that
/// is not a kanji, else the exam level of the kanji, if the exam lists hold it. The level
/// table is fixed, so the level is a function of the character, named by this contract.
#[verifier::external_body]
fn kanji_level(ch: char) -> (r: Option<Option<u8>>)
    ensures
        r.is_some() == is_kanji(ch),
        r matches Some(l) ==> l == kanji_list_level(ch),
{
    kanji::Kanji::new(ch).map(|k| kanji::level_table().get(&k).map(|l| *l as u8))
}

/// The name of the block of a character, or "Unknown Block".
pub open spec fn block_of(ch: char) -> Seq<char> {
    match ucd_block_of(ch) {
        Some(n) => n,
        None => "Unknown Block"@,
    }
}

/// The name of the Unicode block of a character, or "Unknown Block" if it has none.
pub fn block_name(ch: char) -> (r: &'static str)
    ensures
        r@ == block_of(ch),
{
    match ucd_block_name(ch) {
        None => "Unknown Block",
        Some(name) => name,
    }
}

/// Whether two strings are equal.
pub fn str_eq(a: &str, b: &str) -> (r: bool)
    ensures
        r == (a@ == b@),
{
    let n = a.unicode_len();
    if n != b.unicode_len() {
        return false;
    }
    let mut i: usize = 0;
    while i < n
        invariant
            n == a@.len(),
            n == b@.len(),
            i <= n,
            forall|k: int| 0 <= k < i ==> a@[k] == b@[k],
        decreases n - i,
    {
        if a.get_char(i) != b.get_char(i) {
            return false;
        }
        i = i + 1;
    }
    assert(a@ =~= b@);
    true
}

/// Whether a list of names holds `name`.
pub open spec fn names_contain(list: Seq<&str>, name: Seq<char>) -> bool {
    exists|i: int| 0 <= i < list.len() && list[i]@ == name
}

/// Whether a list of names holds `name`.
pub fn list_contains(list: &[&str], name: &str) -> (r: bool)
    ensures
        r == names_contain(list@, name@),
{
    let mut i: usize = 0;
    while i < list.len()
        invariant
            i <= list@.len(),
            forall|k: int| 0 <= k < i ==> list@[k]@ != name@,
        decreases list@.len() - i,
    {
        if str_eq(list[i], name) {
            return true;
        }
        i = i + 1;
    }
    false
}

/// Whether a list of characters holds `c`.
pub fn chars_contain(list: &[char], c: char) -> (r: bool)
    ensures
        r == list@.contains(c),
{
    let mut i: usize = 0;
    while i < list.len()
        invariant
            i <= list@.len(),
            forall|k: int| 0 <= k < i ==> list@[k] != c,
        decreases list@.len() - i,
    {
        if list[i] == c {
            return true;
        }
        i = i + 1;
    }
    false
}

/// The settings of one terminal font.
#[derive(Copy, Clone)]
pub struct FontConfiguration {
    /// The name of the directory of the font's files.
    pub font_name: &'static str,
    /// The name of the font's type.
    pub font_type: &'static str,
    /// The description of the font.
    pub description: &'static str,
    /// The code points below this are stored in the low plane, where a code point picks its
    /// own glyph slot.
    pub low_plane_limit: usize,
    /// The code points at or above this may not share a glyph already stored.
    pub low_plane_dupe_limit: usize,
    /// Whether the unscii characters are left out.
    pub disable_unscii: bool,
    /// The blocks whose unscii characters are kept even when unscii is left out.
    pub unscii_blocks: &'static [&'static str],
    /// Whether the misaki characters are left out.
    pub disable_misaki: bool,
    /// The blocks whose misaki characters replace the unscii ones.
    pub misaki_blocks: &'static [&'static str],
    /// Whether every block is kept.
    pub allow_all_blocks: bool,
    /// The blocks that are kept.
    pub whitelisted_blocks: &'static [&'static str],
    /// Characters kept whatever their block.
    pub whitelisted_chars: &'static [char],
    /// The blocks whose characters may be half-width.
    pub allow_halfwidth_blocks: &'static [&'static str],
    /// The character drawn for a code point the font lacks.
    pub fallback_char: char,
    /// The highest kanji exam level kept, from level 10 (0) to level 1 (11).
    pub kanji_max_level: u8,
    /// The number of glyph slots: four per 4bpp character.
    pub character_count: usize,
}

/// A character as a font keeps it: half-width only in the blocks that allow it.
pub open spec fn processed(config: FontConfiguration, c: CharacterInfo) -> CharacterInfo {
    CharacterInfo {
        is_half_width: c.is_half_width && names_contain(
            config.allow_halfwidth_blocks@,
            block_of(c.ch),
        ),
        ..c
    }
}

/// Applies the font's half-width setting to a character.
pub fn process_char(config: &FontConfiguration, c: CharacterInfo) -> (r: CharacterInfo)
    ensures
        r == processed(*config, c),
{
    let mut c = c;
    if !list_contains(config.allow_halfwidth_blocks, block_name(c.ch)) {
        c.is_half_width = false;
    }
    c
}

/// Whether an unscii character is taken: not the null character, and unscii is on or its
/// block is listed.
pub open spec fn unscii_taken(config: FontConfiguration, c: CharacterInfo) -> bool {
    c.ch != '\0' && (!config.disable_unscii || names_contain(config.unscii_blocks@, block_of(c.ch)))
}

/// Whether a misaki character is taken, given whether the font merged so far holds a character
/// for its code point: its block is listed, or misaki is on and no character is held for the
/// code point.
pub open spec fn misaki_taken(config: FontConfiguration, c: CharacterInfo, present: bool) -> bool {
    names_contain(config.misaki_blocks@, block_of(c.ch)) || (!config.disable_misaki && !present)
}

/// The characters taken from the unscii font, by code point: of two characters with one code
/// point, the later one is kept.
pub open spec fn unscii_chars(config: FontConfiguration, u: Seq<CharacterInfo>) -> Map<
    char,
    CharacterInfo,
>
    decreases u.len(),
{
    if u.len() == 0 {
        Map::empty()
    } else {
        let acc = unscii_chars(config, u.drop_last());
        let c = u.last();
        if unscii_taken(config, c) {
            acc.insert(c.ch, processed(config, c))
        } else {
            acc
        }
    }
}

/// The characters of a merged font by code point: the unscii ones, then each misaki character
/// in turn, which takes the place of the character held for its code point where its block is
/// listed, and is added where misaki is on and no character is held for its code point yet.
pub open spec fn merged_chars(
    config: FontConfiguration,
    u: Seq<CharacterInfo>,
    m: Seq<CharacterInfo>,
) -> Map<char, CharacterInfo>
    decreases m.len(),
{
    if m.len() == 0 {
        unscii_chars(config, u)
    } else {
        let acc = merged_chars(config, u, m.drop_last());
        let c = m.last();
        if misaki_taken(config, c, acc.dom().contains(c.ch)) {
            acc.insert(c.ch, processed(config, c))
        } else {
            acc
        }
    }
}

/// Whether a list holds exactly the characters of a map, each under its own code point.
pub open spec fn lists_map(s: Seq<CharacterInfo>, m: Map<char, CharacterInfo>) -> bool {
    &&& forall|x: CharacterInfo| #[trigger] s.contains(x) <==> (m.dom().contains(x.ch) && m[x.ch] == x)
    &&& forall|ch: char| #[trigger] m.dom().contains(ch) ==> m[ch].ch == ch
}

/// Whether a list holds a character with a code point.
fn holds_code_point(list: &Vec<CharacterInfo>, ch: char) -> (r: bool)
    ensures
        r == exists|k: int| 0 <= k < list@.len() && (#[trigger] list@[k]).ch == ch,
{
    let mut k: usize = 0;
    while k < list.len()
        invariant
            k <= list@.len(),
            forall|j: int| 0 <= j < k ==> (#[trigger] list@[j]).ch != ch,
        decreases list@.len() - k,
    {
        if list[k].ch == ch {
            return true;
        }
        k = k + 1;
    }
    false
}

/// Puts a character in a list in strictly increasing code point order, in place of the
/// character with its code point if there is one.
fn put_in_order(out: &mut Vec<CharacterInfo>, c: CharacterInfo)
    requires
        sorted_by_ch(old(out)@),
    ensures
        sorted_by_ch(final(out)@),
        forall|x: CharacterInfo| #[trigger] final(out)@.contains(x) <==> (x == c || (old(out)@.contains(x)
            && x.ch != c.ch)),
{
    let n = out.len();
    let mut p: usize = 0;
    while p < n && (out[p].ch as u32) < (c.ch as u32)
        invariant
            n == out@.len(),
            p <= n,
            forall|k: int| 0 <= k < p ==> (out@[k].ch as u32) < (c.ch as u32),
        decreases n - p,
    {
        p = p + 1;
    }
    let ghost before = out@;
    proof {
        assert forall|k: int| p < k < before.len() implies (c.ch as u32) < (before[k].ch as u32) by {
            assert((before[p as int].ch as u32) < (before[k].ch as u32));
        }
    }
    if p < n && out[p].ch == c.ch {
        out.set(p, c);
        proof {
            assert forall|x: CharacterInfo| #[trigger] out@.contains(x) <==> (x == c || (before.contains(x)
                && x.ch != c.ch)) by {
                if out@.contains(x) {
                    let k = choose|k: int| 0 <= k < out@.len() && out@[k] == x;
                    if k != p {
                        assert(before[k] == x);
                    }
                }
                if before.contains(x) && x.ch != c.ch {
                    let k = choose|k: int| 0 <= k < before.len() && before[k] == x;
                    assert(k != p);
                    assert(out@[k] == x);
                }
                if x == c {
                    assert(out@[p as int] == x);
                }
            }
        }
    } else {
        proof {
            assert forall|k: int| 0 <= k < before.len() implies before[k].ch != c.ch by {
                if k >= p {
                    if k > p {
                        assert((before[p as int].ch as u32) < (before[k].ch as u32));
                    }
                }
            }
        }
        out.insert(p, c);
        proof {
            lemma_insert_contains(before, p as int, c);
            before.insert_ensures(p as int, c);
            assert forall|x: CharacterInfo| #[trigger] out@.contains(x) <==> (x == c || (before.contains(x)
                && x.ch != c.ch)) by {
                if before.contains(x) {
                    let k = choose|k: int| 0 <= k < before.len() && before[k] == x;
                    assert(before[k].ch != c.ch);
                }
            }
            assert forall|a: int, b: int| 0 <= a < b < out@.len() implies (out@[a].ch as u32) < (
            out@[b].ch as u32) by {
                if a < p && b == p {
                } else if a < p && b > p {
                    assert(out@[b] == before[b - 1]);
                } else if a == p {
                    assert(out@[b] == before[b - 1]);
                    assert(before[b - 1].ch != c.ch);
                } else if a > p {
                    assert(out@[a] == before[a - 1]);
                    assert(out@[b] == before[b - 1]);
                } else {
                    assert(out@[a] == before[a]);
                    assert(out@[b] == before[b]);
                }
            }
        }
    }
}

/// A map of characters by code point, after one more character is put in it, is still listed
/// by a list that takes the same character.
proof fn lemma_lists_insert(
    old_s: Seq<CharacterInfo>,
    s: Seq<CharacterInfo>,
    m: Map<char, CharacterInfo>,
    c: CharacterInfo,
)
    requires
        lists_map(old_s, m),
        forall|x: CharacterInfo| #[trigger] s.contains(x) <==> (x == c || (old_s.contains(x) && x.ch != c.ch)),
    ensures
        lists_map(s, m.insert(c.ch, c)),
{
    let m2 = m.insert(c.ch, c);
    assert forall|x: CharacterInfo| #[trigger] s.contains(x) <==> (m2.dom().contains(x.ch) && m2[x.ch] == x) by {
        if x.ch == c.ch {
            if old_s.contains(x) {
                assert(m.dom().contains(x.ch));
            }
        } else {
            assert(m2[x.ch] == m[x.ch]);
        }
    }
    assert forall|ch: char| #[trigger] m2.dom().contains(ch) implies m2[ch].ch == ch by {
        if ch != c.ch {
            assert(m.dom().contains(ch));
        }
    }
}

/// The characters of a font: the unscii characters and the misaki characters merged, in
/// strictly increasing code point order, as `merged_chars` describes.
pub fn parse_fonts(config: &FontConfiguration, characters: &CharacterSets) -> (r: Vec<CharacterInfo>)
    ensures
        sorted_by_ch(r@),
        lists_map(r@, merged_chars(*config, characters.unscii@, characters.misaki@)),
{
    let ghost cfg = *config;
    let u = &characters.unscii;
    let m = &characters.misaki;
    let ghost us = u@;
    let ghost ms = m@;
    let mut out: Vec<CharacterInfo> = Vec::new();
    let mut i: usize = 0;
    proof {
        assert(us.take(0) =~= Seq::<CharacterInfo>::empty());
    }
    while i < u.len()
        invariant
            us == u@,
            cfg == *config,
            i <= us.len(),
            sorted_by_ch(out@),
            lists_map(out@, unscii_chars(cfg, us.take(i as int))),
        decreases us.len() - i,
    {
        let c = u[i];
        proof {
            assert(us.take(i + 1).drop_last() =~= us.take(i as int));
        }
        let ghost old_out = out@;
        if c.ch != '\0' && (!config.disable_unscii || list_contains(config.unscii_blocks, block_name(c.ch))) {
            let pc = process_char(config, c);
            put_in_order(&mut out, pc);
            proof {
                lemma_lists_insert(old_out, out@, unscii_chars(cfg, us.take(i as int)), pc);
            }
        }
        i = i + 1;
    }
    proof {
        assert(us.take(us.len() as int) =~= us);
        assert(ms.take(0) =~= Seq::<CharacterInfo>::empty());
    }
    let mut j: usize = 0;
    while j < m.len()
        invariant
            us == u@,
            ms == m@,
            cfg == *config,
            j <= ms.len(),
            sorted_by_ch(out@),
            lists_map(out@, merged_chars(cfg, us, ms.take(j as int))),
        decreases ms.len() - j,
    {
        let c = m[j];
        let ghost acc = merged_chars(cfg, us, ms.take(j as int));
        proof {
            assert(ms.take(j + 1).drop_last() =~= ms.take(j as int));
        }
        let present = holds_code_point(&out, c.ch);
        proof {
            if acc.dom().contains(c.ch) {
                assert(out@.contains(acc[c.ch]));
                let k = choose|k: int| 0 <= k < out@.len() && out@[k] == acc[c.ch];
                assert(out@[k].ch == c.ch);
            }
            if present {
                let k = choose|k: int| 0 <= k < out@.len() && (#[trigger] out@[k]).ch == c.ch;
                assert(out@.contains(out@[k]));
            }
            assert(present == acc.dom().contains(c.ch));
        }
        let ghost old_out = out@;
        if list_contains(config.misaki_blocks, block_name(c.ch)) || (!config.disable_misaki && !present) {
            let pc = process_char(config, c);
            put_in_order(&mut out, pc);
            proof {
                lemma_lists_insert(old_out, out@, acc, pc);
            }
        }
        j = j + 1;
    }
    proof {
        assert(ms.take(ms.len() as int) =~= ms);
    }
    out
}

/// Whether a kanji is above the font's exam level: a listed kanji above the highest kept
/// level, or an unlisted kanji unless every level is kept.
pub open spec fn kanji_too_advanced(config: FontConfiguration, ch: char) -> bool {
    is_kanji(ch) && match kanji_list_level(ch) {
        Some(l) => l > config.kanji_max_level,
        None => config.kanji_max_level != 11,
    }
}

/// Whether a font keeps a character: a listed character, or a printable left-to-right
/// character of the basic multilingual plane in a kept block; kanji above the font's exam
/// level are left out.
pub open spec fn included(config: FontConfiguration, c: CharacterInfo) -> bool {
    &&& (config.whitelisted_chars@.contains(c.ch) || ((config.allow_all_blocks || names_contain(
        config.whitelisted_blocks@,
        block_of(c.ch),
    )) && !ucd_is_control(c.ch) && !ucd_is_combining_mark(c.ch) && !ucd_is_rtl(c.ch) && (c.ch as u32)
        < 0x10000))
    &&& !kanji_too_advanced(config, c.ch)
}

/// Whether a font keeps a character.
pub fn is_included(config: &FontConfiguration, c: &CharacterInfo) -> (r: bool)
    ensures
        r == included(*config, *c),
{
    let ch = c.ch;
    let listed = chars_contain(config.whitelisted_chars, ch) || ((config.allow_all_blocks
        || list_contains(config.whitelisted_blocks, block_name(ch))) && !ucd_control(ch)
        && !ucd_combining_mark(ch) && !ucd_rtl(ch) && (ch as u32) < 0x10000);
    if !listed {
        return false;
    }
    let too_advanced = match kanji_level(ch) {
        Some(Some(level)) => level > config.kanji_max_level,
        Some(None) => config.kanji_max_level != 11,
        None => false,
    };
    !too_advanced
}

/// Whether characters are in code point order, one code point possibly held by several.
pub open spec fn ordered_by_ch(s: Seq<CharacterInfo>) -> bool {
    forall|a: int, b: int| 0 <= a < b < s.len() ==> (s[a].ch as u32) <= (s[b].ch as u32)
}

/// What a sequence holds after an insertion: what it held, and the inserted item.
proof fn lemma_insert_contains(s: Seq<CharacterInfo>, p: int, c: CharacterInfo)
    requires
        0 <= p <= s.len(),
    ensures
        forall|x: CharacterInfo| #[trigger] s.insert(p, c).contains(x) <==> (s.contains(x) || x == c),
        s.no_duplicates() && !s.contains(c) ==> s.insert(p, c).no_duplicates(),
{
    let t = s.insert(p, c);
    s.insert_ensures(p, c);
    assert forall|x: CharacterInfo| #[trigger] t.contains(x) <==> (s.contains(x) || x == c) by {
        if t.contains(x) {
            let k = choose|k: int| 0 <= k < t.len() && t[k] == x;
            if k < p {
                assert(s[k] == x);
            } else if k > p {
                assert(s[k - 1] == x);
            }
        }
        if s.contains(x) {
            let k = choose|k: int| 0 <= k < s.len() && s[k] == x;
            if k < p {
                assert(t[k] == x);
            } else {
                assert(t[k + 1] == x);
            }
        }
        if x == c {
            assert(t[p] == x);
        }
    }
    if s.no_duplicates() && !s.contains(c) {
        assert forall|a: int, b: int| 0 <= a < t.len() && 0 <= b < t.len() && a != b implies t[a] != t[b] by {
            let sa = if a < p { a } else { a - 1 };
            let sb = if b < p { b } else { b - 1 };
            if a != p && b != p {
                assert(t[a] == s[sa]);
                assert(t[b] == s[sb]);
            } else if a == p {
                assert(t[b] == s[sb]);
            } else {
                assert(t[a] == s[sa]);
            }
        }
    }
}

/// Inserts a character after every character whose code point is not above its own, and
/// returns where it went.
pub(crate) fn insert_in_order(out: &mut Vec<CharacterInfo>, c: CharacterInfo) -> (p: usize)
    requires
        ordered_by_ch(old(out)@),
    ensures
        p <= old(out)@.len(),
        final(out)@ == old(out)@.insert(p as int, c),
        forall|k: int| 0 <= k < p ==> (old(out)@[k].ch as u32) <= (c.ch as u32),
        forall|k: int| p <= k < old(out)@.len() ==> (c.ch as u32) < (old(out)@[k].ch as u32),
        ordered_by_ch(final(out)@),
{
    let n = out.len();
    let mut p: usize = 0;
    while p < n && (out[p].ch as u32) <= (c.ch as u32)
        invariant
            n == out@.len(),
            p <= n,
            forall|k: int| 0 <= k < p ==> (out@[k].ch as u32) <= (c.ch as u32),
        decreases n - p,
    {
        p = p + 1;
    }
    let ghost before = out@;
    proof {
        assert forall|k: int| p <= k < before.len() implies (c.ch as u32) < (before[k].ch as u32) by {
            assert((before[p as int].ch as u32) <= (before[k].ch as u32));
        }
    }
    out.insert(p, c);
    proof {
        before.insert_ensures(p as int, c);
        assert forall|a: int, b: int| 0 <= a < b < out@.len() implies (out@[a].ch as u32) <= (
        out@[b].ch as u32) by {
            if a < p && b == p {
            } else if a < p && b > p {
                assert(out@[b] == before[b - 1]);
            } else if a == p {
                assert(out@[b] == before[b - 1]);
            } else if a > p {
                assert(out@[a] == before[a - 1]);
                assert(out@[b] == before[b - 1]);
            } else {
                assert(out@[a] == before[a]);
                assert(out@[b] == before[b]);
            }
        }
    }
    p
}

/// Whether a list holds a character.
fn holds_char(list: &Vec<CharacterInfo>, c: CharacterInfo) -> (r: bool)
    ensures
        r == list@.contains(c),
{
    let mut k: usize = 0;
    while k < list.len()
        invariant
            k <= list@.len(),
            forall|j: int| 0 <= j < k ==> list@[j] != c,
        decreases list@.len() - k,
    {
        if list[k] == c {
            assert(list@[k as int] == c);
            return true;
        }
        k = k + 1;
    }
    false
}

/// The characters a font keeps, each once, in code point order.
pub fn gather_characters(config: &FontConfiguration, characters: Vec<CharacterInfo>) -> (r: Vec<
    CharacterInfo,
>)
    ensures
        ordered_by_ch(r@),
        r@.no_duplicates(),
        forall|c: CharacterInfo| #[trigger] r@.contains(c) <==> (characters@.contains(c) && included(*config, c)),
{
    let mut out: Vec<CharacterInfo> = Vec::new();
    let n = characters.len();
    let mut i: usize = 0;
    while i < n
        invariant
            n == characters@.len(),
            i <= n,
            out@.len() <= i,
            ordered_by_ch(out@),
            out@.no_duplicates(),
            forall|c: CharacterInfo|
                #[trigger] out@.contains(c) <==> (characters@.take(i as int).contains(c) && included(*config, c)),
        decreases n - i,
    {
        let c = characters[i];
        let ghost old_out = out@;
        proof {
            assert(characters@.take(i + 1) =~= characters@.take(i as int).push(c));
            assert forall|x: CharacterInfo| #[trigger] characters@.take(i + 1).contains(x) <==> (characters@.take(i as int).contains(x) || x == c) by {
                let t = characters@.take(i as int);
                let t1 = characters@.take(i + 1);
                if t1.contains(x) {
                    let k = choose|k: int| 0 <= k < t1.len() && t1[k] == x;
                    if k < i {
                        assert(t[k] == x);
                    }
                }
                if t.contains(x) {
                    let k = choose|k: int| 0 <= k < t.len() && t[k] == x;
                    assert(t1[k] == x);
                }
                if x == c {
                    assert(t1[i as int] == x);
                }
            }
        }
        if is_included(config, &c) && !holds_char(&out, c) {
            let p = insert_in_order(&mut out, c);
            proof {
                lemma_insert_contains(old_out, p as int, c);
            }
        }
        i = i + 1;
    }
    proof {
        assert(characters@.take(n as int) =~= characters@);
    }
    out
}

} // verus!
