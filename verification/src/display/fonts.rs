//! Terminal fonts: glyph lookup tables that map a code point to a glyph slot.
//!
//! A glyph is a triple `(plane, character, is_half_width)`. Each 4bpp character in VRAM holds
//! four 1bpp glyphs, one per bit plane; the plane picks which of the four bits a pixel uses.
use crate::bits::{get_bits, read_field};
use vstd::prelude::*;

verus! {

/// A glyph lookup result: the bit plane, the character ID and whether it is half-width.
pub type Glyph = (u8, u16, bool);

/// Whether slot `s` of a check table holds the code point `id`.
pub open spec fn slot_matches(check: Seq<u16>, id: u32, s: int) -> bool {
    0 <= s < check.len() && check[s] as u32 == id
}

/// Whether `s` is the first slot of a check table that holds `id`.
pub open spec fn is_first_slot(check: Seq<u16>, id: u32, s: int) -> bool {
    slot_matches(check, id, s) && forall|t: int| 0 <= t < s ==> !slot_matches(check, id, t)
}

/// The first slot of a check table that holds `id`, if any does.
pub open spec fn first_slot(check: Seq<u16>, id: u32) -> Option<int> {
    if exists|s: int| is_first_slot(check, id, s) {
        Some(choose|s: int| is_first_slot(check, id, s))
    } else {
        None
    }
}

/// The first matching slot is unique.
pub proof fn lemma_first_slot_unique(check: Seq<u16>, id: u32, s: int)
    requires
        is_first_slot(check, id, s),
    ensures
        first_slot(check, id) == Some(s),
{
    let c = choose|t: int| is_first_slot(check, id, t);
    assert(is_first_slot(check, id, c));
    if c < s {
        assert(slot_matches(check, id, c));
    } else if s < c {
        assert(slot_matches(check, id, s));
    }
}

/// The lookup tables of a terminal font.
///
/// Code points below `lo_limit` are looked up in a bitmap ("low plane"): a code point `id` that is
/// present there uses plane `id % 4` of character `id / 4`. Other code points are looked up in a
/// table of slots: `check` holds the code point stored in each slot, and the slot's packed glyph
/// ID is made of the byte `id_lo[slot]` and, for wider IDs, some high bits from `id_hi`.
pub struct FontTables {
    lo_limit: u32,
    lo_map: Vec<u16>,
    lo_map_half: Vec<u16>,
    low_miss_searches: bool,
    check: Vec<u16>,
    id_hi: Vec<u16>,
    id_lo: Vec<u8>,
    hi_bits: u32,
    hi_index_shift: u32,
    hi_pos_mask: u32,
    char_bits: u32,
    half_flag: bool,
    fallback: Glyph,
}

/// The contents of a [`FontTables`] value.
pub struct FontView {
    pub lo_limit: u32,
    pub lo_map: Seq<u16>,
    pub lo_map_half: Seq<u16>,
    pub low_miss_searches: bool,
    pub check: Seq<u16>,
    pub id_hi: Seq<u16>,
    pub id_lo: Seq<u8>,
    pub hi_bits: u32,
    pub hi_index_shift: u32,
    pub hi_pos_mask: u32,
    pub char_bits: u32,
    pub half_flag: bool,
    pub fallback: Glyph,
}

impl FontView {
    /// Whether the low plane bitmap marks `id` as present.
    pub closed spec fn lo_bit(self, id: u32) -> bool {
        get_bits(self.lo_map[(id >> 4) as int] as u32, id & 15, 1) == 1
    }

    /// Whether the half-width bitmap marks `id` as half-width.
    pub closed spec fn lo_half(self, id: u32) -> bool {
        let i = (id >> 4) as int;
        i < self.lo_map_half.len() && get_bits(self.lo_map_half[i] as u32, id & 15, 1) == 1
    }

    /// The bit position of the high bits of slot `s` in its word of `id_hi`.
    pub closed spec fn hi_shift(self, s: int) -> u32 {
        (self.hi_bits * (s as u32 & self.hi_pos_mask)) as u32
    }

    /// The high bits of the packed glyph ID of slot `s`.
    pub closed spec fn hi_of(self, s: int) -> u32 {
        if self.hi_bits == 0 {
            0
        } else {
            get_bits(
                self.id_hi[(s as u32 >> self.hi_index_shift) as int] as u32,
                self.hi_shift(s),
                self.hi_bits,
            )
        }
    }

    /// The packed glyph ID of slot `s`.
    pub closed spec fn packed(self, s: int) -> u32 {
        (self.hi_of(s) << 8u32) | (self.id_lo[s] as u32)
    }

    /// The glyph stored in slot `s`.
    pub closed spec fn decode(self, s: int) -> Glyph {
        let p = self.packed(s);
        let plane = if self.half_flag {
            get_bits(p, self.char_bits, 2)
        } else {
            p >> self.char_bits
        };
        (
            plane as u8,
            get_bits(p, 0, self.char_bits) as u16,
            self.half_flag && get_bits(p, (self.char_bits + 2) as u32, 1) == 1,
        )
    }

    /// The glyph used to render the code point `id`.
    pub closed spec fn glyph(self, id: u32) -> Glyph {
        if id < self.lo_limit && self.lo_bit(id) {
            ((id & 3) as u8, (id >> 2) as u16, self.lo_half(id))
        } else if id < self.lo_limit && !self.low_miss_searches {
            self.fallback
        } else if id < 0x10000 {
            match first_slot(self.check, id) {
                Some(s) => self.decode(s),
                None => self.fallback,
            }
        } else {
            self.fallback
        }
    }

    /// Whether the table layout is consistent: every index used by a lookup is in bounds.
    pub open spec fn layout_ok(self) -> bool {
        &&& self.lo_limit <= 4096
        &&& self.lo_limit <= self.lo_map.len() * 16
        &&& self.check.len() == self.id_lo.len()
        &&& 1 <= self.char_bits <= 10
        &&& self.hi_index_shift < 32
        &&& self.hi_bits <= 8
        &&& self.hi_pos_mask < 16
        &&& self.hi_bits * (self.hi_pos_mask + 1) <= 16
    }

    /// Whether slot `s` can be decoded and decodes to a glyph that fits the hardware.
    pub closed spec fn slot_ok(self, s: int) -> bool {
        &&& (self.hi_bits != 0 ==> (s as u32 >> self.hi_index_shift) < self.id_hi.len())
        &&& self.decode(s).0 < 4
        &&& self.decode(s).1 < 1024
    }

    /// Whether the tables are well formed: all lookups are in bounds and every glyph uses one of
    /// the four planes and one of the 1024 characters of a tile map.
    pub closed spec fn wf(self) -> bool {
        &&& self.layout_ok()
        &&& self.check.len() < 0x10000
        &&& forall|s: int| 0 <= s < self.check.len() ==> self.slot_ok(s)
        &&& self.fallback.0 < 4
        &&& self.fallback.1 < 1024
    }

    /// A code point marked in the low plane bitmap of tables without a half-width bitmap uses
    /// plane `id % 4` of character `id / 4`.
    pub proof fn lemma_glyph_low(self, id: u32)
        requires
            id < self.lo_limit,
            id / 16 < self.lo_map.len(),
            get_bits(self.lo_map[(id / 16) as int] as u32, id % 16, 1) == 1,
            self.lo_map_half.len() == 0,
        ensures
            self.glyph(id) == ((id % 4) as u8, (id / 4) as u16, false),
    {
        crate::bits::lemma_low_bits(id);
    }

    /// A slot whose low byte and high bits hold a packed glyph ID, a plane above a character
    /// number, decodes to that plane and character in tables without a half-width flag.
    pub proof fn lemma_decode_packed(self, s: int, plane: u32, ch: u32)
        requires
            self.layout_ok(),
            !self.half_flag,
            0 <= s < self.id_lo.len(),
            s < 0x10000,
            plane < 4,
            ch < (1u32 << self.char_bits),
            self.char_bits + 2 <= 8 + self.hi_bits,
            self.id_lo[s] as u32 == ((plane << self.char_bits) | ch) & 0xff,
            self.hi_bits != 0 ==> {
                &&& (s as u32 >> self.hi_index_shift) < self.id_hi.len()
                &&& get_bits(
                    self.id_hi[(s as u32 >> self.hi_index_shift) as int] as u32,
                    (self.hi_bits * (s as u32 & self.hi_pos_mask)) as u32,
                    self.hi_bits,
                ) == ((plane << self.char_bits) | ch) >> 8u32
            },
        ensures
            self.decode(s) == (plane as u8, ch as u16, false),
    {
        let cb = self.char_bits;
        crate::bits::lemma_packed(plane, ch, cb, self.hi_bits);
        let p = (plane << cb) | ch;
        if self.hi_bits == 0 {
            assert(self.hi_of(s) == 0);
            assert(p >> 8u32 == 0);
        }
        assert(self.hi_of(s) == p >> 8u32);
        assert(self.packed(s) == p);
    }

    /// A code point at or above the low plane limit, stored in the first slot holding it,
    /// uses the glyph of that slot.
    pub proof fn lemma_glyph_slot(self, id: u32, s: int)
        requires
            self.lo_limit <= id < 0x10000,
            is_first_slot(self.check, id, s),
        ensures
            self.glyph(id) == self.decode(s),
    {
        lemma_first_slot_unique(self.check, id, s);
    }

    /// A code point at or above the low plane limit that no slot holds uses the fallback
    /// glyph.
    pub proof fn lemma_glyph_missing(self, id: u32)
        requires
            self.lo_limit <= id,
            forall|s: int| 0 <= s < self.check.len() ==> self.check[s] as u32 != id,
        ensures
            self.glyph(id) == self.fallback,
    {
        if exists|s: int| is_first_slot(self.check, id, s) {
            let s = choose|s: int| is_first_slot(self.check, id, s);
            assert(slot_matches(self.check, id, s));
        }
    }

    /// A code point below the low plane limit that the low plane bitmap does not mark uses the
    /// fallback glyph in tables that do not search the slots for such code points.
    pub proof fn lemma_glyph_low_missing(self, id: u32)
        requires
            id < self.lo_limit,
            id / 16 < self.lo_map.len(),
            get_bits(self.lo_map[(id / 16) as int] as u32, id % 16, 1) == 0,
            !self.low_miss_searches,
        ensures
            self.glyph(id) == self.fallback,
    {
        crate::bits::lemma_low_bits(id);
    }

    /// Every glyph of well-formed tables uses one of four planes and one of 1024 characters.
    pub proof fn lemma_glyph_bounds(self, id: u32)
        requires
            self.wf(),
        ensures
            self.glyph(id).0 < 4,
            self.glyph(id).1 < 1024,
    {
        if id < self.lo_limit && self.lo_bit(id) {
            crate::bits::lemma_low_bits(id);
        } else if id < self.lo_limit && !self.low_miss_searches {
        } else if id < 0x10000 {
            match first_slot(self.check, id) {
                Some(s) => {
                    let c = choose|t: int| is_first_slot(self.check, id, t);
                    assert(is_first_slot(self.check, id, c));
                    assert(self.slot_ok(c));
                },
                None => {},
            }
        }
    }

}

impl View for FontTables {
    type V = FontView;

    closed spec fn view(&self) -> FontView {
        FontView {
            lo_limit: self.lo_limit,
            lo_map: self.lo_map@,
            lo_map_half: self.lo_map_half@,
            low_miss_searches: self.low_miss_searches,
            check: self.check@,
            id_hi: self.id_hi@,
            id_lo: self.id_lo@,
            hi_bits: self.hi_bits,
            hi_index_shift: self.hi_index_shift,
            hi_pos_mask: self.hi_pos_mask,
            char_bits: self.char_bits,
            half_flag: self.half_flag,
            fallback: self.fallback,
        }
    }
}

impl FontTables {
    /// Whether the tables are well formed.
    pub open spec fn wf(&self) -> bool {
        self@.wf()
    }

    /// The glyph used to render the code point `id`.
    pub open spec fn glyph(&self, id: u32) -> Glyph {
        self@.glyph(id)
    }

    /// Decodes slot `s`.
    fn decode_slot(&self, s: usize) -> (r: Glyph)
        requires
            self@.layout_ok(),
            s < self.check@.len(),
            self.check@.len() < 0x10000,
            self.hi_bits != 0 ==> (s as u32 >> self.hi_index_shift) < self.id_hi@.len(),
        ensures
            r == self@.decode(s as int),
    {
        let s32 = s as u32;
        let hi: u32 = if self.hi_bits == 0 {
            0
        } else {
            let m = self.hi_pos_mask;
            let hb = self.hi_bits;
            let pos = s32 & m;
            proof {
                crate::bits::lemma_and_le(s32, m);
            }
            assert(hb * pos + hb <= 16) by (nonlinear_arith)
                requires
                    pos <= m,
                    hb * (m + 1) <= 16,
            ;
            let shift = hb * pos;
            let word = self.id_hi[(s32 >> self.hi_index_shift) as usize];
            read_field(word as u32, shift, self.hi_bits)
        };
        let lo = self.id_lo[s];
        let p = (hi << 8u32) | (lo as u32);
        let plane = if self.half_flag {
            read_field(p, self.char_bits, 2)
        } else {
            p >> self.char_bits
        };
        let ch = read_field(p, 0, self.char_bits);
        let half = self.half_flag && read_field(p, self.char_bits + 2, 1) == 1;
        (plane as u8, ch as u16, half)
    }

    /// Finds the first slot that holds the code point `id`.
    fn find_slot(&self, id: u32) -> (r: Option<usize>)
        ensures
            r matches Some(s) ==> first_slot(self.check@, id) == Some(s as int),
            r is None ==> first_slot(self.check@, id) is None,
    {
        let n = self.check.len();
        let mut i: usize = 0;
        while i < n
            invariant
                n == self.check@.len(),
                i <= n,
                forall|t: int| 0 <= t < i ==> !slot_matches(self.check@, id, t),
            decreases n - i,
        {
            if self.check[i] as u32 == id {
                proof {
                    assert(is_first_slot(self.check@, id, i as int));
                    lemma_first_slot_unique(self.check@, id, i as int);
                }
                return Some(i);
            }
            i += 1;
        }
        proof {
            if exists|s: int| is_first_slot(self.check@, id, s) {
                let s = choose|s: int| is_first_slot(self.check@, id, s);
                assert(slot_matches(self.check@, id, s));
            }
        }
        None
    }

    /// Looks up the glyph used to render the code point `id`.
    pub fn get_font_glyph(&self, id: u32) -> (r: Glyph)
        requires
            self.wf(),
        ensures
            r == self.glyph(id),
            r.0 < 4,
            r.1 < 1024,
    {
        proof {
            self@.lemma_glyph_bounds(id);
        }
        let in_low = if id < self.lo_limit {
            proof {
                crate::bits::lemma_low_bits(id);
            }
            read_field(self.lo_map[(id >> 4) as usize] as u32, id & 15, 1) == 1
        } else {
            false
        };
        if in_low {
            let i = (id >> 4) as usize;
            proof {
                crate::bits::lemma_low_bits(id);
            }
            let half = i < self.lo_map_half.len() && read_field(
                self.lo_map_half[i] as u32,
                id & 15,
                1,
            ) == 1;
            ((id & 3) as u8, (id >> 2) as u16, half)
        } else if id < self.lo_limit && !self.low_miss_searches {
            self.fallback
        } else if id < 0x10000 {
            match self.find_slot(id) {
                Some(s) => {
                    proof {
                        assert(self@.slot_ok(s as int));
                    }
                    self.decode_slot(s)
                },
                None => self.fallback,
            }
        } else {
            self.fallback
        }
    }

    /// Builds font tables from their parts, or returns `None` if they are not well formed.
    pub fn new(
        lo_limit: u32,
        lo_map: Vec<u16>,
        lo_map_half: Vec<u16>,
        low_miss_searches: bool,
        check: Vec<u16>,
        id_hi: Vec<u16>,
        id_lo: Vec<u8>,
        hi_bits: u32,
        hi_index_shift: u32,
        hi_pos_mask: u32,
        char_bits: u32,
        half_flag: bool,
        fallback: Glyph,
    ) -> (r: Option<Self>)
        ensures
            r.is_some() == (FontView {
                lo_limit,
                lo_map: lo_map@,
                lo_map_half: lo_map_half@,
                low_miss_searches,
                check: check@,
                id_hi: id_hi@,
                id_lo: id_lo@,
                hi_bits,
                hi_index_shift,
                hi_pos_mask,
                char_bits,
                half_flag,
                fallback,
            }).wf(),
            r matches Some(t) ==> t@ == (FontView {
                lo_limit,
                lo_map: lo_map@,
                lo_map_half: lo_map_half@,
                low_miss_searches,
                check: check@,
                id_hi: id_hi@,
                id_lo: id_lo@,
                hi_bits,
                hi_index_shift,
                hi_pos_mask,
                char_bits,
                half_flag,
                fallback,
            }),
    {
        let t = FontTables {
            lo_limit,
            lo_map,
            lo_map_half,
            low_miss_searches,
            check,
            id_hi,
            id_lo,
            hi_bits,
            hi_index_shift,
            hi_pos_mask,
            char_bits,
            half_flag,
            fallback,
        };
        if t.validate() {
            Some(t)
        } else {
            None
        }
    }

    /// Checks whether the tables are well formed.
    fn validate(&self) -> (r: bool)
        ensures
            r == self.wf(),
    {
        let hb = self.hi_bits;
        let m = self.hi_pos_mask;
        let hi_ok = if hb <= 8 && m < 16 {
            assert(hb * (m + 1) <= 128) by (nonlinear_arith)
                requires
                    hb <= 8,
                    m < 16,
            ;
            hb * (m + 1) <= 16
        } else {
            false
        };
        let layout = self.lo_limit <= 4096 && (self.lo_map.len() >= 256 || (self.lo_limit as usize)
            <= self.lo_map.len() * 16) && self.check.len() == self.id_lo.len() && 1
            <= self.char_bits && self.char_bits <= 10 && self.hi_index_shift < 32 && hi_ok;
        if !layout || self.check.len() >= 0x10000 || self.fallback.0 >= 4 || self.fallback.1
            >= 1024 {
            return false;
        }
        let n = self.check.len();
        let mut i: usize = 0;
        while i < n
            invariant
                self@.layout_ok(),
                n == self.check@.len(),
                n < 0x10000,
                i <= n,
                forall|t: int| 0 <= t < i ==> self@.slot_ok(t),
            decreases n - i,
        {
            if self.hi_bits != 0 && ((i as u32) >> self.hi_index_shift) as usize
                >= self.id_hi.len() {
                assert(!self@.slot_ok(i as int));
                return false;
            }
            let g = self.decode_slot(i);
            if g.0 >= 4 || g.1 >= 1024 {
                assert(!self@.slot_ok(i as int));
                return false;
            }
            i += 1;
        }
        true
    }
}

/// The low plane bitmap of the ASCII font.
pub const ASCII_LO_MAP: [u16; 13] = [
    0, 0, 65534, 65535, 65535, 65535, 65535, 32767, 0, 0, 0, 0,
    0,
];

/// The code point of each slot of the ASCII font.
pub const ASCII_CHECK: [u16; 128] = [
    62529, 62496, 62510, 62503, 62557, 0, 62582, 62556, 62527, 62520, 62508, 62585,
    62536, 62581, 62544, 62516, 62568, 62531, 62724, 62570, 62517, 62575, 62518, 0,
    62558, 62551, 62506, 0, 62546, 62562, 62514, 62541, 62553, 62552, 62523, 62564,
    62577, 0, 62554, 0, 62528, 62571, 62500, 62513, 62559, 62566, 62540, 62511,
    62584, 62565, 62542, 62535, 62728, 62579, 62720, 0, 62501, 0, 62550, 62555,
    62515, 62502, 62505, 62561, 62548, 32, 62507, 0, 62589, 62549, 0, 0,
    0, 62725, 62538, 62530, 62498, 62525, 62576, 0, 62497, 62569, 0, 0,
    62543, 62588, 62590, 62583, 0, 0, 62563, 62512, 62545, 62526, 62519, 62534,
    62499, 62721, 62524, 0, 62532, 62539, 62537, 0, 62573, 62533, 0, 0,
    0, 62547, 0, 62586, 0, 0, 62509, 62504, 62560, 62522, 0, 0,
    62521, 62578, 62572, 62574, 62567, 0, 62580, 62587,
];

/// The high bits of the packed glyph IDs of the ASCII font.
pub const ASCII_ID_HI: [u16; 8] = [
    65503, 63355, 65375, 64815, 31797, 64755, 41845, 57148,
];

/// The low bytes of the packed glyph IDs of the ASCII font.
pub const ASCII_ID_LO: [u8; 128] = [
    239, 0, 180, 118, 232, 0, 162, 41, 112, 50, 53, 225,
    46, 226, 44, 51, 38, 111, 1, 165, 242, 100, 178, 0,
    168, 106, 181, 0, 171, 167, 179, 236, 233, 42, 113, 39,
    227, 0, 169, 0, 48, 101, 55, 243, 104, 166, 45, 116,
    34, 230, 172, 110, 0, 99, 2, 0, 246, 0, 170, 105,
    115, 182, 245, 231, 43, 0, 117, 0, 224, 234, 0, 0,
    0, 65, 173, 175, 183, 240, 36, 0, 247, 229, 0, 0,
    108, 33, 160, 98, 0, 0, 103, 52, 235, 176, 114, 174,
    119, 66, 49, 0, 47, 109, 237, 0, 228, 238, 0, 0,
    0, 107, 0, 161, 0, 0, 244, 54, 40, 177, 0, 0,
    241, 163, 37, 164, 102, 0, 35, 97,
];

/// The character data of the ASCII font: 56 4bpp characters of eight 32-bit words each.
pub const ASCII_FONT_DATA: [u32; 448] = [
    0x00000000, 0x00000000, 0x00000000, 0x00000000, 0x00000000, 0x00000000,
    0x00000000, 0x00000000, 0x00008888, 0x00008888, 0x00008888, 0x00008888,
    0x00008888, 0x00008888, 0x00008888, 0x00008888, 0x88888888, 0x88888888,
    0x88888888, 0x88888888, 0x88888888, 0x88888888, 0x88888888, 0x88888888,
    0x00000000, 0x00000000, 0x00000000, 0x00000000, 0x00000000, 0x00000000,
    0x00000000, 0x00000000, 0x00000000, 0x00000000, 0x00000000, 0x00000000,
    0x00000000, 0x00000000, 0x00000000, 0x00000000, 0x00000000, 0x00000000,
    0x00000000, 0x00000000, 0x00000000, 0x00000000, 0x00000000, 0x00000000,
    0x00000000, 0x00000000, 0x00000000, 0x00000000, 0x00000000, 0x00000000,
    0x00000000, 0x00000000, 0x00000000, 0x00000000, 0x00000000, 0x00000000,
    0x00000000, 0x00000000, 0x00000000, 0x00000000, 0x02354330, 0x02354330,
    0x03355331, 0x00154110, 0x01155111, 0x00110110, 0x00154110, 0x00000000,
    0x000BB200, 0x0CEB9A64, 0x00463BC4, 0x02ACEA20, 0x08A26422, 0x04EA8CE2,
    0x0668A264, 0x00000000, 0x00884400, 0x022DD220, 0x0067BA00, 0x2377BB32,
    0x0067BA00, 0x022DD220, 0x00884400, 0x00000000, 0x11000000, 0x01100000,
    0x00110000, 0x04455440, 0x00001100, 0x000AA110, 0x000AA011, 0x00008800,
    0x00BFFB00, 0x0BB44FB0, 0x09BE4880, 0x0897F880, 0x09946A80, 0x09944BB0,
    0x06FFFF60, 0x00000000, 0x05FFF550, 0x0198AE40, 0x01DC4EE0, 0x04FB22A8,
    0x0EE99AA8, 0x06E91660, 0x00EF7600, 0x00000000, 0x00CCCC00, 0x0CC33CC0,
    0x0CC33CC0, 0x04CCCC00, 0x0CC00880, 0x08C73880, 0x008FFC00, 0x00001100,
    0x00991320, 0x0118A310, 0x0556EC40, 0x00330880, 0x0447FC40, 0x0008A200,
    0x00891220, 0x00000000, 0x00BFFBA0, 0x0BF447B8, 0x0EE887F8, 0x0CEAA7F8,
    0x0EECC7F8, 0x077007F8, 0x04FBBFE0, 0x00000000, 0x067FFFE0, 0x01980FF0,
    0x08800FF0, 0x09F76FF0, 0x09900FF0, 0x01980FF0, 0x055DDFE0, 0x00000000,
    0x0FF44CD1, 0x0AB54891, 0x0AA55891, 0x0AACD991, 0x0AA55891, 0x0AB54AB1,
    0x0DF66ED1, 0x00000000, 0x067119E6, 0x07740FF6, 0x07746FF6, 0x077269F6,
    0x077209F6, 0x077009F6, 0x0EF999E6, 0x00000000, 0x00FFFFA0, 0x0FF00FF0,
    0x0EE00FF0, 0x04FBBFE0, 0x05720EE0, 0x03740FF0, 0x06715FA0, 0x00000000,
    0x0FF88EF1, 0x07788671, 0x07788671, 0x07789671, 0x07799771, 0x057BA751,
    0x015EE411, 0x00000000, 0xCE3333EC, 0x0EE01DC0, 0x00EEDD00, 0x000EF100,
    0x008CFB00, 0x08845BA0, 0x8A3773A8, 0x00000000, 0x00446488, 0x00462A80,
    0x00668A20, 0x026C8022, 0x00CC0000, 0x08C40000, 0x88444400, 0x11111111,
    0x00088220, 0x00880220, 0x08F77720, 0x06600330, 0x06644730, 0x06600770,
    0x04777720, 0x00000000, 0x08A22000, 0x08802200, 0x09FFFF20, 0x0DD02FD0,
    0x0DD46FD0, 0x09913FC0, 0x09DCEE00, 0x00111110, 0x00264990, 0x00000990,
    0x01BECD90, 0x08B74990, 0x08A75990, 0x08B74990, 0x0DF64990, 0x00022220,
    0x00088800, 0x00088000, 0x007FB364, 0x077CC774, 0x0778C374, 0x0778C374,
    0x0EF99364, 0x00000000, 0x00000000, 0x00000000, 0x05FFFFA0, 0x0EE00FF0,
    0x0CD11FE0, 0x05DCCEA0, 0x04511BB0, 0x04400880, 0x00008800, 0x00008800,
    0x0FF88EF1, 0x07708E71, 0x07709E71, 0x0473BF50, 0x0CDFE510, 0x00000000,
    0x01110000, 0x00011000, 0x0EE336E8, 0x04EA1DD0, 0x044BBC40, 0x04CD7E80,
    0x0FF322A8, 0x00444400, 0x0228E660, 0x002EE022, 0x000CC000, 0x044C8000,
    0x000CC000, 0x000CC000, 0x0008C440, 0x00000000, 0x00000001, 0x00000010,
    0x00000032, 0x00000320, 0x00000010, 0x00000010, 0x00000001, 0x00000000,
    0x00000480, 0x000000C0, 0x000003E3, 0x00000385, 0x000001F0, 0x000001C2,
    0x000006B3, 0x00000000, 0x00000000, 0x00000000, 0x00000F0F, 0x00000F0F,
    0x000007C7, 0x00000D6D, 0x00000D3D, 0x00000000, 0x00000000, 0x00000080,
    0x00000FDA, 0x000001A7, 0x000001C3, 0x00000592, 0x000009C6, 0x00000000,
    0x00000000, 0x00000000, 0x000000FB, 0x00000F1F, 0x00000F1F, 0x0000079F,
    0x0000034B, 0x00000000, 0x0000029C, 0x00000084, 0x00000694, 0x00000694,
    0x000002D4, 0x00000696, 0x000004B4, 0x00000000, 0x00000228, 0x00000028,
    0x000006FA, 0x00000D2D, 0x00000D79, 0x00000C29, 0x0000097C, 0x00000000,
    0x00000802, 0x00000802, 0x00000CF3, 0x00000B0E, 0x00000B1E, 0x00000B0F,
    0x00000DF2, 0x00000000, 0x000000B1, 0x00000A12, 0x00000010, 0x00000010,
    0x00000010, 0x00000010, 0x00000455, 0x00000000, 0x00000763, 0x00000341,
    0x00000169, 0x000000F0, 0x00000870, 0x00000052, 0x00000672, 0x00000000,
    0x00000F0F, 0x00000F0F, 0x00000787, 0x000007C7, 0x000007C7, 0x00000D6D,
    0x00000D3D, 0x00000000, 0x000008FA, 0x00000787, 0x00000387, 0x000001E3,
    0x00000793, 0x00000787, 0x000003D2, 0x00000000, 0x000001EB, 0x00000F1F,
    0x00000F1F, 0x0000079F, 0x0000070F, 0x0000070F, 0x0000034B, 0x00000000,
    0x0000071D, 0x0000061C, 0x0000025C, 0x0000025C, 0x0000061C, 0x0000061E,
    0x00000DBD, 0x00000000, 0x00000B7B, 0x00000C0F, 0x0000080F, 0x00000CBF,
    0x00000C0F, 0x00000C0F, 0x00000D5B, 0x00000000, 0x000000FA, 0x00000F0F,
    0x00000B0F, 0x0000092F, 0x00000B1F, 0x00000F0F, 0x000001EB, 0x00000000,
    0x000000C0, 0x00000C0E, 0x00000DB9, 0x00000A48, 0x000001F9, 0x0000000A,
    0x000008C0, 0x00000000, 0x00000010, 0x00000901, 0x000001E1, 0x00000118,
    0x00000180, 0x00000961, 0x00000014, 0x00000000, 0x000005F5, 0x00000E0F,
    0x00000C1B, 0x000001E3, 0x00000B4A, 0x00000B4B, 0x000000F0, 0x00000000,
    0x00000870, 0x00000E97, 0x00000E18, 0x00000878, 0x00000CB8, 0x00000C16,
    0x00000B73, 0x00000000, 0x00000080, 0x00000808, 0x00000C08, 0x000009D9,
    0x0000080C, 0x00000808, 0x000000A0, 0x00000000, 0x00000001, 0x00000252,
    0x00000070, 0x00000676, 0x00000070, 0x000002D2, 0x00000009, 0x00000000,
    0x00000860, 0x000002C3, 0x00000382, 0x000000B0, 0x00000283, 0x00000182,
    0x00000A20, 0x00000000, 0x00000696, 0x00000EDE, 0x0000041C, 0x00000C9C,
    0x00000C14, 0x00000CCC, 0x00000494, 0x00000000,
];

/// The lookup tables of the ASCII font.
pub open spec fn ascii_font_view() -> FontView {
    FontView {
        lo_limit: 208,
        lo_map: ASCII_LO_MAP@,
        lo_map_half: Seq::empty(),
        low_miss_searches: true,
        check: ASCII_CHECK@,
        id_hi: ASCII_ID_HI@,
        id_lo: ASCII_ID_LO@,
        hi_bits: 1,
        hi_index_shift: 4,
        hi_pos_mask: 15,
        char_bits: 6,
        half_flag: true,
        fallback: (3, 15, false),
    }
}

/// A terminal font supporting only 7-bit ASCII characters.
///
/// This font does not require additional storage space in the ROM, as it is used by the panic
/// handler.
pub struct TerminalFontAscii(());

impl TerminalFontAscii {
    /// The lookup tables of this font: built from its constant tables, which are well formed.
    pub fn tables() -> (r: Option<FontTables>)
        ensures
            r.is_some() == ascii_font_view().wf(),
            r matches Some(t) ==> t@ == ascii_font_view(),
    {
        FontTables::new(
            208,
            vstd::slice::slice_to_vec(ASCII_LO_MAP.as_slice()),
            Vec::new(),
            true,
            vstd::slice::slice_to_vec(ASCII_CHECK.as_slice()),
            vstd::slice::slice_to_vec(ASCII_ID_HI.as_slice()),
            vstd::slice::slice_to_vec(ASCII_ID_LO.as_slice()),
            1,
            4,
            15,
            6,
            true,
            (3, 15, false),
        )
    }
}

/// An 8x4 terminal font supporting only 7-bit ASCII characters.
pub struct TerminalFontAsciiHalf(());

impl TerminalFontAsciiHalf {
    /// The lookup tables of this font, built from its generated data files.
    pub fn tables(lo_map: Vec<u16>, check: Vec<u16>, id_lo: Vec<u8>) -> (r: Option<FontTables>)
        ensures
            r.is_some() == (FontView {
                lo_limit: 96,
                lo_map: lo_map@,
                lo_map_half: Seq::empty(),
                low_miss_searches: false,
                check: check@,
                id_hi: Seq::empty(),
                id_lo: id_lo@,
                hi_bits: 0,
                hi_index_shift: 0,
                hi_pos_mask: 0,
                char_bits: 5,
                half_flag: false,
                fallback: (3, 15, false),
            }).wf(),
            r matches Some(t) ==> t@ == (FontView {
                lo_limit: 96,
                lo_map: lo_map@,
                lo_map_half: Seq::empty(),
                low_miss_searches: false,
                check: check@,
                id_hi: Seq::empty(),
                id_lo: id_lo@,
                hi_bits: 0,
                hi_index_shift: 0,
                hi_pos_mask: 0,
                char_bits: 5,
                half_flag: false,
                fallback: (3, 15, false),
            }),
    {
        FontTables::new(96, lo_map, Vec::new(), false, check, Vec::new(), id_lo, 0, 0, 0, 5, false,
            (3, 15, false))
    }

    /// Whether this font has half-width glyphs.
    pub fn has_half_width() -> (r: bool)
        ensures
            r,
    {
        true
    }
}

/// An 8x8 basic terminal font supporting many scripts and a limited number of characters useful
/// for rendering menus.
pub struct TerminalFontBasic(());

impl TerminalFontBasic {
    /// The lookup tables of this font, built from its generated data files.
    pub fn tables(lo_map: Vec<u16>, check: Vec<u16>, id_hi: Vec<u16>, id_lo: Vec<u8>) -> (r:
        Option<FontTables>)
        ensures
            r.is_some() == (FontView {
                lo_limit: 768,
                lo_map: lo_map@,
                lo_map_half: Seq::empty(),
                low_miss_searches: false,
                check: check@,
                id_hi: id_hi@,
                id_lo: id_lo@,
                hi_bits: 2,
                hi_index_shift: 3,
                hi_pos_mask: 7,
                char_bits: 8,
                half_flag: false,
                fallback: (1, 105, false),
            }).wf(),
            r matches Some(t) ==> t@ == (FontView {
                lo_limit: 768,
                lo_map: lo_map@,
                lo_map_half: Seq::empty(),
                low_miss_searches: false,
                check: check@,
                id_hi: id_hi@,
                id_lo: id_lo@,
                hi_bits: 2,
                hi_index_shift: 3,
                hi_pos_mask: 7,
                char_bits: 8,
                half_flag: false,
                fallback: (1, 105, false),
            }),
    {
        FontTables::new(768, lo_map, Vec::new(), false, check, id_hi, id_lo, 2, 3, 7, 8, false,
            (1, 105, false))
    }
}

/// A terminal font supporting most characters from the source fonts.
pub struct TerminalFontFull(());

impl TerminalFontFull {
    /// The lookup tables of this font, built from its generated data files.
    pub fn tables(lo_map: Vec<u16>, check: Vec<u16>, id_hi: Vec<u16>, id_lo: Vec<u8>) -> (r:
        Option<FontTables>)
        ensures
            r.is_some() == (FontView {
                lo_limit: 1024,
                lo_map: lo_map@,
                lo_map_half: Seq::empty(),
                low_miss_searches: false,
                check: check@,
                id_hi: id_hi@,
                id_lo: id_lo@,
                hi_bits: 4,
                hi_index_shift: 3,
                hi_pos_mask: 3,
                char_bits: 10,
                half_flag: false,
                fallback: (0, 519, false),
            }).wf(),
            r matches Some(t) ==> t@ == (FontView {
                lo_limit: 1024,
                lo_map: lo_map@,
                lo_map_half: Seq::empty(),
                low_miss_searches: false,
                check: check@,
                id_hi: id_hi@,
                id_lo: id_lo@,
                hi_bits: 4,
                hi_index_shift: 3,
                hi_pos_mask: 3,
                char_bits: 10,
                half_flag: false,
                fallback: (0, 519, false),
            }),
    {
        FontTables::new(1024, lo_map, Vec::new(), false, check, id_hi, id_lo, 4, 3, 3, 10, false,
            (0, 519, false))
    }
}

} // verus!
