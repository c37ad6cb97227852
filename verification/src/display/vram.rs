//! Access to character data and tile maps in video memory.
use crate::dma::{transfer_ok, DmaChannel, DmaRequest};
use crate::io::IoWrite;
use crate::mmio::display::VramTile;
use vstd::prelude::*;

verus! {

/// A helper type used to write character data into VRAM.
#[derive(Copy, Clone, Debug)]
pub struct CharAccess {
    base: usize,
    lower_bound: usize,
    upper_bound: usize,
}

/// Whether `count` characters starting at `id` may be written through an access covering the
/// character IDs `lower` to `upper`.
pub open spec fn char_bounds_ok(lower: usize, upper: usize, id: usize, count: usize) -> bool {
    let end_id = id + count;
    count < 2048 && lower <= id < upper && lower <= end_id < upper
}

/// The number of characters in `len` elements of `elem_size` bytes, at `char_size` bytes per
/// character.
pub open spec fn char_count(len: usize, elem_size: usize, char_size: usize) -> usize {
    (len / (char_size / elem_size)) as usize
}

impl CharAccess {
    /// The address of character 0.
    pub closed spec fn base(&self) -> usize {
        self.base
    }

    /// The lowest character ID that may be written.
    pub closed spec fn lower_bound(&self) -> usize {
        self.lower_bound
    }

    /// The end of the range of character IDs that may be written.
    pub closed spec fn upper_bound(&self) -> usize {
        self.upper_bound
    }

    /// An access with the given base address and character range.
    pub fn new(base: usize, lower_bound: usize, upper_bound: usize) -> (r: Self)
        ensures
            r.base() == base,
            r.lower_bound() == lower_bound,
            r.upper_bound() == upper_bound,
    {
        CharAccess { base, lower_bound, upper_bound }
    }

    /// Whether `count` characters starting at `id` may be written.
    pub fn check_bounds(&self, id: usize, count: usize) -> (r: bool)
        ensures
            r == char_bounds_ok(self.lower_bound(), self.upper_bound(), id, count),
    {
        if count >= 2048 || id < self.lower_bound || id >= self.upper_bound {
            return false;
        }
        if id > usize::MAX - count {
            return false;
        }
        let end_id = id + count;
        !(end_id < self.lower_bound || end_id >= self.upper_bound)
    }

    /// The address of character `id`.
    pub fn base_index(&self, id: usize) -> (r: usize)
        requires
            self.base() + 32 * id <= usize::MAX,
        ensures
            r == self.base() + 32 * id,
    {
        self.base + 32 * id
    }

    /// The address where 4bpp character data of `len` elements of `elem_size` bytes (2 or 4)
    /// starting at character `id` is written.
    ///
    /// The data must hold whole characters, and the characters must lie in the access's range.
    pub fn write_char_4bpp(&self, id: usize, len: usize, elem_size: usize) -> (r: usize)
        requires
            elem_size == 2 || elem_size == 4,
            len % (32usize / elem_size) == 0,
            char_bounds_ok(self.lower_bound(), self.upper_bound(), id, char_count(len, elem_size, 32)),
            self.base() + 32 * id <= usize::MAX,
        ensures
            r == self.base() + 32 * id,
    {
        self.base_index(id)
    }

    /// The address where 8bpp character data of `len` elements of `elem_size` bytes (2 or 4)
    /// starting at character `id` is written. 8bpp character IDs must be even.
    pub fn write_char_8bpp(&self, id: usize, len: usize, elem_size: usize) -> (r: usize)
        requires
            elem_size == 2 || elem_size == 4,
            id % 2 == 0,
            len % (64usize / elem_size) == 0,
            char_bounds_ok(self.lower_bound(), self.upper_bound(), id, char_count(len, elem_size, 64)),
            self.base() + 32 * id <= usize::MAX,
        ensures
            r == self.base() + 32 * id,
    {
        self.base_index(id)
    }
}

impl CharAccess {
    /// The DMA request that copies 4bpp character data of `len` elements of `elem_size` bytes
    /// (2 or 4) stored at `src` to character `id` on.
    pub fn write_char_4bpp_dma(
        &self,
        channel: &DmaChannel,
        src: usize,
        id: usize,
        len: usize,
        elem_size: usize,
    ) -> (r: DmaRequest)
        requires
            elem_size == 2 || elem_size == 4,
            len % (32usize / elem_size) == 0,
            char_bounds_ok(self.lower_bound(), self.upper_bound(), id, char_count(len, elem_size, 32)),
            self.base() + 32 * id <= usize::MAX,
            len * elem_size <= usize::MAX,
            transfer_ok(
                channel.channel().spec_index() == 0,
                channel.channel().spec_index() <= 2,
                src,
                (self.base() + 32 * id) as usize,
                (len * elem_size) as usize,
            ),
        ensures
            r.channel == channel.channel(),
            r.src == src,
            r.dst == self.base() + 32 * id,
            r.word_count == ((len * elem_size) as usize) >> crate::dma::transfer_shift(
                src,
                r.dst,
                (len * elem_size) as usize,
            ),
            r.word_count * crate::dma::transfer_unit(src, r.dst, (len * elem_size) as usize) == len * elem_size,
            r.cnt@ == crate::dma::transfer_cnt(
                channel.irq_notify(),
                crate::dma::transfer_is_u32(src, r.dst, (len * elem_size) as usize),
            ),
    {
        let dst = self.write_char_4bpp(id, len, elem_size);
        channel.unsafe_transfer(src, dst, len * elem_size)
    }

    /// The DMA request that copies 8bpp character data of `len` elements of `elem_size` bytes
    /// (2 or 4) stored at `src` to character `id` on; the ID must be even.
    pub fn write_char_8bpp_dma(
        &self,
        channel: &DmaChannel,
        src: usize,
        id: usize,
        len: usize,
        elem_size: usize,
    ) -> (r: DmaRequest)
        requires
            elem_size == 2 || elem_size == 4,
            id % 2 == 0,
            len % (64usize / elem_size) == 0,
            char_bounds_ok(self.lower_bound(), self.upper_bound(), id, char_count(len, elem_size, 64)),
            self.base() + 32 * id <= usize::MAX,
            len * elem_size <= usize::MAX,
            transfer_ok(
                channel.channel().spec_index() == 0,
                channel.channel().spec_index() <= 2,
                src,
                (self.base() + 32 * id) as usize,
                (len * elem_size) as usize,
            ),
        ensures
            r.channel == channel.channel(),
            r.src == src,
            r.dst == self.base() + 32 * id,
            r.word_count == ((len * elem_size) as usize) >> crate::dma::transfer_shift(
                src,
                r.dst,
                (len * elem_size) as usize,
            ),
            r.word_count * crate::dma::transfer_unit(src, r.dst, (len * elem_size) as usize) == len * elem_size,
            r.cnt@ == crate::dma::transfer_cnt(
                channel.irq_notify(),
                crate::dma::transfer_is_u32(src, r.dst, (len * elem_size) as usize),
            ),
    {
        let dst = self.write_char_8bpp(id, len, elem_size);
        channel.unsafe_transfer(src, dst, len * elem_size)
    }
}

/// The number of characters in 4bpp data of `len` elements of `elem_size` bytes, or `None` if
/// the data ends with an incomplete character.
pub fn char_count_4bpp(len: usize, elem_size: usize) -> (r: Option<usize>)
    requires
        elem_size == 2 || elem_size == 4,
    ensures
        r.is_some() == (len % (32usize / elem_size) == 0),
        r matches Some(n) ==> n == char_count(len, elem_size, 32),
{
    let count = 32 / elem_size;
    if len % count != 0 {
        None
    } else {
        Some(len / count)
    }
}

/// The number of characters in 8bpp data of `len` elements of `elem_size` bytes, or `None` if
/// the data ends with an incomplete character.
pub fn char_count_8bpp(len: usize, elem_size: usize) -> (r: Option<usize>)
    requires
        elem_size == 2 || elem_size == 4,
    ensures
        r.is_some() == (len % (64usize / elem_size) == 0),
        r matches Some(n) ==> n == char_count(len, elem_size, 64),
{
    let count = 64 / elem_size;
    if len % count != 0 {
        None
    } else {
        Some(len / count)
    }
}

/// A helper type used to write data into tile maps.
#[derive(Copy, Clone, Debug)]
pub struct MapAccess {
    base: usize,
    map_length: usize,
    map_shift: usize,
    map_area: usize,
}

impl MapAccess {
    #[verifier::type_invariant]
    spec fn shape_ok(self) -> bool {
        &&& self.map_shift <= 8
        &&& self.map_length == 1usize << self.map_shift
        &&& self.map_length <= 256
        &&& self.map_area == self.map_length * self.map_length
        &&& self.base + 2 * self.map_area <= usize::MAX
    }

    /// The address of the first tile.
    pub closed spec fn base(&self) -> usize {
        self.base
    }

    /// The width and height of the map, in tiles.
    pub closed spec fn map_length(&self) -> usize {
        self.map_length
    }

    /// The base-2 logarithm of the map width.
    pub closed spec fn map_shift(&self) -> usize {
        self.map_shift
    }

    /// The number of tiles of the map.
    pub closed spec fn map_area(&self) -> usize {
        self.map_area
    }

    /// An access to a square map `2^shift` tiles wide at the given address.
    pub fn new(base: usize, shift: usize) -> (r: Self)
        requires
            shift <= 8,
            base + 2 * (1usize << shift) * (1usize << shift) <= usize::MAX,
        ensures
            r.base() == base,
            r.map_shift() == shift,
            r.map_length() == 1usize << shift,
            r.map_area() == (1usize << shift) * (1usize << shift),
    {
        let scale: usize = 1usize << shift;
        assert(scale <= 256) by (bit_vector)
            requires
                shift <= 8,
                scale == 1usize << shift,
        ;
        assert(scale * scale <= 65536 && 2 * scale * scale == 2 * (scale * scale)) by (nonlinear_arith)
            requires
                scale <= 256,
        ;
        MapAccess { base, map_length: scale, map_shift: shift, map_area: scale * scale }
    }

    /// The index of tile `(x, y)`; both coordinates must be inside the map.
    pub fn index(&self, x: usize, y: usize) -> (r: usize)
        requires
            x < self.map_length(),
            y < self.map_length(),
        ensures
            r == x + y * self.map_length(),
            r < self.map_area(),
    {
        proof {
            use_type_invariant(self);
        }
        let s = self.map_shift;
        let l = self.map_length;
        assert(y << s == y * l) by (bit_vector)
            requires
                s <= 8,
                l == 1usize << s,
                y < l,
        ;
        assert(x + y * l < l * l) by (nonlinear_arith)
            requires
                x < l,
                y < l,
        ;
        x + (y << s)
    }

    /// Whether `count` tiles starting at `(x, y)` lie inside the map; both coordinates must be
    /// inside the map.
    pub fn check_bounds(&self, x: usize, y: usize, count: usize) -> (r: bool)
        requires
            x < self.map_length(),
            y < self.map_length(),
        ensures
            r == (x + y * self.map_length() + count <= self.map_area()),
    {
        let start_idx = self.index(x, y);
        count <= self.map_area && start_idx <= self.map_area - count
    }

    /// The address of tile `(x, y)`; both coordinates must be inside the map.
    pub fn base_index(&self, x: usize, y: usize) -> (r: usize)
        requires
            x < self.map_length(),
            y < self.map_length(),
        ensures
            r == self.base() + 2 * (x + y * self.map_length()),
    {
        proof {
            use_type_invariant(self);
        }
        self.base + 2 * self.index(x, y)
    }

    /// The write that sets tile `(x, y)` to `tile`.
    pub fn set_tile(&self, x: usize, y: usize, tile: VramTile) -> (r: IoWrite)
        requires
            x < self.map_length(),
            y < self.map_length(),
        ensures
            r == (IoWrite::U16 {
                addr: (self.base() + 2 * (x + y * self.map_length())) as usize,
                value: tile@ as u16,
            }),
    {
        IoWrite::U16 { addr: self.base_index(x, y), value: tile.bits() }
    }

    /// The writes that store `tiles` from tile `(x, y)` on, laid out row by row and rolling
    /// over to the start of the next row at the end of a row.
    pub fn set_tiles(&self, x: usize, y: usize, tiles: &[VramTile]) -> (r: Vec<IoWrite>)
        requires
            x < self.map_length(),
            y < self.map_length(),
            x + y * self.map_length() + tiles@.len() <= self.map_area(),
        ensures
            r@.len() == tiles@.len(),
            forall|i: int|
                0 <= i < tiles@.len() ==> #[trigger] r@[i] == (IoWrite::U16 {
                    addr: (self.base() + 2 * (x + y * self.map_length() + i)) as usize,
                    value: tiles@[i]@ as u16,
                }),
    {
        proof {
            use_type_invariant(self);
        }
        let start = self.base_index(x, y);
        let mut out: Vec<IoWrite> = Vec::new();
        let mut i: usize = 0;
        while i < tiles.len()
            invariant
                i <= tiles@.len(),
                out@.len() == i,
                start == self.base() + 2 * (x + y * self.map_length()),
                x + y * self.map_length() + tiles@.len() <= self.map_area(),
                self.base() + 2 * self.map_area() <= usize::MAX,
                forall|j: int|
                    0 <= j < i ==> #[trigger] out@[j] == (IoWrite::U16 {
                        addr: (self.base() + 2 * (x + y * self.map_length() + j)) as usize,
                        value: tiles@[j]@ as u16,
                    }),
            decreases tiles@.len() - i,
        {
            out.push(IoWrite::U16 { addr: start + 2 * i, value: tiles[i].bits() });
            i = i + 1;
        }
        out
    }

    /// The DMA request that fills `count` tiles from `(x, y)` on with the tile stored at `src`;
    /// `src` and the address of the map must be even.
    pub fn set_tile_dma(&self, channel: &DmaChannel, src: usize, x: usize, y: usize, count: usize)
        -> (r: DmaRequest)
        requires
            x < self.map_length(),
            y < self.map_length(),
            x + y * self.map_length() + count <= self.map_area(),
            count < 0x10000,
            src % 2 == 0,
            self.base() % 2 == 0,
        ensures
            r.channel == channel.channel(),
            r.src == src,
            r.dst == self.base() + 2 * (x + y * self.map_length()),
            r.word_count == count,
            r.cnt@ == crate::dma::fill_cnt(channel.irq_notify(), false),
    {
        proof {
            use_type_invariant(self);
        }
        channel.unsafe_set(src, self.base_index(x, y), 2, 2, count)
    }

    /// The DMA request that copies `len` tiles stored at `src` to the map from `(x, y)` on.
    pub fn set_tiles_dma(&self, channel: &DmaChannel, src: usize, x: usize, y: usize, len: usize)
        -> (r: DmaRequest)
        requires
            x < self.map_length(),
            y < self.map_length(),
            x + y * self.map_length() + len <= self.map_area(),
            transfer_ok(
                channel.channel().spec_index() == 0,
                channel.channel().spec_index() <= 2,
                src,
                (self.base() + 2 * (x + y * self.map_length())) as usize,
                (len * 2) as usize,
            ),
        ensures
            r.channel == channel.channel(),
            r.src == src,
            r.dst == self.base() + 2 * (x + y * self.map_length()),
            r.word_count == ((len * 2) as usize) >> crate::dma::transfer_shift(src, r.dst, (len * 2) as usize),
            r.word_count * crate::dma::transfer_unit(src, r.dst, (len * 2) as usize) == len * 2,
            r.cnt@ == crate::dma::transfer_cnt(
                channel.irq_notify(),
                crate::dma::transfer_is_u32(src, r.dst, (len * 2) as usize),
            ),
    {
        proof {
            use_type_invariant(self);
        }
        channel.unsafe_transfer(src, self.base_index(x, y), len * 2)
    }
}

} // verus!
