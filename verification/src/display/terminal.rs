//! A terminal display mode that makes it easy to display text.
//!
//! The terminal draws on four tile layers. A full-width character covers one tile on layer 0
//! with a blank tile on layer 1 and a background tile on layer 2; half-width characters are
//! offset by half a tile using layers 1 and 3. The terminal keeps its own copy of the four tile
//! maps, the background palette and the layer offsets; the hardware layer mirrors them into
//! video memory and the layer registers.
use crate::bits::{get_bits, set_bits};
use crate::display::fonts::{FontTables, FontView};
use crate::display::layers::{LayerId, TileLayer};
use crate::dma::{transfer_cnt, transfer_is_u32, transfer_ok, transfer_shift, DmaChannelId, DmaRequest};
use crate::io::{IoWrite, BG_CNT, BG_HOFS, BG_PALETTE_RAM, BG_VOFS, DISPCNT, VRAM_BASE};
use crate::mmio::display::{BgCnt, DispCnt, DispMode};
use crate::sync::{LockSet, RawMutex, RawMutexGuard};
use crate::mmio::display::VramTile;
use vstd::prelude::*;

verus! {

/// The number of tile map entries the terminal keeps: four maps of 32x32 tiles.
pub const MAP_TILES: usize = 4096;

/// The number of background palette entries.
pub const PALETTE_SIZE: usize = 256;

/// The index of tile `(x, y)` of map `i` in the terminal's tile maps.
pub open spec fn map_index(i: int, x: int, y: int) -> int {
    i * 1024 + y * 32 + x
}

/// The bits of a tile map entry showing character `ch` with palette `pal`.
pub open spec fn tile_bits(ch: u16, pal: u32) -> u16 {
    set_bits(set_bits(0, 0, 10, ch as u32), 12, 4, pal) as u16
}

/// Code points of ASCII characters are moved to the half-width glyph area.
pub open spec fn process_hw(ch: u32) -> u32 {
    if ch < 128 {
        (ch + 0xF400) as u32
    } else {
        ch
    }
}

/// The code stored in the write buffer for a code point.
pub open spec fn buffer_code(ch: u32) -> u16 {
    if ch >= 0x10000 {
        0xF50F
    } else {
        ch as u16
    }
}

/// Whether palette index `k` (0 to 15) is drawn in the foreground color for bit plane `plane`.
///
/// Each glyph plane is stored in one bit of a 4bpp pixel: plane 0 in bit 3, plane 3 in bit 0.
pub open spec fn plane_bit_set(k: int, plane: int) -> bool {
    let d = if plane == 0 {
        8int
    } else if plane == 1 {
        4int
    } else if plane == 2 {
        2int
    } else {
        1int
    };
    (k / d) % 2 == 1
}

/// The background palette after setting terminal color `id` to `bg` and `fg`.
///
/// Terminal color `id` uses the four 16-color palettes `4 * id` to `4 * id + 3`, one per glyph
/// plane.
pub open spec fn palette_with_color(p: Seq<u16>, id: int, bg: u16, fg: u16) -> Seq<u16> {
    Seq::new(
        p.len(),
        |j: int|
            if id * 64 <= j < id * 64 + 64 {
                if plane_bit_set(j % 16, (j - id * 64) / 16) {
                    fg
                } else {
                    bg
                }
            } else {
                p[j]
            },
    )
}

/// The fixed configuration of an active terminal.
pub struct TermConfig {
    /// The font.
    pub font: FontView,
    /// The blank tile for each terminal color.
    pub space: Seq<u16>,
    /// The half-width background tile for each terminal color.
    pub half_bg: Seq<u16>,
    /// The full-width background tile for each terminal color.
    pub full_bg: Seq<u16>,
}

/// The state of an active terminal.
pub struct TerminalView {
    /// The cursor column, counted in half-width cells (0 to 57).
    pub cursor_x: u8,
    /// The cursor row (0 to 18).
    pub cursor_y: u8,
    /// Whether characters are written in half-width mode.
    pub cursor_hw: bool,
    /// The terminal color used for writing (0 to 3).
    pub color: u8,
    /// How many rows the screen has scrolled, modulo 32.
    pub line_advance: u8,
    /// The vertical offset of the four layers.
    pub v_offset: i16,
    /// Whether the screen is blanked.
    pub force_blank: bool,
    /// The four tile maps.
    pub maps: Seq<u16>,
    /// The background palette.
    pub palette: Seq<u16>,
    /// The background and foreground colors of the four terminal colors.
    pub colors: Seq<(u16, u16)>,
}

/// The tile map entry showing the glyph of `ch` in terminal color `color`.
pub open spec fn glyph_tile(font: FontView, ch: u32, color: u8) -> u16 {
    let g = font.glyph(ch);
    tile_bits(g.1, (color * 4 + g.0) as u32)
}

/// The tile data and the half-width flag for character `ch` in terminal color `color`.
pub open spec fn data_for(c: TermConfig, ch: u32, color: u8) -> (u16, bool) {
    (glyph_tile(c.font, ch, color), c.font.glyph(ch).2)
}

/// Computes the tile showing the glyph of `ch` in terminal color `color`, and whether the
/// glyph is half-width.
fn glyph_data(font: &FontTables, ch: u32, color: u8) -> (r: (u16, bool))
    requires
        font.wf(),
        color < 4,
    ensures
        r.0 == glyph_tile(font@, ch, color),
        r.1 == font@.glyph(ch).2,
{
    let g = font.get_font_glyph(ch);
    let pal = color * 4 + g.0;
    let t = VramTile::default().with_char(g.1).with_palette(pal);
    (t.bits(), g.2)
}

/// The map row that screen row `y` is drawn on.
pub open spec fn row(v: TerminalView, y: int) -> int {
    (y + v.line_advance) % 32
}

/// The state after setting tile `(x, y)` of map `i`.
pub open spec fn put(v: TerminalView, i: int, x: int, y: int, t: u16) -> TerminalView {
    TerminalView { maps: v.maps.update(map_index(i, x, y), t), ..v }
}

/// The state after drawing a full-width tile at cell `(x, y)`.
pub open spec fn put_char_full(
    c: TermConfig,
    v: TerminalView,
    x: int,
    y: int,
    tile: u16,
    color: int,
) -> TerminalView {
    let r = row(v, y);
    put(put(put(v, 0, x, r, tile), 1, x, r, c.space[color]), 2, x, r, c.full_bg[color])
}

/// The state after drawing a character at half-width column `x` of row `y`.
pub open spec fn put_char_half(
    c: TermConfig,
    v: TerminalView,
    x: int,
    y: int,
    tile: u16,
    is_half: bool,
    color: int,
) -> TerminalView {
    let r = row(v, y);
    let tx = x / 2;
    if is_half && x % 2 == 0 {
        put(put(v, 0, tx, r, tile), 2, tx, r, c.half_bg[color])
    } else if is_half {
        put(put(v, 1, tx, r, tile), 3, tx, r, c.half_bg[color])
    } else if x % 2 == 0 {
        put(put(put(v, 0, tx, r, tile), 1, tx, r, c.space[color]), 2, tx, r, c.full_bg[color])
    } else {
        put(
            put(put(put(v, 0, tx + 1, r, c.space[color]), 1, tx, r, tile), 2, tx + 1, r, c.space[color]),
            3,
            tx,
            r,
            c.full_bg[color],
        )
    }
}

/// The state after blanking the 29 visible tiles of screen row `y` on all four maps.
pub open spec fn cleared_line(c: TermConfig, v: TerminalView, y: int) -> TerminalView {
    let r = row(v, y);
    TerminalView {
        maps: Seq::new(
            v.maps.len(),
            |k: int|
                if (k % 1024) / 32 == r && k % 32 < 29 {
                    c.space[0]
                } else {
                    v.maps[k]
                },
        ),
        ..v
    }
}

/// The state after scrolling the screen by one row.
pub open spec fn advanced_screen(c: TermConfig, v: TerminalView) -> TerminalView {
    let v1 = cleared_line(c, v, 0);
    let la = (v.line_advance + 1) % 32;
    TerminalView { line_advance: la as u8, v_offset: (4 - la * 8) as i16, ..v1 }
}

/// Law: scrolling by one row blanks the map row that showed the top screen row, on all four
/// maps and in the 29 visible columns, so that it comes back empty as the new bottom row; the
/// other tiles stay, every screen row then shows the map row that showed the row below it,
/// and the cursor does not move.
pub proof fn lemma_scroll_blanks_old_top_row(c: TermConfig, v: TerminalView)
    requires
        v.maps.len() == MAP_TILES,
        v.line_advance < 32,
    ensures
        advanced_screen(c, v).maps.len() == MAP_TILES,
        forall|i: int, x: int|
            0 <= i < 4 && 0 <= x < 29 ==> #[trigger] advanced_screen(c, v).maps[i * 1024
                + v.line_advance * 32 + x] == c.space[0],
        forall|k: int|
            0 <= k < MAP_TILES && ((k % 1024) / 32 != v.line_advance || k % 32 >= 29) ==> #[trigger] advanced_screen(c, v).maps[k]
                == v.maps[k],
        advanced_screen(c, v).line_advance == (v.line_advance + 1) % 32,
        advanced_screen(c, v).cursor_x == v.cursor_x,
        advanced_screen(c, v).cursor_y == v.cursor_y,
{
    let w = advanced_screen(c, v);
    assert forall|i: int, x: int| 0 <= i < 4 && 0 <= x < 29 implies #[trigger] w.maps[i * 1024
        + v.line_advance * 32 + x] == c.space[0] by {
        let k = i * 1024 + v.line_advance * 32 + x;
        assert(k % 1024 == v.line_advance * 32 + x);
        assert((k % 1024) / 32 == v.line_advance);
        assert(k % 32 == x);
    }
}

/// Law: a half-width glyph at an even half-width column goes to map 0 at tile `x / 2` with its
/// background on map 2, and at an odd column to map 1 (shifted by half a tile) with its
/// background on map 3, leaving the glyph of the even column on map 0; no other tile changes.
pub proof fn lemma_half_glyph_layers(
    c: TermConfig,
    v: TerminalView,
    x: int,
    y: int,
    tile: u16,
    color: int,
)
    requires
        v.maps.len() == MAP_TILES,
        v.line_advance < 32,
        0 <= x < 58,
        0 <= y < 19,
        0 <= color < 4,
    ensures
        ({
            let w = put_char_half(c, v, x, y, tile, true, color);
            let cell = ((y + v.line_advance) % 32) * 32 + x / 2;
            let (glyph_map, bg_map) = if x % 2 == 0 { (0int, 2int) } else { (1int, 3int) };
            &&& w.maps.len() == MAP_TILES
            &&& w.maps[glyph_map * 1024 + cell] == tile
            &&& w.maps[bg_map * 1024 + cell] == c.half_bg[color]
            &&& forall|k: int|
                0 <= k < MAP_TILES && k != glyph_map * 1024 + cell && k != bg_map * 1024 + cell
                    ==> #[trigger] w.maps[k] == v.maps[k]
        }),
{
}

/// Law: in half-width cells, a full-width glyph at an even column `x` covers tile `x / 2`: its
/// glyph on map 0, a blank tile on map 1 and its background on map 2. At an odd column it
/// straddles two tiles: its glyph on map 1 and its background on map 3 at tile `x / 2`, and
/// blank tiles on maps 0 and 2 at the next tile. No other tile changes.
pub proof fn lemma_wide_glyph_in_half_cells(
    c: TermConfig,
    v: TerminalView,
    x: int,
    y: int,
    tile: u16,
    color: int,
)
    requires
        v.maps.len() == MAP_TILES,
        v.line_advance < 32,
        0 <= x < 58,
        0 <= y < 19,
        0 <= color < 4,
    ensures
        ({
            let w = put_char_half(c, v, x, y, tile, false, color);
            let cell = ((y + v.line_advance) % 32) * 32 + x / 2;
            &&& w.maps.len() == MAP_TILES
            &&& x % 2 == 0 ==> {
                &&& w.maps[cell] == tile
                &&& w.maps[1024 + cell] == c.space[color]
                &&& w.maps[2048 + cell] == c.full_bg[color]
                &&& forall|k: int|
                    0 <= k < MAP_TILES && k != cell && k != 1024 + cell && k != 2048 + cell
                        ==> #[trigger] w.maps[k] == v.maps[k]
            }
            &&& x % 2 == 1 ==> {
                &&& w.maps[1024 + cell] == tile
                &&& w.maps[3072 + cell] == c.full_bg[color]
                &&& w.maps[cell + 1] == c.space[color]
                &&& w.maps[2048 + cell + 1] == c.space[color]
                &&& forall|k: int|
                    0 <= k < MAP_TILES && k != 1024 + cell && k != 3072 + cell && k != cell + 1
                        && k != 2048 + cell + 1 ==> #[trigger] w.maps[k] == v.maps[k]
            }
        }),
{
}

/// Law: a full-width character at full-width column `x` puts its glyph on map 0, a blank tile
/// on map 1 and its background on map 2 at tile `x` of the row's map row; no other tile
/// changes.
pub proof fn lemma_full_glyph_layers(c: TermConfig, v: TerminalView, x: int, y: int, tile: u16, color: int)
    requires
        v.maps.len() == MAP_TILES,
        v.line_advance < 32,
        0 <= x < 29,
        0 <= y < 19,
        0 <= color < 4,
    ensures
        ({
            let w = put_char_full(c, v, x, y, tile, color);
            let cell = ((y + v.line_advance) % 32) * 32 + x;
            &&& w.maps.len() == MAP_TILES
            &&& w.maps[cell] == tile
            &&& w.maps[1024 + cell] == c.space[color]
            &&& w.maps[2048 + cell] == c.full_bg[color]
            &&& forall|k: int|
                0 <= k < MAP_TILES && k != cell && k != 1024 + cell && k != 2048 + cell
                    ==> #[trigger] w.maps[k] == v.maps[k]
        }),
{
}

/// Law: clearing screen row `y` blanks its 29 visible tiles on all four maps and changes no
/// other tile.
pub proof fn lemma_clear_line_blanks_row(c: TermConfig, v: TerminalView, y: int)
    requires
        v.maps.len() == MAP_TILES,
        v.line_advance < 32,
        0 <= y < 19,
    ensures
        cleared_line(c, v, y).maps.len() == MAP_TILES,
        forall|i: int, x: int|
            0 <= i < 4 && 0 <= x < 29 ==> #[trigger] cleared_line(c, v, y).maps[i * 1024 + ((y
                + v.line_advance) % 32) * 32 + x] == c.space[0],
        forall|k: int|
            0 <= k < MAP_TILES && ((k % 1024) / 32 != (y + v.line_advance) % 32 || k % 32 >= 29)
                ==> #[trigger] cleared_line(c, v, y).maps[k] == v.maps[k],
{
    let w = cleared_line(c, v, y);
    let r = (y + v.line_advance) % 32;
    assert forall|i: int, x: int| 0 <= i < 4 && 0 <= x < 29 implies #[trigger] w.maps[i * 1024 + r
        * 32 + x] == c.space[0] by {
        let k = i * 1024 + r * 32 + x;
        assert(k % 1024 == r * 32 + x);
        assert((k % 1024) / 32 == r);
        assert(k % 32 == x);
    }
}

/// The state after moving the cursor to the start of the next line, scrolling at the bottom.
pub open spec fn advanced_cursor(c: TermConfig, v: TerminalView) -> TerminalView {
    let v1 = TerminalView { cursor_x: 0, ..v };
    if v.cursor_y == 18 {
        advanced_screen(c, v1)
    } else {
        TerminalView { cursor_y: (v.cursor_y + 1) as u8, ..v1 }
    }
}

/// The state after writing a character at the cursor and advancing it.
pub open spec fn wrote_char(c: TermConfig, v: TerminalView, ch: u32) -> TerminalView {
    let ch1 = if v.cursor_hw {
        process_hw(ch)
    } else {
        ch
    };
    let x = v.cursor_x as int;
    let y = v.cursor_y as int;
    let d = data_for(c, ch1, v.color);
    let half_path = v.cursor_hw || x % 2 == 1;
    let v1 = if half_path {
        put_char_half(c, v, x, y, d.0, d.1, v.color as int)
    } else {
        put_char_full(c, v, x / 2, y, d.0, v.color as int)
    };
    let wrote_hw = half_path && v.cursor_hw && d.1;
    let cx = x + 2 - (if wrote_hw {
        1int
    } else {
        0int
    });
    let v2 = TerminalView { cursor_x: cx as u8, ..v1 };
    if cx >= 57 + (if v.cursor_hw {
        1int
    } else {
        0int
    }) {
        advanced_cursor(c, v2)
    } else {
        v2
    }
}

/// The state after writing the buffered codes in order.
pub open spec fn dumped(c: TermConfig, v: TerminalView, buf: Seq<u16>) -> TerminalView
    decreases buf.len(),
{
    if buf.len() == 0 {
        v
    } else {
        dumped(c, wrote_char(c, v, buf[0] as u32), buf.drop_first())
    }
}

/// Whether the terminal state is consistent.
pub open spec fn term_inv(c: TermConfig, v: TerminalView) -> bool {
    &&& v.cursor_x < 58
    &&& v.cursor_y < 19
    &&& v.color < 4
    &&& v.line_advance < 32
    &&& v.maps.len() == MAP_TILES
    &&& v.palette.len() == PALETTE_SIZE
    &&& v.colors.len() == 4
    &&& c.font.wf()
    &&& c.space.len() == 4
    &&& c.half_bg.len() == 4
    &&& c.full_bg.len() == 4
}

/// Writing a character keeps the terminal state consistent, and moves the cursor forward by
/// one or two columns or to the start of a line.
pub proof fn lemma_wrote_char(c: TermConfig, v: TerminalView, ch: u32)
    requires
        term_inv(c, v),
    ensures
        term_inv(c, wrote_char(c, v, ch)),
        wrote_char(c, v, ch).cursor_x == 0 || wrote_char(c, v, ch).cursor_x == v.cursor_x + 1
            || wrote_char(c, v, ch).cursor_x == v.cursor_x + 2,
        wrote_char(c, v, ch).cursor_x == v.cursor_x + 1 ==> v.cursor_hw,
        v.cursor_x + 2 < 57 ==> wrote_char(c, v, ch).cursor_x != 0,
        wrote_char(c, v, ch).cursor_hw == v.cursor_hw,
        wrote_char(c, v, ch).color == v.color,
{
}

/// Writing buffered codes keeps the terminal state consistent.
pub proof fn lemma_dumped(c: TermConfig, v: TerminalView, buf: Seq<u16>)
    requires
        term_inv(c, v),
    ensures
        term_inv(c, dumped(c, v, buf)),
        dumped(c, v, buf).cursor_hw == v.cursor_hw,
    decreases buf.len(),
{
    if buf.len() > 0 {
        lemma_wrote_char(c, v, buf[0] as u32);
        lemma_dumped(c, wrote_char(c, v, buf[0] as u32), buf.drop_first());
    }
}


/// The state after clearing the whole terminal.
pub open spec fn cleared_all(c: TermConfig, v: TerminalView) -> TerminalView {
    TerminalView {
        cursor_x: 0,
        cursor_y: 0,
        color: 0,
        line_advance: 0,
        maps: Seq::new(v.maps.len(), |k: int| c.space[0]),
        ..v
    }
}

/// The state of a terminal writer: the buffered codes of the current word, and whether the
/// word was too long to buffer and is written straight through.
pub struct WriterView {
    /// The buffered codes.
    pub buffer: Seq<u16>,
    /// Whether characters are written without buffering.
    pub passthrough: bool,
}

/// A writer with nothing buffered.
pub open spec fn empty_writer() -> WriterView {
    WriterView { buffer: Seq::empty(), passthrough: false }
}

/// Ends the current word: it moves to the next line if it does not fit on this one but fits on
/// a line of its own, and is then written out.
pub open spec fn flushed(c: TermConfig, w: WriterView, v: TerminalView) -> (
    WriterView,
    TerminalView,
) {
    if w.passthrough {
        (empty_writer(), v)
    } else {
        let n = w.buffer.len();
        let fits_on_line = n < 58 - v.cursor_x;
        let fits_on_next_line = n < 58;
        let v1 = if !fits_on_line && fits_on_next_line {
            advanced_cursor(c, v)
        } else {
            v
        };
        (empty_writer(), dumped(c, v1, w.buffer))
    }
}

/// Adds a character to the current word. A word longer than 60 characters is written straight
/// through.
pub open spec fn pushed(c: TermConfig, w: WriterView, v: TerminalView, ch: u32) -> (
    WriterView,
    TerminalView,
) {
    if w.passthrough {
        (w, wrote_char(c, v, ch))
    } else if w.buffer.len() == 60 {
        (WriterView { passthrough: true, ..w }, wrote_char(c, dumped(c, v, w.buffer), ch))
    } else {
        (WriterView { buffer: w.buffer.push(buffer_code(ch)), ..w }, v)
    }
}

/// Writes spaces until the cursor is no longer at a multiple of eight columns.
pub open spec fn tab_fill(c: TermConfig, v: TerminalView) -> TerminalView {
    if v.cursor_x % 8 != 0 {
        v
    } else {
        let v1 = wrote_char(c, v, 32);
        if v1.cursor_x % 8 != 0 {
            v1
        } else {
            wrote_char(c, v1, 32)
        }
    }
}

/// Handles one character of text written through a terminal writer.
pub open spec fn writer_char(c: TermConfig, w: WriterView, v: TerminalView, ch: u32) -> (
    WriterView,
    TerminalView,
) {
    if ch == 32 {
        let f = flushed(c, w, v);
        (
            f.0,
            if f.1.cursor_x != 0 {
                wrote_char(c, f.1, 32)
            } else {
                f.1
            },
        )
    } else if ch == 9 {
        let f = flushed(c, w, v);
        let v1 = f.1;
        let v2 = if !v1.cursor_hw && v1.cursor_x % 2 != 0 {
            TerminalView {
                cursor_hw: false,
                ..wrote_char(c, TerminalView { cursor_hw: true, ..v1 }, 32)
            }
        } else {
            v1
        };
        (f.0, tab_fill(c, v2))
    } else if ch == 10 {
        let f = flushed(c, w, v);
        (f.0, advanced_cursor(c, f.1))
    } else {
        pushed(c, w, v, ch)
    }
}

/// Feeds a sequence of characters to a terminal writer.
pub open spec fn fed(c: TermConfig, w: WriterView, v: TerminalView, s: Seq<char>) -> (
    WriterView,
    TerminalView,
)
    decreases s.len(),
{
    if s.len() == 0 {
        (w, v)
    } else {
        let r = writer_char(c, w, v, s[0] as u32);
        fed(c, r.0, r.1, s.drop_first())
    }
}

/// The state after writing a string through a terminal writer and flushing it.
pub open spec fn wrote_str(c: TermConfig, v: TerminalView, s: Seq<char>) -> TerminalView {
    let r = fed(c, empty_writer(), v, s);
    flushed(c, r.0, r.1).1
}

/// Whether a writer state is consistent.
pub open spec fn writer_inv(w: WriterView) -> bool {
    w.buffer.len() <= 60
}

/// Flushing keeps the terminal consistent.
pub proof fn lemma_flushed(c: TermConfig, w: WriterView, v: TerminalView)
    requires
        term_inv(c, v),
        writer_inv(w),
    ensures
        term_inv(c, flushed(c, w, v).1),
        writer_inv(flushed(c, w, v).0),
        flushed(c, w, v).1.cursor_hw == v.cursor_hw,
{
    if !w.passthrough {
        let n = w.buffer.len();
        let v1 = if !(n < 58 - v.cursor_x) && n < 58 {
            advanced_cursor(c, v)
        } else {
            v
        };
        lemma_dumped(c, v1, w.buffer);
    }
}

/// Filling to a tab stop takes at most two spaces.
pub proof fn lemma_tab_fill(c: TermConfig, v: TerminalView)
    requires
        term_inv(c, v),
    ensures
        term_inv(c, tab_fill(c, v)),
        tab_fill(c, v).cursor_x % 8 != 0,
        tab_fill(c, v).cursor_hw == v.cursor_hw,
{
    if v.cursor_x % 8 == 0 {
        lemma_wrote_char(c, v, 32);
        let v1 = wrote_char(c, v, 32);
        if v1.cursor_x % 8 == 0 {
            lemma_wrote_char(c, v1, 32);
        }
    }
}

/// Handling a character keeps the terminal and the writer consistent.
pub proof fn lemma_writer_char(c: TermConfig, w: WriterView, v: TerminalView, ch: u32)
    requires
        term_inv(c, v),
        writer_inv(w),
    ensures
        term_inv(c, writer_char(c, w, v, ch).1),
        writer_inv(writer_char(c, w, v, ch).0),
{
    lemma_flushed(c, w, v);
    let f = flushed(c, w, v);
    if ch == 32 {
        if f.1.cursor_x != 0 {
            lemma_wrote_char(c, f.1, 32);
        }
    } else if ch == 9 {
        let v1 = f.1;
        if !v1.cursor_hw && v1.cursor_x % 2 != 0 {
            lemma_wrote_char(c, TerminalView { cursor_hw: true, ..v1 }, 32);
        }
        let v2 = if !v1.cursor_hw && v1.cursor_x % 2 != 0 {
            TerminalView {
                cursor_hw: false,
                ..wrote_char(c, TerminalView { cursor_hw: true, ..v1 }, 32)
            }
        } else {
            v1
        };
        lemma_tab_fill(c, v2);
    } else if ch == 10 {
    } else {
        if w.passthrough {
            lemma_wrote_char(c, v, ch);
        } else if w.buffer.len() == 60 {
            lemma_dumped(c, v, w.buffer);
            lemma_wrote_char(c, dumped(c, v, w.buffer), ch);
        }
    }
}

/// Feeding characters keeps the terminal and the writer consistent.
pub proof fn lemma_fed(c: TermConfig, w: WriterView, v: TerminalView, s: Seq<char>)
    requires
        term_inv(c, v),
        writer_inv(w),
    ensures
        term_inv(c, fed(c, w, v, s).1),
        writer_inv(fed(c, w, v, s).0),
    decreases s.len(),
{
    if s.len() > 0 {
        lemma_writer_char(c, w, v, s[0] as u32);
        let r = writer_char(c, w, v, s[0] as u32);
        lemma_fed(c, r.0, r.1, s.drop_first());
    }
}


/// The pixel bit tested for a plane: bit `3 - plane` of the palette index.
proof fn lemma_mask_bit(j: usize, i: usize)
    requires
        i < 4,
    ensures
        ((j & (1usize << (3 - i))) != 0) == plane_bit_set(j as int % 16, (j as int % 64) / 16)
            || (j as int % 64) / 16 != i,
{
    lemma_nibble_bits(j);
}

/// The bits of the low nibble of an index.
proof fn lemma_nibble_bits(j: usize)
    by (bit_vector)
    ensures
        ((j & (1usize << 3usize)) != 0) == (((j % 16) / 8) % 2 == 1),
        ((j & (1usize << 2usize)) != 0) == (((j % 16) / 4) % 2 == 1),
        ((j & (1usize << 1usize)) != 0) == (((j % 16) / 2) % 2 == 1),
        ((j & (1usize << 0usize)) != 0) == ((j % 16) % 2 == 1),
{
}

/// The palette entry `j` of terminal color `id`: the foreground where the entry's plane bit is
/// set, the background elsewhere.
fn palette_entry(j: usize, id: usize, bg: u16, fg: u16) -> (c: u16)
    requires
        id < 4,
        id * 64 <= j < id * 64 + 64,
    ensures
        c == if plane_bit_set(j as int % 16, (j - id * 64) / 16) {
            fg
        } else {
            bg
        },
{
    let i = (j - id * 64) / 16;
    proof {
        assert(j as int % 64 == i as int * 16 + (j as int % 16));
        lemma_mask_bit(j, i);
    }
    let mask: usize = 1usize << (3 - i);
    if j & mask != 0 {
        fg
    } else {
        bg
    }
}

/// The internal state of an active terminal.
pub struct ActiveTerminalState {
    cursor_x: u8,
    cursor_y: u8,
    cursor_hw: bool,
    color: u8,
    line_advance: u8,
    v_offset: i16,
    force_blank: bool,
    maps: Vec<u16>,
    palette: Vec<u16>,
    colors: Vec<(u16, u16)>,
    font: FontTables,
    space_ch: [u16; 4],
    half_bg_ch: [u16; 4],
    full_bg_ch: [u16; 4],
    dma_channel: Option<DmaChannelId>,
}

impl View for ActiveTerminalState {
    type V = TerminalView;

    closed spec fn view(&self) -> TerminalView {
        TerminalView {
            cursor_x: self.cursor_x,
            cursor_y: self.cursor_y,
            cursor_hw: self.cursor_hw,
            color: self.color,
            line_advance: self.line_advance,
            v_offset: self.v_offset,
            force_blank: self.force_blank,
            maps: self.maps@,
            palette: self.palette@,
            colors: self.colors@,
        }
    }
}

impl ActiveTerminalState {
    /// The register writes that show this terminal: the four layers' control and offset
    /// registers, and the display control register derived from its current value `dispcnt`.
    fn display_writes(&self, dispcnt: DispCnt) -> (r: Vec<IoWrite>)
        ensures
            r@ == display_seq(self@, dispcnt@),
    {
        let mut r: Vec<IoWrite> = Vec::new();
        for i in 0..4
            invariant
                r@.len() == i,
                forall|k: int| 0 <= k < i ==> r@[k] == layer_cnt_write(k),
        {
            let cnt = BgCnt::new().with_tile_map_base(28 + i);
            assert(set_bits(0, 8, 5, (28 + i) as u32) == ((28 + i) * 256) as u32) by {
                let x = (28 + i) as u32;
                assert(set_bits(0, 8, 5, x) == x * 256) by (bit_vector)
                    requires
                        x < 32,
                ;
            }
            r.push(IoWrite::U16 { addr: BG_CNT + 2 * i, value: cnt.bits() });
        }
        for i in 0..4
            invariant
                r@.len() == 4 + i,
                forall|k: int| 0 <= k < 4 ==> r@[k] == layer_cnt_write(k),
                forall|k: int| 0 <= k < i ==> r@[4 + k] == layer_hofs_write(k),
        {
            let off: u16 = if i % 2 == 0 {
                0xFFFC
            } else {
                0xFFF8
            };
            r.push(IoWrite::U16 { addr: BG_HOFS + 4 * i, value: off });
        }
        let v = self.v_offset;
        let neg: u16 = if v <= 0 {
            (0i32 - v as i32) as u16
        } else {
            (0x10000 - v as i32) as u16
        };
        for i in 0..4
            invariant
                r@.len() == 8 + i,
                neg == ((0x10000 - self@.v_offset) % 0x10000) as u16,
                forall|k: int| 0 <= k < 4 ==> r@[k] == layer_cnt_write(k),
                forall|k: int| 0 <= k < 4 ==> r@[4 + k] == layer_hofs_write(k),
                forall|k: int|
                    0 <= k < i ==> r@[8 + k] == layer_vofs_write(k, self@.v_offset),
        {
            r.push(IoWrite::U16 { addr: BG_VOFS + 4 * i, value: neg });
        }
        let d = dispcnt.with_mode(DispMode::Mode0).with_forced_blank(self.force_blank).with_display_bg0(
            true,
        ).with_display_bg1(true).with_display_bg2(true).with_display_bg3(true);
        r.push(IoWrite::U16 { addr: DISPCNT, value: d.bits() });
        assert(r@ =~= display_seq(self@, dispcnt@));
        r
    }

    /// The palette writes, then the display writes, then the tile map writes.
    fn show_writes(&self, dispcnt: DispCnt) -> (r: Vec<IoWrite>)
        requires
            self@.maps.len() == MAP_TILES,
            self@.palette.len() == PALETTE_SIZE,
        ensures
            r@ == show_seq(self@, dispcnt@),
    {
        let mut r: Vec<IoWrite> = Vec::new();
        for i in 0..PALETTE_SIZE
            invariant
                self@.palette.len() == PALETTE_SIZE,
                r@ =~= palette_writes(self@.palette).take(i as int),
        {
            r.push(IoWrite::U16 { addr: BG_PALETTE_RAM + 2 * i, value: self.palette[i] });
            assert(r@ =~= palette_writes(self@.palette).take(i + 1));
        }
        assert(palette_writes(self@.palette).take(PALETTE_SIZE as int) =~= palette_writes(self@.palette));
        let mut d = self.display_writes(dispcnt);
        r.append(&mut d);
        let ghost head = r@;
        for i in 0..MAP_TILES
            invariant
                self@.maps.len() == MAP_TILES,
                r@ =~= head + map_writes(self@.maps).take(i as int),
        {
            r.push(IoWrite::U16 { addr: MAP_BASE + 2 * i, value: self.maps[i] });
            assert(r@ =~= head + map_writes(self@.maps).take(i + 1));
        }
        assert(map_writes(self@.maps).take(MAP_TILES as int) =~= map_writes(self@.maps));
        r
    }

    /// The fixed configuration of the terminal.
    pub closed spec fn cfg(&self) -> TermConfig {
        TermConfig {
            font: self.font@,
            space: self.space_ch@,
            half_bg: self.half_bg_ch@,
            full_bg: self.full_bg_ch@,
        }
    }

    /// The DMA channel used to clear the screen, if any.
    pub closed spec fn dma(&self) -> Option<DmaChannelId> {
        self.dma_channel
    }

    /// Whether the state is consistent.
    pub open spec fn inv(&self) -> bool {
        term_inv(self.cfg(), self@)
    }

    /// The tile data and the half-width flag for a code point in a terminal color.
    fn data_for_ch(&self, ch: u32, color: u8) -> (r: (u16, bool))
        requires
            self.inv(),
            color < 4,
        ensures
            r == data_for(self.cfg(), ch, color),
    {
        glyph_data(&self.font, ch, color)
    }

    /// Sets tile `(x, y)` of map `i`.
    fn set_tile(&mut self, i: usize, x: usize, y: usize, t: u16)
        requires
            old(self).inv(),
            i < 4,
            x < 32,
            y < 32,
        ensures
            final(self)@ == put(old(self)@, i as int, x as int, y as int, t),
            final(self).cfg() == old(self).cfg(),
            final(self).dma() == old(self).dma(),
            final(self).inv(),
    {
        self.maps.set(i * 1024 + y * 32 + x, t);
    }

    /// The map row that screen row `y` is drawn on.
    fn apply_advance(&self, y: usize) -> (r: usize)
        requires
            self.inv(),
            y < 32,
        ensures
            r == row(self@, y as int),
            r < 32,
    {
        (y + self.line_advance as usize) % 32
    }

    /// Draws a full-width tile at cell `(x, y)`.
    fn set_char_full(&mut self, x: usize, y: usize, tile: u16, color: usize)
        requires
            old(self).inv(),
            x * 2 < 58,
            y < 19,
            color < 4,
        ensures
            final(self)@ == put_char_full(
                old(self).cfg(),
                old(self)@,
                x as int,
                y as int,
                tile,
                color as int,
            ),
            final(self).cfg() == old(self).cfg(),
            final(self).dma() == old(self).dma(),
            final(self).inv(),
    {
        let y = self.apply_advance(y);
        let space = self.space_ch[color];
        let full_bg = self.full_bg_ch[color];
        self.set_tile(0, x, y, tile);
        self.set_tile(1, x, y, space);
        self.set_tile(2, x, y, full_bg);
    }

    /// Draws a character at half-width column `x` of row `y`.
    fn set_char_half(&mut self, x: usize, y: usize, tile: u16, is_half: bool, color: usize)
        requires
            old(self).inv(),
            x < 58,
            y < 19,
            color < 4,
        ensures
            final(self)@ == put_char_half(
                old(self).cfg(),
                old(self)@,
                x as int,
                y as int,
                tile,
                is_half,
                color as int,
            ),
            final(self).cfg() == old(self).cfg(),
            final(self).dma() == old(self).dma(),
            final(self).inv(),
    {
        let y = self.apply_advance(y);
        let plane = x % 2;
        let tile_x = x / 2;
        let space = self.space_ch[color];
        let half_bg = self.half_bg_ch[color];
        let full_bg = self.full_bg_ch[color];
        if is_half && plane == 0 {
            self.set_tile(0, tile_x, y, tile);
            self.set_tile(2, tile_x, y, half_bg);
        } else if is_half {
            self.set_tile(1, tile_x, y, tile);
            self.set_tile(3, tile_x, y, half_bg);
        } else if plane == 0 {
            self.set_tile(0, tile_x, y, tile);
            self.set_tile(1, tile_x, y, space);
            self.set_tile(2, tile_x, y, full_bg);
        } else {
            self.set_tile(0, tile_x + 1, y, space);
            self.set_tile(1, tile_x, y, tile);
            self.set_tile(2, tile_x + 1, y, space);
            self.set_tile(3, tile_x, y, full_bg);
        }
    }

    /// Blanks the visible tiles of screen row `y`.
    fn clear_line(&mut self, y: usize)
        requires
            old(self).inv(),
            y < 19,
        ensures
            final(self)@ == cleared_line(old(self).cfg(), old(self)@, y as int),
            final(self).cfg() == old(self).cfg(),
            final(self).dma() == old(self).dma(),
            final(self).inv(),
    {
        let r = self.apply_advance(y);
        let space = self.space_ch[0];
        let ghost v0 = self@;
        let ghost c = self.cfg();
        for i in 0..4
            invariant
                self.inv(),
                self.cfg() == c,
                self.dma() == old(self).dma(),
                r == row(v0, y as int),
                r < 32,
                space == c.space[0],
                self@ == (TerminalView { maps: self@.maps, ..v0 }),
                forall|k: int|
                    0 <= k < MAP_TILES ==> #[trigger] self@.maps[k] == (if k / 1024 < i && (k
                        % 1024) / 32 == r && k % 32 < 29 {
                        c.space[0]
                    } else {
                        v0.maps[k]
                    }),
        {
            for x in 0..29
                invariant
                    self.inv(),
                    self.cfg() == c,
                    self.dma() == old(self).dma(),
                    i < 4,
                    r < 32,
                    space == c.space[0],
                    self@ == (TerminalView { maps: self@.maps, ..v0 }),
                    forall|k: int|
                        0 <= k < MAP_TILES ==> #[trigger] self@.maps[k] == (if (k / 1024 < i
                            || (k / 1024 == i && k % 32 < x)) && (k % 1024) / 32 == r && k % 32
                            < 29 {
                            c.space[0]
                        } else {
                            v0.maps[k]
                        }),
            {
                self.set_tile(i, x, r, space);
            }
        }
        assert(self@.maps =~= cleared_line(c, v0, y as int).maps);
    }

    /// Scrolls the screen by one row.
    fn advance_screen(&mut self)
        requires
            old(self).inv(),
        ensures
            final(self)@ == advanced_screen(old(self).cfg(), old(self)@),
            final(self).cfg() == old(self).cfg(),
            final(self).dma() == old(self).dma(),
            final(self).inv(),
    {
        self.clear_line(0);
        self.line_advance = self.line_advance + 1;
        if self.line_advance == 32 {
            self.line_advance = 0;
        }
        self.v_offset = 4 - self.line_advance as i16 * 8;
    }

    /// Moves the cursor to the start of the next line, scrolling at the bottom of the screen.
    fn advance_cursor(&mut self)
        requires
            term_inv(old(self).cfg(), TerminalView { cursor_x: 0, ..old(self)@ }),
        ensures
            final(self)@ == advanced_cursor(old(self).cfg(), old(self)@),
            final(self).cfg() == old(self).cfg(),
            final(self).dma() == old(self).dma(),
            final(self).inv(),
    {
        self.cursor_x = 0;
        if self.cursor_y == 18 {
            self.advance_screen();
        } else {
            self.cursor_y = self.cursor_y + 1;
        }
    }

    /// Writes a code point at the cursor and advances the cursor.
    fn write_char(&mut self, ch: u32)
        requires
            old(self).inv(),
        ensures
            final(self)@ == wrote_char(old(self).cfg(), old(self)@, ch),
            final(self).cfg() == old(self).cfg(),
            final(self).dma() == old(self).dma(),
            final(self).inv(),
    {
        proof {
            lemma_wrote_char(self.cfg(), self@, ch);
        }
        let ch = if self.cursor_hw && ch < 128 {
            ch + 0xF400
        } else {
            ch
        };
        let x = self.cursor_x as usize;
        let y = self.cursor_y as usize;
        let color = self.color;
        let data = self.data_for_ch(ch, color);
        let wrote_hw = if self.cursor_hw || self.cursor_x % 2 == 1 {
            self.set_char_half(x, y, data.0, data.1, color as usize);
            self.cursor_hw && data.1
        } else {
            self.set_char_full(x / 2, y, data.0, color as usize);
            false
        };
        self.cursor_x = self.cursor_x + 2 - if wrote_hw {
            1
        } else {
            0
        };
        if self.cursor_x >= 57 + if self.cursor_hw {
            1
        } else {
            0
        } {
            self.advance_cursor();
        }
    }

    /// Clears the whole terminal and moves the cursor home.
    fn clear(&mut self)
        requires
            old(self).inv(),
        ensures
            final(self)@ == cleared_all(old(self).cfg(), old(self)@),
            final(self).cfg() == old(self).cfg(),
            final(self).dma() == old(self).dma(),
            final(self).inv(),
    {
        self.cursor_x = 0;
        self.cursor_y = 0;
        self.color = 0;
        self.line_advance = 0;
        let tile = self.space_ch[0];
        let ghost v1 = self@;
        let mut k: usize = 0;
        while k < MAP_TILES
            invariant
                self.inv(),
                self.cfg() == old(self).cfg(),
                self.dma() == old(self).dma(),
                tile == self.cfg().space[0],
                k <= MAP_TILES,
                self@ == (TerminalView { maps: self@.maps, ..v1 }),
                forall|j: int| 0 <= j < k ==> #[trigger] self@.maps[j] == tile,
            decreases MAP_TILES - k,
        {
            self.maps.set(k, tile);
            k += 1;
        }
        assert(self@.maps =~= cleared_all(old(self).cfg(), old(self)@).maps);
    }

    /// Sets the sixteen-color palettes of terminal color `id`.
    fn update_palette(&mut self, id: usize, bg: u16, fg: u16)
        requires
            old(self).inv(),
            id < 4,
        ensures
            final(self)@ == (TerminalView {
                palette: palette_with_color(old(self)@.palette, id as int, bg, fg),
                ..old(self)@
            }),
            final(self).cfg() == old(self).cfg(),
            final(self).dma() == old(self).dma(),
            final(self).inv(),
    {
        let ghost v0 = self@;
        let mut start = id * 0x40;
        for i in 0..4
            invariant
                self.inv(),
                self.cfg() == old(self).cfg(),
                self.dma() == old(self).dma(),
                id < 4,
                start == id * 64 + i * 16,
                self@ == (TerminalView { palette: self@.palette, ..v0 }),
                v0.palette.len() == PALETTE_SIZE,
                forall|j: int|
                    0 <= j < PALETTE_SIZE ==> #[trigger] self@.palette[j] == if id * 64 <= j < id
                        * 64 + i * 16 {
                        palette_with_color(v0.palette, id as int, bg, fg)[j]
                    } else {
                        v0.palette[j]
                    },
        {
            let mask: usize = 1usize << (3 - i);
            for j in start..start + 16
                invariant
                    self.inv(),
                    self.cfg() == old(self).cfg(),
                    self.dma() == old(self).dma(),
                    id < 4,
                    i < 4,
                    start == id * 64 + i * 16,
                    mask == 1usize << (3 - i),
                    self@ == (TerminalView { palette: self@.palette, ..v0 }),
                    v0.palette.len() == PALETTE_SIZE,
                    forall|t: int|
                        0 <= t < PALETTE_SIZE ==> #[trigger] self@.palette[t] == if id * 64 <= t
                            < j {
                            palette_with_color(v0.palette, id as int, bg, fg)[t]
                        } else {
                            v0.palette[t]
                        },
            {
                proof {
                    assert(j as int - id as int * 64 == i as int * 16 + (j as int - start as int));
                    assert((j as int - id as int * 64) / 16 == i as int);
                    assert(j as int % 64 == i as int * 16 + (j as int - start as int));
                    assert(j as int % 16 == j as int - start as int);
                    lemma_mask_bit(j, i);
                }
                let color = if j & mask != 0 {
                    fg
                } else {
                    bg
                };
                assert(color == palette_with_color(v0.palette, id as int, bg, fg)[j as int]);
                self.palette.set(j, color);
            }
            start += 16;
        }
        assert(self@.palette =~= palette_with_color(v0.palette, id as int, bg, fg));
    }
}

/// A step of dumping a buffer: the first buffered code is written first.
proof fn lemma_dumped_step(c: TermConfig, v: TerminalView, buf: Seq<u16>, i: int)
    requires
        0 <= i < buf.len(),
    ensures
        dumped(c, v, buf.subrange(i, buf.len() as int)) == dumped(
            c,
            wrote_char(c, v, buf[i] as u32),
            buf.subrange(i + 1, buf.len() as int),
        ),
{
    let s = buf.subrange(i, buf.len() as int);
    assert(s[0] == buf[i]);
    assert(s.drop_first() =~= buf.subrange(i + 1, buf.len() as int));
}

/// A step of feeding a string: the first character is handled first.
proof fn lemma_fed_step(c: TermConfig, w: WriterView, v: TerminalView, s: Seq<char>, i: int)
    requires
        0 <= i < s.len(),
    ensures
        fed(c, w, v, s.subrange(i, s.len() as int)) == fed(
            c,
            writer_char(c, w, v, s[i] as u32).0,
            writer_char(c, w, v, s[i] as u32).1,
            s.subrange(i + 1, s.len() as int),
        ),
{
    let t = s.subrange(i, s.len() as int);
    assert(t[0] == s[i]);
    assert(t.drop_first() =~= s.subrange(i + 1, s.len() as int));
}


/// The write of the control register of terminal layer `i`: it shows tile map `28 + i`.
pub open spec fn layer_cnt_write(i: int) -> IoWrite {
    IoWrite::U16 { addr: (BG_CNT + 2 * i) as usize, value: ((28 + i) * 256) as u16 }
}

/// The write of the horizontal offset register of terminal layer `i`: layers 1 and 3 are
/// shifted by half a tile against layers 0 and 2.
pub open spec fn layer_hofs_write(i: int) -> IoWrite {
    IoWrite::U16 {
        addr: (BG_HOFS + 4 * i) as usize,
        value: (if i % 2 == 0 {
            0x10000 - 4
        } else {
            0x10000 - 8
        }) as u16,
    }
}

/// The write of the vertical offset register of terminal layer `i`.
pub open spec fn layer_vofs_write(i: int, v_offset: i16) -> IoWrite {
    IoWrite::U16 { addr: (BG_VOFS + 4 * i) as usize, value: ((0x10000 - v_offset) % 0x10000) as u16 }
}

/// The display control value for the terminal: mode 0 with all four layers shown.
pub open spec fn terminal_dispcnt(d: u32, force_blank: bool) -> u32 {
    set_bits(
        set_bits(
            set_bits(
                set_bits(
                    set_bits(
                        set_bits(d, 0, 3, 0),
                        7,
                        1,
                        if force_blank {
                            1
                        } else {
                            0
                        },
                    ),
                    8,
                    1,
                    1,
                ),
                9,
                1,
                1,
            ),
            10,
            1,
            1,
        ),
        11,
        1,
        1,
    )
}

/// The write of the display control register for the terminal.
pub open spec fn dispcnt_write(d: u32, force_blank: bool) -> IoWrite {
    IoWrite::U16 { addr: DISPCNT, value: terminal_dispcnt(d, force_blank) as u16 }
}

/// The address of the first of the terminal's tile maps: screen block 28 of video memory.
pub const MAP_BASE: usize = 0x600E000;

/// The writes of the terminal's layer registers and of the display control register derived
/// from its value `d`: the four control registers, the four horizontal offsets, the four
/// vertical offsets, then the display control.
pub open spec fn display_seq(v: TerminalView, d: u32) -> Seq<IoWrite> {
    Seq::new(
        13,
        |i: int|
            if i < 4 {
                layer_cnt_write(i)
            } else if i < 8 {
                layer_hofs_write(i - 4)
            } else if i < 12 {
                layer_vofs_write(i - 8, v.v_offset)
            } else {
                dispcnt_write(d, v.force_blank)
            },
    )
}

/// The writes of a background palette to palette memory, entry by entry.
pub open spec fn palette_writes(p: Seq<u16>) -> Seq<IoWrite> {
    Seq::new(p.len(), |i: int| IoWrite::U16 { addr: (BG_PALETTE_RAM + 2 * i) as usize, value: p[i] })
}

/// The writes of the terminal's four tile maps to screen blocks 28 to 31, entry by entry.
pub open spec fn map_writes(m: Seq<u16>) -> Seq<IoWrite> {
    Seq::new(m.len(), |i: int| IoWrite::U16 { addr: (MAP_BASE + 2 * i) as usize, value: m[i] })
}

/// The writes that show a terminal: its palette, its layer and display registers, then its
/// tile maps.
pub open spec fn show_seq(v: TerminalView, d: u32) -> Seq<IoWrite> {
    palette_writes(v.palette) + display_seq(v, d) + map_writes(v.maps)
}

/// A lock on an active terminal, allowing terminal writes.
pub struct ActiveTerminalAccess {
    term: ActiveTerminalState,
    lock: Option<RawMutexGuard>,
}

impl ActiveTerminalAccess {
    /// The state of the terminal.
    pub closed spec fn view(&self) -> TerminalView {
        self.term@
    }

    /// The fixed configuration of the terminal.
    pub closed spec fn cfg(&self) -> TermConfig {
        self.term.cfg()
    }

    /// The DMA channel used to clear the screen, if any.
    pub closed spec fn dma(&self) -> Option<DmaChannelId> {
        self.term.dma()
    }

    /// Whether the terminal state is consistent.
    pub open spec fn inv(&self) -> bool {
        term_inv(self.cfg(), self.view())
    }

    /// Whether the terminal holds the graphics lock.
    pub closed spec fn holds_lock(&self) -> bool {
        self.lock.is_some()
    }

    /// The position of the cursor: its half-width column and its row.
    pub fn cursor(&self) -> (r: (u8, u8))
        ensures
            r == (self.view().cursor_x, self.view().cursor_y),
    {
        (self.term.cursor_x, self.term.cursor_y)
    }

    /// The tile map entry at tile `(x, y)` of map `i`.
    pub fn tile(&self, i: usize, x: usize, y: usize) -> (r: u16)
        requires
            self.inv(),
            i < 4,
            x < 32,
            y < 32,
        ensures
            r == self.view().maps[map_index(i as int, x as int, y as int)],
    {
        self.term.maps[i * 1024 + y * 32 + x]
    }

    /// The tile maps, map after map, 1024 entries each.
    pub fn tiles(&self) -> (r: &[u16])
        ensures
            r@ == self.view().maps,
    {
        self.term.maps.as_slice()
    }

    /// The background palette.
    pub fn palette(&self) -> (r: &[u16])
        ensures
            r@ == self.view().palette,
    {
        self.term.palette.as_slice()
    }

    /// The DMA channel used to clear the screen, if any.
    pub fn dma_channel(&self) -> (r: Option<DmaChannelId>)
        ensures
            r == self.dma(),
    {
        self.term.dma_channel
    }

    /// The register writes that show this terminal: the four layers' control and offset
    /// registers, and the display control register derived from its current value `dispcnt`.
    pub fn display_writes(&self, dispcnt: DispCnt) -> (r: Vec<IoWrite>)
        ensures
            r@ == display_seq(self.view(), dispcnt@),
    {
        self.term.display_writes(dispcnt)
    }

    /// The writes that show this terminal: its palette, then its layer and display control
    /// registers as `display_writes` gives them, then its four tile maps.
    pub fn show_writes(&self, dispcnt: DispCnt) -> (r: Vec<IoWrite>)
        requires
            self.inv(),
        ensures
            r@ == show_seq(self.view(), dispcnt@),
    {
        self.term.show_writes(dispcnt)
    }

    /// Sets whether the screen is blanked.
    pub fn set_force_blank(&mut self, force_blank: bool)
        requires
            old(self).inv(),
        ensures
            final(self).view() == (TerminalView { force_blank, ..old(self).view() }),
            final(self).cfg() == old(self).cfg(),
            final(self).holds_lock() == old(self).holds_lock(),
            final(self).inv(),
    {
        self.term.force_blank = force_blank;
    }

    /// Sets the background and foreground colors of terminal color `id` (0 to 3).
    pub fn set_color(&mut self, id: usize, background: u16, foreground: u16)
        requires
            old(self).inv(),
            id < 4,
        ensures
            final(self).view() == (TerminalView {
                colors: old(self).view().colors.update(id as int, (background, foreground)),
                palette: palette_with_color(old(self).view().palette, id as int, background, foreground),
                ..old(self).view()
            }),
            final(self).cfg() == old(self).cfg(),
            final(self).holds_lock() == old(self).holds_lock(),
            final(self).inv(),
    {
        self.term.colors.set(id, (background, foreground));
        self.term.update_palette(id, background, foreground);
    }

    /// Clears the whole terminal and moves the cursor home.
    pub fn clear(&mut self)
        requires
            old(self).inv(),
        ensures
            final(self).view() == cleared_all(old(self).cfg(), old(self).view()),
            final(self).cfg() == old(self).cfg(),
            final(self).holds_lock() == old(self).holds_lock(),
            final(self).inv(),
    {
        self.term.clear();
    }

    /// Blanks screen row `y` (0 to 18).
    pub fn clear_line(&mut self, y: usize)
        requires
            old(self).inv(),
            y < 19,
        ensures
            final(self).view() == cleared_line(old(self).cfg(), old(self).view(), y as int),
            final(self).cfg() == old(self).cfg(),
            final(self).holds_lock() == old(self).holds_lock(),
            final(self).inv(),
    {
        self.term.clear_line(y);
    }

    /// Draws a full-width character at full-width column `x` (0 to 28) of row `y` (0 to 18)
    /// in terminal color `color`.
    pub fn set_char_full(&mut self, x: usize, y: usize, ch: char, color: usize)
        requires
            old(self).inv(),
            x * 2 < 58,
            y < 19,
            color < 4,
        ensures
            final(self).view() == put_char_full(
                old(self).cfg(),
                old(self).view(),
                x as int,
                y as int,
                data_for(old(self).cfg(), ch as u32, color as u8).0,
                color as int,
            ),
            final(self).cfg() == old(self).cfg(),
            final(self).holds_lock() == old(self).holds_lock(),
            final(self).inv(),
    {
        let data = self.term.data_for_ch(ch as u32, color as u8);
        self.term.set_char_full(x, y, data.0, color);
    }

    /// Draws a character in half-width mode at half-width column `x` (0 to 57) of row `y`
    /// (0 to 18) in terminal color `color`.
    pub fn set_char_half(&mut self, x: usize, y: usize, ch: char, color: usize)
        requires
            old(self).inv(),
            x < 58,
            y < 19,
            color < 4,
        ensures
            final(self).view() == put_char_half(
                old(self).cfg(),
                old(self).view(),
                x as int,
                y as int,
                data_for(old(self).cfg(), process_hw(ch as u32), color as u8).0,
                data_for(old(self).cfg(), process_hw(ch as u32), color as u8).1,
                color as int,
            ),
            final(self).cfg() == old(self).cfg(),
            final(self).holds_lock() == old(self).holds_lock(),
            final(self).inv(),
    {
        let c = ch as u32;
        let c = if c < 128 {
            c + 0xF400
        } else {
            c
        };
        let data = self.term.data_for_ch(c, color as u8);
        self.term.set_char_half(x, y, data.0, data.1, color);
    }

    /// Moves the cursor to half-width column `x` (0 to 57) of row `y` (0 to 18).
    pub fn set_cursor(&mut self, x: usize, y: usize)
        requires
            old(self).inv(),
            x < 58,
            y < 19,
        ensures
            final(self).view() == (TerminalView {
                cursor_x: x as u8,
                cursor_y: y as u8,
                ..old(self).view()
            }),
            final(self).cfg() == old(self).cfg(),
            final(self).holds_lock() == old(self).holds_lock(),
            final(self).inv(),
    {
        self.term.cursor_x = x as u8;
        self.term.cursor_y = y as u8;
    }

    /// Sets the terminal color (0 to 3) used for writing.
    pub fn set_active_color(&mut self, color: usize)
        requires
            old(self).inv(),
            color < 4,
        ensures
            final(self).view() == (TerminalView { color: color as u8, ..old(self).view() }),
            final(self).cfg() == old(self).cfg(),
            final(self).holds_lock() == old(self).holds_lock(),
            final(self).inv(),
    {
        self.term.color = color as u8;
    }

    /// Sets whether characters are written in half-width mode.
    pub fn set_half_width(&mut self, half_width: bool)
        requires
            old(self).inv(),
        ensures
            final(self).view() == (TerminalView { cursor_hw: half_width, ..old(self).view() }),
            final(self).cfg() == old(self).cfg(),
            final(self).holds_lock() == old(self).holds_lock(),
            final(self).inv(),
    {
        self.term.cursor_hw = half_width;
    }

    /// Moves the cursor to the start of the next line, scrolling at the bottom of the screen.
    pub fn new_line(&mut self)
        requires
            old(self).inv(),
        ensures
            final(self).view() == advanced_cursor(old(self).cfg(), old(self).view()),
            final(self).cfg() == old(self).cfg(),
            final(self).holds_lock() == old(self).holds_lock(),
            final(self).inv(),
    {
        self.term.advance_cursor();
    }

    /// Writes a character at the cursor and advances the cursor.
    pub fn write_char(&mut self, ch: char)
        requires
            old(self).inv(),
        ensures
            final(self).view() == wrote_char(old(self).cfg(), old(self).view(), ch as u32),
            final(self).cfg() == old(self).cfg(),
            final(self).holds_lock() == old(self).holds_lock(),
            final(self).inv(),
    {
        self.term.write_char(ch as u32);
    }

    /// Starts a writer that wraps words at the end of lines.
    pub fn write(&self) -> (r: ActiveTerminalWrite)
        ensures
            r.view() == empty_writer(),
            r.wf(),
    {
        ActiveTerminalWrite::new()
    }

    /// Writes a string, wrapping words at the end of lines.
    pub fn write_str(&mut self, s: &str)
        requires
            old(self).inv(),
        ensures
            final(self).view() == wrote_str(old(self).cfg(), old(self).view(), s@),
            final(self).cfg() == old(self).cfg(),
            final(self).holds_lock() == old(self).holds_lock(),
            final(self).inv(),
    {
        let mut w = self.write();
        w.write_str(self, s);
        w.finish(self);
    }

    /// Releases the lock on the terminal.
    pub fn unlock(self) -> (r: ActiveTerminal)
        ensures
            r.view() == self.view(),
            r.cfg() == self.cfg(),
            r.dma() == self.dma(),
            r.holds_lock() == self.holds_lock(),
    {
        ActiveTerminal { state: self.term, lock: self.lock }
    }
}

/// A writer that buffers each word so that words are not split across lines.
pub struct ActiveTerminalWrite {
    buffer: [u16; 60],
    buffer_idx: usize,
    passthrough_mode: bool,
}

impl ActiveTerminalWrite {
    /// The state of the writer.
    pub closed spec fn view(&self) -> WriterView {
        WriterView {
            buffer: self.buffer@.take(self.buffer_idx as int),
            passthrough: self.passthrough_mode,
        }
    }

    /// Whether the writer is consistent.
    pub closed spec fn wf(&self) -> bool {
        self.buffer_idx <= 60
    }

    /// A writer with nothing buffered.
    pub fn new() -> (r: Self)
        ensures
            r.view() == empty_writer(),
            r.wf(),
    {
        let r = ActiveTerminalWrite { buffer: [0; 60], buffer_idx: 0, passthrough_mode: false };
        assert(r.view().buffer =~= Seq::<u16>::empty());
        r
    }

    /// Writes out the buffered codes.
    fn dump_buffers(&self, access: &mut ActiveTerminalAccess)
        requires
            old(access).inv(),
            self.wf(),
        ensures
            final(access).view() == dumped(old(access).cfg(), old(access).view(), self.view().buffer),
            final(access).cfg() == old(access).cfg(),
            final(access).holds_lock() == old(access).holds_lock(),
            final(access).inv(),
    {
        let ghost c = access.cfg();
        let ghost buf = self.view().buffer;
        let ghost v0 = access.view();
        let n = self.buffer_idx;
        assert(buf.subrange(0, n as int) =~= buf);
        for i in 0..n
            invariant
                access.inv(),
                access.cfg() == c,
                access.holds_lock() == old(access).holds_lock(),
                n == self.buffer_idx,
                n <= 60,
                buf == self.view().buffer,
                buf.len() == n,
                dumped(c, access.view(), buf.subrange(i as int, n as int)) == dumped(c, v0, buf),
        {
            proof {
                lemma_dumped_step(c, access.view(), buf, i as int);
                assert(buf[i as int] == self.buffer[i as int]);
            }
            access.term.write_char(self.buffer[i] as u32);
        }
        proof {
            assert(buf.subrange(n as int, n as int) =~= Seq::<u16>::empty());
            assert(buf.subrange(0, n as int) =~= buf);
        }
    }

    /// Ends the current word and writes it out.
    fn flush_buffers(&mut self, access: &mut ActiveTerminalAccess)
        requires
            old(access).inv(),
            old(self).wf(),
        ensures
            (final(self).view(), final(access).view()) == flushed(
                old(access).cfg(),
                old(self).view(),
                old(access).view(),
            ),
            final(access).cfg() == old(access).cfg(),
            final(access).holds_lock() == old(access).holds_lock(),
            final(access).inv(),
            final(self).wf(),
    {
        if self.passthrough_mode {
            self.passthrough_mode = false;
        } else {
            let fits_on_line = self.buffer_idx < (58 - access.term.cursor_x as usize);
            let fits_on_next_line = self.buffer_idx < 58;
            if !fits_on_line && fits_on_next_line {
                access.new_line();
            }
            self.dump_buffers(access);
        }
        self.buffer_idx = 0;
        assert(self.view().buffer =~= Seq::<u16>::empty());
    }

    /// Adds a code point to the current word.
    fn push_char(&mut self, access: &mut ActiveTerminalAccess, ch: u32)
        requires
            old(access).inv(),
            old(self).wf(),
        ensures
            (final(self).view(), final(access).view()) == pushed(
                old(access).cfg(),
                old(self).view(),
                old(access).view(),
                ch,
            ),
            final(access).cfg() == old(access).cfg(),
            final(access).holds_lock() == old(access).holds_lock(),
            final(access).inv(),
            final(self).wf(),
    {
        if self.passthrough_mode {
            access.term.write_char(ch);
        } else if self.buffer_idx == 60 {
            self.passthrough_mode = true;
            self.dump_buffers(access);
            access.term.write_char(ch);
        } else {
            let glyph: u16 = if ch >= 0x10000 {
                0xF50F
            } else {
                ch as u16
            };
            let ghost old_buf = self.view().buffer;
            self.buffer.set(self.buffer_idx, glyph);
            self.buffer_idx = self.buffer_idx + 1;
            assert(self.view().buffer =~= old_buf.push(glyph));
        }
    }

    /// Handles one character of text.
    pub fn write_char(&mut self, access: &mut ActiveTerminalAccess, ch: char)
        requires
            old(access).inv(),
            old(self).wf(),
        ensures
            (final(self).view(), final(access).view()) == writer_char(
                old(access).cfg(),
                old(self).view(),
                old(access).view(),
                ch as u32,
            ),
            final(access).cfg() == old(access).cfg(),
            final(access).holds_lock() == old(access).holds_lock(),
            final(access).inv(),
            final(self).wf(),
    {
        let ghost c = access.cfg();
        let code = ch as u32;
        if code == 32 {
            self.flush_buffers(access);
            if access.term.cursor_x != 0 {
                access.term.write_char(32);
            }
        } else if code == 9 {
            self.flush_buffers(access);
            let ghost v1 = access.view();
            if !access.term.cursor_hw && access.term.cursor_x % 2 != 0 {
                access.term.cursor_hw = true;
                access.term.write_char(32);
                access.term.cursor_hw = false;
            }
            let ghost v2 = access.view();
            proof {
                lemma_tab_fill(c, v2);
            }
            let ghost mut k: int = 0;
            while access.term.cursor_x % 8 == 0
                invariant
                    access.inv(),
                    access.cfg() == c,
                    access.holds_lock() == old(access).holds_lock(),
                    term_inv(c, v2),
                    0 <= k <= 2,
                    k == 0 ==> access.view() == v2,
                    k >= 1 ==> v2.cursor_x % 8 == 0,
                    k == 1 ==> access.view() == wrote_char(c, v2, 32),
                    k == 2 ==> wrote_char(c, v2, 32).cursor_x % 8 == 0 && access.view()
                        == wrote_char(c, wrote_char(c, v2, 32), 32),
                decreases 2 - k,
            {
                proof {
                    if k == 2 {
                        assert(tab_fill(c, v2) == access.view());
                    }
                }
                access.term.write_char(32);
                proof {
                    k = k + 1;
                }
            }
            proof {
                if k == 0 {
                } else if k == 1 {
                } else {
                }
            }
        } else if code == 10 {
            self.flush_buffers(access);
            access.new_line();
        } else {
            self.push_char(access, code);
        }
    }

    /// Writes a string.
    pub fn write_str(&mut self, access: &mut ActiveTerminalAccess, s: &str)
        requires
            old(access).inv(),
            old(self).wf(),
        ensures
            (final(self).view(), final(access).view()) == fed(
                old(access).cfg(),
                old(self).view(),
                old(access).view(),
                s@,
            ),
            final(access).cfg() == old(access).cfg(),
            final(access).holds_lock() == old(access).holds_lock(),
            final(access).inv(),
            final(self).wf(),
    {
        let ghost c = access.cfg();
        let ghost w0 = self.view();
        let ghost v0 = access.view();
        broadcast use vstd::string::axiom_spec_iter;
        let ghost mut idx: int = 0;
        assert(s@.subrange(0, s@.len() as int) =~= s@);
        for ch in it: s.chars()
            invariant
                access.inv(),
                access.cfg() == c,
                access.holds_lock() == old(access).holds_lock(),
                self.wf(),
                it.seq() == s@,
                idx == it.index(),
                0 <= idx <= s@.len(),
                fed(c, self.view(), access.view(), s@.subrange(idx, s@.len() as int)) == fed(
                    c,
                    w0,
                    v0,
                    s@,
                ),
        {
            proof {
                lemma_fed_step(c, self.view(), access.view(), s@, idx);
            }
            self.write_char(access, ch);
            proof {
                idx = idx + 1;
            }
        }
        proof {
            assert(s@.subrange(s@.len() as int, s@.len() as int) =~= Seq::<char>::empty());
            assert(s@.subrange(0, s@.len() as int) =~= s@);
        }
    }

    /// Ends the last word and writes it out.
    pub fn finish(self, access: &mut ActiveTerminalAccess)
        requires
            old(access).inv(),
            self.wf(),
        ensures
            final(access).view() == flushed(old(access).cfg(), self.view(), old(access).view()).1,
            final(access).cfg() == old(access).cfg(),
            final(access).holds_lock() == old(access).holds_lock(),
            final(access).inv(),
    {
        let mut w = self;
        w.flush_buffers(access);
    }
}

/// An active terminal display mode.
pub struct ActiveTerminal {
    state: ActiveTerminalState,
    lock: Option<RawMutexGuard>,
}

impl ActiveTerminal {
    /// The state of the terminal.
    pub closed spec fn view(&self) -> TerminalView {
        self.state@
    }

    /// The fixed configuration of the terminal.
    pub closed spec fn cfg(&self) -> TermConfig {
        self.state.cfg()
    }

    /// The DMA channel used to clear the screen, if any.
    pub closed spec fn dma(&self) -> Option<DmaChannelId> {
        self.state.dma()
    }

    /// Whether this terminal holds the graphics lock.
    pub closed spec fn holds_lock(&self) -> bool {
        self.lock.is_some()
    }

    /// Whether the terminal state is consistent.
    pub open spec fn inv(&self) -> bool {
        term_inv(self.cfg(), self.view())
    }

    /// Locks this active terminal, allowing terminal access.
    pub fn lock(self) -> (r: ActiveTerminalAccess)
        ensures
            r.view() == self.view(),
            r.cfg() == self.cfg(),
            r.dma() == self.dma(),
            r.holds_lock() == self.holds_lock(),
    {
        self.state_access()
    }

    fn state_access(self) -> (r: ActiveTerminalAccess)
        ensures
            r.view() == self.view(),
            r.cfg() == self.cfg(),
            r.dma() == self.dma(),
            r.holds_lock() == self.holds_lock(),
    {
        ActiveTerminalAccess { term: self.state, lock: self.lock }
    }

    /// Sets the background and foreground colors of terminal color `id` (0 to 3).
    pub fn set_color(&mut self, id: usize, background: u16, foreground: u16)
        requires
            old(self).inv(),
            id < 4,
        ensures
            final(self).view() == (TerminalView {
                colors: old(self).view().colors.update(id as int, (background, foreground)),
                palette: palette_with_color(old(self).view().palette, id as int, background, foreground),
                ..old(self).view()
            }),
            final(self).cfg() == old(self).cfg(),
            final(self).holds_lock() == old(self).holds_lock(),
            final(self).inv(),
    {
        self.state.colors.set(id, (background, foreground));
        self.state.update_palette(id, background, foreground);
    }

    /// Clears the whole terminal and moves the cursor home.
    pub fn clear(&mut self)
        requires
            old(self).inv(),
        ensures
            final(self).view() == cleared_all(old(self).cfg(), old(self).view()),
            final(self).cfg() == old(self).cfg(),
            final(self).holds_lock() == old(self).holds_lock(),
            final(self).inv(),
    {
        self.state.clear();
    }

    /// Moves the cursor to half-width column `x` (0 to 57) of row `y` (0 to 18).
    pub fn set_cursor(&mut self, x: usize, y: usize)
        requires
            old(self).inv(),
            x < 58,
            y < 19,
        ensures
            final(self).view() == (TerminalView {
                cursor_x: x as u8,
                cursor_y: y as u8,
                ..old(self).view()
            }),
            final(self).cfg() == old(self).cfg(),
            final(self).holds_lock() == old(self).holds_lock(),
            final(self).inv(),
    {
        self.state.cursor_x = x as u8;
        self.state.cursor_y = y as u8;
    }

    /// Sets whether characters are written in half-width mode.
    pub fn set_cursor_half_width(&mut self, half_width: bool)
        requires
            old(self).inv(),
        ensures
            final(self).view() == (TerminalView { cursor_hw: half_width, ..old(self).view() }),
            final(self).cfg() == old(self).cfg(),
            final(self).holds_lock() == old(self).holds_lock(),
            final(self).inv(),
    {
        self.state.cursor_hw = half_width;
    }

    /// Draws a full-width character at full-width column `x` (0 to 28) of row `y` (0 to 18).
    pub fn set_char_full(&mut self, x: usize, y: usize, ch: char, color: usize)
        requires
            old(self).inv(),
            x * 2 < 58,
            y < 19,
            color < 4,
        ensures
            final(self).view() == put_char_full(
                old(self).cfg(),
                old(self).view(),
                x as int,
                y as int,
                data_for(old(self).cfg(), ch as u32, color as u8).0,
                color as int,
            ),
            final(self).cfg() == old(self).cfg(),
            final(self).holds_lock() == old(self).holds_lock(),
            final(self).inv(),
    {
        let data = self.state.data_for_ch(ch as u32, color as u8);
        self.state.set_char_full(x, y, data.0, color);
    }

    /// Draws a character in half-width mode at half-width column `x` (0 to 57) of row `y`.
    pub fn set_char_half(&mut self, x: usize, y: usize, ch: char, color: usize)
        requires
            old(self).inv(),
            x < 58,
            y < 19,
            color < 4,
        ensures
            final(self).view() == put_char_half(
                old(self).cfg(),
                old(self).view(),
                x as int,
                y as int,
                data_for(old(self).cfg(), process_hw(ch as u32), color as u8).0,
                data_for(old(self).cfg(), process_hw(ch as u32), color as u8).1,
                color as int,
            ),
            final(self).cfg() == old(self).cfg(),
            final(self).holds_lock() == old(self).holds_lock(),
            final(self).inv(),
    {
        let c = ch as u32;
        let c = if c < 128 {
            c + 0xF400
        } else {
            c
        };
        let data = self.state.data_for_ch(c, color as u8);
        self.state.set_char_half(x, y, data.0, data.1, color);
    }
}


/// The background palette that shows the four terminal colors.
pub open spec fn full_palette(colors: Seq<(u16, u16)>) -> Seq<u16> {
    Seq::new(
        PALETTE_SIZE as nat,
        |j: int|
            if plane_bit_set(j % 16, (j % 64) / 16) {
                colors[j / 64].1
            } else {
                colors[j / 64].0
            },
    )
}

/// Setting all four terminal colors in order gives the full terminal palette.
pub proof fn lemma_full_palette(p: Seq<u16>, colors: Seq<(u16, u16)>)
    requires
        p.len() == PALETTE_SIZE,
        colors.len() == 4,
    ensures
        palette_with_color(
            palette_with_color(
                palette_with_color(
                    palette_with_color(p, 0, colors[0].0, colors[0].1),
                    1,
                    colors[1].0,
                    colors[1].1,
                ),
                2,
                colors[2].0,
                colors[2].1,
            ),
            3,
            colors[3].0,
            colors[3].1,
        ) =~= full_palette(colors),
{
}

/// The configuration of a terminal using a font: the blank and background tiles are the
/// glyphs of the private-use code points U+F508, U+F505 and U+F501 in each color.
pub open spec fn config_for(font: FontView) -> TermConfig {
    TermConfig {
        font,
        space: Seq::new(4, |i: int| glyph_tile(font, 0xF508, i as u8)),
        half_bg: Seq::new(4, |i: int| glyph_tile(font, 0xF505, i as u8)),
        full_bg: Seq::new(4, |i: int| glyph_tile(font, 0xF501, i as u8)),
    }
}

/// The settings of an inactive terminal.
pub struct TerminalSettings {
    /// Whether the screen is blanked.
    pub force_blank: bool,
    /// The DMA channel used to clear the screen, if any.
    pub dma_channel: Option<DmaChannelId>,
    /// The background and foreground colors of the four terminal colors.
    pub colors: Seq<(u16, u16)>,
    /// The background palette.
    pub palette: Seq<u16>,
}

/// The state of a terminal just after it is activated: the screen is clear and the palette
/// shows the four terminal colors.
pub open spec fn activated(c: TermConfig, s: TerminalSettings) -> TerminalView {
    TerminalView {
        cursor_x: 0,
        cursor_y: 0,
        cursor_hw: false,
        color: 0,
        line_advance: 0,
        v_offset: 4,
        force_blank: s.force_blank,
        maps: Seq::new(MAP_TILES as nat, |k: int| c.space[0]),
        palette: full_palette(s.colors),
        colors: s.colors,
    }
}

/// How activation copies a font's character data to video memory: `words` 32-bit words from
/// `src` to `dst`, by the DMA request `dma` where the terminal uses a DMA channel, and word by
/// word otherwise.
#[derive(Copy, Clone, Debug)]
pub struct FontUpload {
    /// The address of the character data.
    pub src: usize,
    /// The address of character 0 of the terminal's character data in video memory.
    pub dst: usize,
    /// The number of 32-bit words to copy.
    pub words: usize,
    /// The DMA transfer that copies them, where the terminal uses a DMA channel.
    pub dma: Option<DmaRequest>,
}

/// Whether a font's character data can be uploaded: whole 4bpp characters (eight words each),
/// fewer than 1024 of them, and where the terminal uses a DMA channel, a transfer the channel
/// accepts.
pub open spec fn font_data_ok(dma: Option<DmaChannelId>, src: usize, words: usize) -> bool {
    &&& words % 8 == 0
    &&& words / 8 < 1024
    &&& dma matches Some(id) ==> transfer_ok(
        id.spec_index() == 0,
        id.spec_index() <= 2,
        src,
        VRAM_BASE,
        (words * 4) as usize,
    )
}

/// Whether `u` copies `words` words of character data at `src` to character 0 of video
/// memory, through a fresh transfer on channel `dma` where there is one.
pub open spec fn font_upload_ok(u: FontUpload, src: usize, words: usize, dma: Option<DmaChannelId>) -> bool {
    let bytes = (words * 4) as usize;
    &&& u.src == src
    &&& u.dst == VRAM_BASE
    &&& u.words == words
    &&& match dma {
        None => u.dma is None,
        Some(id) => u.dma matches Some(q) && q.channel == id && q.src == src && q.dst == VRAM_BASE
            && q.word_count == bytes >> transfer_shift(src, VRAM_BASE, bytes)
            && q.cnt@ == transfer_cnt(false, transfer_is_u32(src, VRAM_BASE, bytes)),
    }
}

/// Describes the upload of a font's character data to character 0 of layer 0's character
/// block, taking and releasing the DMA channel's lock where the terminal uses one.
fn upload_font(dma: Option<DmaChannelId>, font_data: usize, font_words: usize, dma_locks: &mut LockSet) -> (u: FontUpload)
    requires
        font_data_ok(dma, font_data, font_words),
        dma matches Some(id) ==> !old(dma_locks).is_locked(id.spec_index() as int),
    ensures
        font_upload_ok(u, font_data, font_words, dma),
        forall|j: int| 0 <= j < 4 ==> #[trigger] final(dma_locks).is_locked(j) == old(dma_locks).is_locked(j),
{
    let layer = TileLayer::new(LayerId::Layer0);
    let chars = layer.char_access();
    proof {
        crate::bits::lemma_get_zero(2, 2);
        let g = get_bits(layer.view().cnt, 2, 2);
        assert(g == 0);
        assert(16 * 1024 * g == 0) by (nonlinear_arith)
            requires
                g == 0,
        ;
    }
    let dst = chars.write_char_4bpp(0, font_words, 4);
    match dma {
        None => FontUpload { src: font_data, dst, words: font_words, dma: None },
        Some(id) => {
            let channel = id.create(dma_locks);
            let q = chars.write_char_4bpp_dma(&channel, font_data, 0, font_words, 4);
            channel.release(dma_locks);
            FontUpload { src: font_data, dst, words: font_words, dma: Some(q) }
        },
    }
}

/// A terminal display mode that makes it easy to display text.
pub struct Terminal {
    force_blank: bool,
    dma_channel: Option<DmaChannelId>,
    colors: Vec<(u16, u16)>,
    palette: Vec<u16>,
}

impl Terminal {
    /// The settings of the terminal.
    pub closed spec fn view(&self) -> TerminalSettings {
        TerminalSettings {
            force_blank: self.force_blank,
            dma_channel: self.dma_channel,
            colors: self.colors@,
            palette: self.palette@,
        }
    }

    /// Whether the settings are consistent.
    pub open spec fn wf(&self) -> bool {
        self.view().colors.len() == 4 && self.view().palette.len() == PALETTE_SIZE
    }

    /// A terminal with black-on-white colors... that is, background 0 and foreground `0xFFFF`
    /// for all four terminal colors.
    pub fn new() -> (r: Self)
        ensures
            r.wf(),
            !r.view().force_blank,
            r.view().dma_channel is None,
            r.view().colors == Seq::new(4, |i: int| (0u16, 0xFFFFu16)),
            r.view().palette == Seq::new(PALETTE_SIZE as nat, |j: int| 0u16),
    {
        let r = Terminal {
            force_blank: false,
            dma_channel: None,
            colors: vec![(0, 0xFFFF), (0, 0xFFFF), (0, 0xFFFF), (0, 0xFFFF)],
            palette: vec![0; PALETTE_SIZE],
        };
        assert(r.view().colors =~= Seq::new(4, |i: int| (0u16, 0xFFFFu16)));
        r
    }

    /// Uses a DMA channel to clear the screen. The first channel cannot be used.
    pub fn use_dma_channel(&mut self, id: DmaChannelId)
        requires
            id != DmaChannelId::Dma0,
        ensures
            final(self).view() == (TerminalSettings { dma_channel: Some(id), ..old(self).view() }),
    {
        self.dma_channel = Some(id);
    }

    /// Sets the background and foreground colors of terminal color `id` (0 to 3).
    pub fn set_color(&mut self, id: usize, background: u16, foreground: u16)
        requires
            old(self).wf(),
            id < 4,
        ensures
            final(self).wf(),
            final(self).view() == (TerminalSettings {
                colors: old(self).view().colors.update(id as int, (background, foreground)),
                palette: palette_with_color(old(self).view().palette, id as int, background, foreground),
                ..old(self).view()
            }),
    {
        self.colors.set(id, (background, foreground));
        let ghost p0 = self.palette@;
        let ghost s1 = self.view();
        let mut j: usize = id * 64;
        while j < id * 64 + 64
            invariant
                id < 4,
                s1.colors.len() == 4,
                self.view() == (TerminalSettings { palette: self.palette@, ..s1 }),
                id * 64 <= j <= id * 64 + 64,
                p0.len() == PALETTE_SIZE,
                self.palette@.len() == PALETTE_SIZE,
                forall|t: int|
                    0 <= t < PALETTE_SIZE ==> #[trigger] self.palette@[t] == if id * 64 <= t < j {
                        palette_with_color(p0, id as int, background, foreground)[t]
                    } else {
                        p0[t]
                    },
            decreases id * 64 + 64 - j,
        {
            let color = palette_entry(j, id, background, foreground);
            self.palette.set(j, color);
            j += 1;
        }
        assert(self.palette@ =~= palette_with_color(p0, id as int, background, foreground));
    }

    /// Sets whether the screen is blanked while the terminal is shown.
    pub fn set_force_blank(&mut self, force_blank: bool)
        ensures
            final(self).view() == (TerminalSettings { force_blank, ..old(self).view() }),
    {
        self.force_blank = force_blank;
    }

    fn active_raw(
        self,
        font: FontTables,
        font_data: usize,
        font_words: usize,
        dispcnt: DispCnt,
        dma_locks: &mut LockSet,
        lock: Option<RawMutexGuard>,
    ) -> (r: (ActiveTerminal, FontUpload, Vec<IoWrite>))
        requires
            self.wf(),
            font.wf(),
            font_data_ok(self.view().dma_channel, font_data, font_words),
            self.view().dma_channel matches Some(id) ==> !old(dma_locks).is_locked(id.spec_index() as int),
        ensures
            r.0.cfg() == config_for(font@),
            r.0.view() == activated(config_for(font@), self.view()),
            r.0.dma() == self.view().dma_channel,
            r.0.holds_lock() == lock.is_some(),
            r.0.inv(),
            font_upload_ok(r.1, font_data, font_words, self.view().dma_channel),
            r.2@ == show_seq(r.0.view(), dispcnt@),
            forall|j: int| 0 <= j < 4 ==> #[trigger] final(dma_locks).is_locked(j) == old(dma_locks).is_locked(j),
    {
        let upload = upload_font(self.dma_channel, font_data, font_words, dma_locks);
        let mut space_ch: [u16; 4] = [0; 4];
        let mut half_bg_ch: [u16; 4] = [0; 4];
        let mut full_bg_ch: [u16; 4] = [0; 4];
        for i in 0..4
            invariant
                font.wf(),
                forall|k: int| 0 <= k < i ==> space_ch@[k] == glyph_tile(font@, 0xF508, k as u8),
                forall|k: int| 0 <= k < i ==> half_bg_ch@[k] == glyph_tile(font@, 0xF505, k as u8),
                forall|k: int| 0 <= k < i ==> full_bg_ch@[k] == glyph_tile(font@, 0xF501, k as u8),
        {
            space_ch.set(i, glyph_data(&font, 0xF508, i as u8).0);
            half_bg_ch.set(i, glyph_data(&font, 0xF505, i as u8).0);
            full_bg_ch.set(i, glyph_data(&font, 0xF501, i as u8).0);
        }
        let ghost settings = self.view();
        let mut state = ActiveTerminalState {
            cursor_x: 0,
            cursor_y: 0,
            cursor_hw: false,
            color: 0,
            line_advance: 0,
            v_offset: 4,
            force_blank: self.force_blank,
            maps: vec![0; MAP_TILES],
            palette: self.palette,
            colors: self.colors,
            font,
            space_ch,
            half_bg_ch,
            full_bg_ch,
            dma_channel: self.dma_channel,
        };
        assert(state.cfg().space =~= config_for(font@).space);
        assert(state.cfg().half_bg =~= config_for(font@).half_bg);
        assert(state.cfg().full_bg =~= config_for(font@).full_bg);
        let c0 = state.colors[0];
        state.update_palette(0, c0.0, c0.1);
        let c1 = state.colors[1];
        state.update_palette(1, c1.0, c1.1);
        let c2 = state.colors[2];
        state.update_palette(2, c2.0, c2.1);
        let c3 = state.colors[3];
        state.update_palette(3, c3.0, c3.1);
        proof {
            lemma_full_palette(settings.palette, settings.colors);
        }
        state.clear();
        assert(state@.maps =~= activated(config_for(font@), settings).maps);
        let writes = state.show_writes(dispcnt);
        (ActiveTerminal { state, lock }, upload, writes)
    }

    /// Activates the terminal with a font, taking the graphics lock so that no other graphics
    /// mode is active at the same time. The lock must be free.
    ///
    /// The font's character data, `font_words` 32-bit words at `font_data`, goes to character 0
    /// of video memory as the returned upload describes; where the terminal uses a DMA channel,
    /// its lock must be free and is free again afterwards. The returned writes, given the
    /// current display control value `dispcnt`, load the palette, set up the four layers (tile
    /// maps 28 to 31, horizontal offsets 4, 8, 4, 8 and vertical offset 4), show mode 0 with all
    /// four layers, and clear the tile maps.
    pub fn activate(
        self,
        font: FontTables,
        font_data: usize,
        font_words: usize,
        dispcnt: DispCnt,
        dma_locks: &mut LockSet,
        gfx_lock: &mut RawMutex,
    ) -> (r: (ActiveTerminal, FontUpload, Vec<IoWrite>))
        requires
            self.wf(),
            font.wf(),
            !old(gfx_lock).is_locked(),
            font_data_ok(self.view().dma_channel, font_data, font_words),
            self.view().dma_channel matches Some(id) ==> !old(dma_locks).is_locked(id.spec_index() as int),
        ensures
            final(gfx_lock).is_locked(),
            r.0.cfg() == config_for(font@),
            r.0.view() == activated(config_for(font@), self.view()),
            r.0.dma() == self.view().dma_channel,
            r.0.holds_lock(),
            r.0.inv(),
            font_upload_ok(r.1, font_data, font_words, self.view().dma_channel),
            r.2@ == show_seq(r.0.view(), dispcnt@),
            forall|j: int| 0 <= j < 4 ==> #[trigger] final(dma_locks).is_locked(j) == old(dma_locks).is_locked(j),
    {
        let guard = gfx_lock.lock();
        self.active_raw(font, font_data, font_words, dispcnt, dma_locks, Some(guard))
    }

    /// Activates the terminal with a font without taking the graphics lock, uploading the
    /// font and giving the writes as `activate` does.
    ///
    /// This should not be used except in very special circumstances, such as in a panic handler
    /// that may need to be called in a context where the graphics are already locked.
    pub fn activate_no_lock(
        self,
        font: FontTables,
        font_data: usize,
        font_words: usize,
        dispcnt: DispCnt,
        dma_locks: &mut LockSet,
    ) -> (r: (ActiveTerminal, FontUpload, Vec<IoWrite>))
        requires
            self.wf(),
            font.wf(),
            font_data_ok(self.view().dma_channel, font_data, font_words),
            self.view().dma_channel matches Some(id) ==> !old(dma_locks).is_locked(id.spec_index() as int),
        ensures
            r.0.cfg() == config_for(font@),
            r.0.view() == activated(config_for(font@), self.view()),
            r.0.dma() == self.view().dma_channel,
            !r.0.holds_lock(),
            r.0.inv(),
            font_upload_ok(r.1, font_data, font_words, self.view().dma_channel),
            r.2@ == show_seq(r.0.view(), dispcnt@),
            forall|j: int| 0 <= j < 4 ==> #[trigger] final(dma_locks).is_locked(j) == old(dma_locks).is_locked(j),
    {
        self.active_raw(font, font_data, font_words, dispcnt, dma_locks, None)
    }
}

impl ActiveTerminal {
    /// Ends the terminal mode, releasing the graphics lock if it is held. The terminal keeps
    /// its colors and the palette.
    pub fn deactivate(self, gfx_lock: &mut RawMutex) -> (r: Terminal)
        requires
            self.holds_lock() ==> old(gfx_lock).is_locked(),
            self.inv(),
        ensures
            self.holds_lock() ==> !final(gfx_lock).is_locked(),
            !self.holds_lock() ==> *final(gfx_lock) == *old(gfx_lock),
            r.wf(),
            r.view() == (TerminalSettings {
                force_blank: self.view().force_blank,
                dma_channel: self.dma(),
                colors: self.view().colors,
                palette: self.view().palette,
            }),
    {
        let ActiveTerminal { state, lock } = self;
        match lock {
            Some(g) => gfx_lock.unlock(g),
            None => {},
        }
        Terminal {
            force_blank: state.force_blank,
            dma_channel: state.dma_channel,
            colors: state.colors,
            palette: state.palette,
        }
    }
}

} // verus!
