use lgba::display::color::{is_hblank, is_vblank, rgb, rgb_24bpp, scanline, set_counter_scanline};
use lgba::display::fonts::{FontTables, TerminalFontAscii, ASCII_FONT_DATA};
use lgba::display::layers::{LayerId, TileLayer, TileLayerSize};
use lgba::display::modes::Mode0;
use lgba::display::terminal::{ActiveTerminal, Terminal, MAP_BASE};
use lgba::display::vram::{char_count_4bpp, char_count_8bpp, CharAccess, MapAccess};
use lgba::dma::DmaChannelId;
use lgba::io::{IoWrite, BG_CNT, BG_HOFS, BG_PALETTE_RAM, BG_VOFS, DISPCNT, VRAM_BASE};
use lgba::mmio::display::{DispCnt, DispStat, VramTile};
use lgba::panic_screen::{panic_start, panic_terminal, write_location, write_message};
use lgba::sync::{LockSet, RawMutex};

fn ascii_font() -> FontTables {
    TerminalFontAscii::tables().expect("the built-in tables are well formed")
}

/// Activates a terminal without the graphics lock, with the ASCII font's data at a made-up
/// address.
fn shown(t: Terminal, font: FontTables) -> ActiveTerminal {
    let mut locks = LockSet::new();
    t.activate_no_lock(font, 0x0800_1000, ASCII_FONT_DATA.len(), DispCnt::new(), &mut locks).0
}

fn tile_of(font: &FontTables, ch: u32, color: u16) -> u16 {
    let g = font.get_font_glyph(ch);
    (g.1 & 0x3FF) | ((color * 4 + g.0 as u16) << 12)
}

#[test]
fn colors_pack_components() {
    assert_eq!(rgb(31, 0, 0), 0x001F);
    assert_eq!(rgb(0, 31, 0), 0x03E0);
    assert_eq!(rgb(0, 0, 31), 0x7C00);
    assert_eq!(rgb(1, 2, 3), 1 + 64 + 3072);
    assert_eq!(rgb_24bpp(255, 255, 255), 0x7FFF);
    assert_eq!(rgb_24bpp(0, 0, 0), 2 + 64 + 2048);
    assert_eq!(rgb_24bpp(200, 0, 0), 27 + 64 + 2048);
}

#[test]
fn display_status_fields() {
    assert!(is_vblank(DispStat::from_bits(1)));
    assert!(!is_vblank(DispStat::from_bits(2)));
    assert!(is_hblank(DispStat::from_bits(2)));
    assert_eq!(scanline(160), 160);
    let s = set_counter_scanline(DispStat::from_bits(0x0028), 100);
    assert_eq!(s.bits(), 0x6428);
    assert_eq!(s.vcount_scanline(), 100);
}

#[test]
fn char_access_bounds_and_addresses() {
    let a = CharAccess::new(VRAM_BASE, 0, 512);
    assert!(a.check_bounds(0, 10));
    assert!(a.check_bounds(500, 11));
    assert!(!a.check_bounds(500, 12));
    assert!(!a.check_bounds(512, 0));
    assert!(!a.check_bounds(0, 2048));
    assert_eq!(a.base_index(3), VRAM_BASE + 96);
    assert_eq!(a.write_char_4bpp(2, 16, 2), VRAM_BASE + 64);
    assert_eq!(a.write_char_8bpp(4, 16, 4), VRAM_BASE + 128);
    assert_eq!(char_count_4bpp(32, 2), Some(2));
    assert_eq!(char_count_4bpp(33, 2), None);
    assert_eq!(char_count_8bpp(32, 4), Some(2));
    assert_eq!(char_count_8bpp(8, 4), None);
}

#[test]
fn map_access_indexes_rows() {
    let m = MapAccess::new(VRAM_BASE, 5);
    assert_eq!(m.index(3, 2), 67);
    assert!(m.check_bounds(0, 31, 32));
    assert!(!m.check_bounds(1, 31, 32));
    assert_eq!(m.base_index(1, 1), VRAM_BASE + 66);
    let t = VramTile::new().with_char(5).with_palette(2);
    assert_eq!(m.set_tile(1, 0, t), IoWrite::U16 { addr: VRAM_BASE + 2, value: 0x2005 });
    let ts = [t, VramTile::new()];
    assert_eq!(
        m.set_tiles(31, 0, &ts),
        vec![
            IoWrite::U16 { addr: VRAM_BASE + 62, value: 0x2005 },
            IoWrite::U16 { addr: VRAM_BASE + 64, value: 0 },
        ]
    );
}

#[test]
fn layer_activation_writes_enabled_settings() {
    let mut l = TileLayer::new(LayerId::Layer2);
    let (active, w) = l.activate();
    assert!(w.is_empty());
    let l0 = active.deactivate();
    assert!(!l0.enabled());
    l.set_enabled(true);
    l.set_offset(3, -2);
    l.set_bg_priority(1);
    l.set_tile_map_size(TileLayerSize::Map512x512);
    let (active, w) = l.activate();
    assert_eq!(
        w,
        vec![
            IoWrite::U16 { addr: BG_CNT + 4, value: 0xC001 },
            IoWrite::U16 { addr: BG_HOFS + 8, value: 0xFFFD },
            IoWrite::U16 { addr: BG_VOFS + 8, value: 2 },
        ]
    );
    assert_eq!(active.tile_map_size(), TileLayerSize::Map512x512);
    let (active, w) = active.edit().set_h_offset(-1).set_enabled(false).finish(DispCnt::from_bits(0x0400));
    assert_eq!(
        w,
        vec![
            IoWrite::U16 { addr: BG_HOFS + 8, value: 1 },
            IoWrite::U16 { addr: DISPCNT, value: 0 },
        ]
    );
    assert!(!active.enabled());
    assert_eq!(active.offset(), (-1, -2));
}

#[test]
fn layer_accesses() {
    let mut l = TileLayer::new(LayerId::Layer0);
    l.set_char_base(3);
    l.set_tile_base(31);
    l.set_tile_map_size(TileLayerSize::Map512x256);
    let c = l.char_access();
    assert!(c.check_bounds(0, 100));
    assert!(!c.check_bounds(512, 1));
    assert_eq!(c.base_index(0), VRAM_BASE + 3 * 16384);
    let m = l.map_access(1);
    assert_eq!(m.base_index(0, 0), VRAM_BASE);
    let m = l.map_access(0);
    assert_eq!(m.base_index(0, 0), VRAM_BASE + 31 * 2048);
}

#[test]
fn mode0_activation_and_lock() {
    let mut mode = Mode0::new();
    mode.layers[1].set_enabled(true);
    let mut lock = RawMutex::new();
    let (active, w) = mode.activate(DispCnt::from_bits(0x0083), &mut lock);
    assert!(lock.locked());
    assert_eq!(
        w,
        vec![
            IoWrite::U16 { addr: BG_CNT + 2, value: 0 },
            IoWrite::U16 { addr: BG_HOFS + 4, value: 0 },
            IoWrite::U16 { addr: BG_VOFS + 4, value: 0 },
            IoWrite::U16 { addr: DISPCNT, value: 0x0200 },
        ]
    );
    let (mode, w) = active.deactivate(DispCnt::from_bits(0x0200), &mut lock);
    assert!(!lock.locked());
    assert_eq!(w, IoWrite::U16 { addr: DISPCNT, value: 0x0280 });
    assert!(mode.layers[1].enabled());
    let (active, _) = mode.activate_no_lock(DispCnt::new());
    assert!(!lock.locked());
    let _ = active.deactivate(DispCnt::new(), &mut lock);
    assert!(!lock.locked());
}

#[test]
fn terminal_writes_characters_and_advances() {
    let font = ascii_font();
    let expect_a = tile_of(&font, 'A' as u32, 0);
    let space = tile_of(&font, 0xF508, 0);
    let full_bg = tile_of(&font, 0xF501, 0);
    let mut lock = RawMutex::new();
    let mut locks = LockSet::new();
    let (term, _, _) =
        Terminal::new().activate(ascii_font(), 0x0800_1000, 448, DispCnt::new(), &mut locks, &mut lock);
    assert!(lock.locked());
    let mut t = term.lock();
    assert_eq!(t.cursor(), (0, 0));
    assert!(t.tiles().iter().all(|x| *x == space));
    t.write_char('A');
    assert_eq!(t.cursor(), (2, 0));
    assert_eq!(t.tile(0, 0, 0), expect_a);
    assert_eq!(t.tile(1, 0, 0), space);
    assert_eq!(t.tile(2, 0, 0), full_bg);
    t.write_str("BC");
    assert_eq!(t.cursor(), (6, 0));
    assert_eq!(t.tile(0, 1, 0), tile_of(&font, 'B' as u32, 0));
    t.new_line();
    assert_eq!(t.cursor(), (0, 1));
    t.set_cursor(0, 18);
    t.new_line();
    assert_eq!(t.cursor(), (0, 18));
    let w = t.display_writes(DispCnt::new());
    assert_eq!(w.len(), 13);
    assert_eq!(w[0], IoWrite::U16 { addr: BG_CNT, value: 28 * 256 });
    assert_eq!(w[4], IoWrite::U16 { addr: BG_HOFS, value: 0xFFFC });
    assert_eq!(w[5], IoWrite::U16 { addr: BG_HOFS + 4, value: 0xFFF8 });
    // After one scroll the layers are offset by 4 - 8 pixels.
    assert_eq!(w[8], IoWrite::U16 { addr: BG_VOFS, value: 4 });
    assert_eq!(w[12], IoWrite::U16 { addr: DISPCNT, value: 0x0F00 });
    t.clear();
    assert_eq!(t.cursor(), (0, 0));
    assert!(t.tiles().iter().all(|x| *x == space));
    let term = t.unlock();
    let settings = term.deactivate(&mut lock);
    assert!(!lock.locked());
    drop(settings);
}

#[test]
fn terminal_wraps_words() {
    let font = ascii_font();
    let mut t = shown(Terminal::new(), font).lock();
    t.set_cursor(50, 0);
    t.write_str("abc defgh");
    // "abc" fits at column 50; "defgh" moves to the next line.
    assert_eq!(t.cursor(), (10, 1));
    t.write_str("x\ny");
    assert_eq!(t.cursor(), (2, 2));
}

#[test]
fn terminal_colors_fill_palette() {
    let mut t = Terminal::new();
    t.set_color(1, 0x1234, 0x5678);
    let mut a = shown(t, ascii_font()).lock();
    let p = a.palette();
    assert_eq!(p.len(), 256);
    // Color 1 uses palettes 4 to 7; palette 4 draws its glyph plane in bit 3 of each pixel.
    assert_eq!(p[64], 0x1234);
    assert_eq!(p[64 + 8], 0x5678);
    assert_eq!(p[64 + 7], 0x1234);
    assert_eq!(p[80 + 4], 0x5678);
    assert_eq!(p[0], 0);
    assert_eq!(p[8], 0xFFFF);
    a.set_color(3, 1, 2);
    assert_eq!(a.palette()[192 + 1 + 48], 2);
    assert_eq!(a.palette()[192 + 48], 1);
}

#[test]
fn panic_screen_lines() {
    let mut panicking = false;
    assert!(!panic_start(&mut panicking));
    assert!(panic_start(&mut panicking));
    let (mut t, upload) = panic_terminal(ascii_font(), 0x0800_1000, 448);
    assert_eq!((upload.src, upload.dst, upload.words), (0x0800_1000, VRAM_BASE, 448));
    assert!(upload.dma.is_none());
    assert_eq!(t.palette()[0], rgb_24bpp(200, 0, 0));
    assert_eq!(t.palette()[8], 0xFFFF);
    write_location(&mut t, None);
    assert_eq!(t.cursor(), (0, 1));
    write_message(&mut t, Some("boom"));
    assert_eq!(t.cursor(), (0, 2));
    write_location(&mut t, Some("src/main.rs:10"));
    assert_eq!(t.cursor(), (0, 3));
}

#[test]
fn layer_settings_read_back_independently() {
    let mut l = TileLayer::new(LayerId::Layer1);
    l.set_char_base(2);
    l.set_tile_base(31);
    l.set_mosaic_enabled(true);
    l.set_bg_priority(3);
    assert_eq!(l.bg_priority(), 3);
    assert_eq!(l.char_base(), 2);
    assert_eq!(l.tile_base(), 31);
    assert!(l.mosaic_enabled());
    l.set_char_base(1);
    assert_eq!(l.char_base(), 1);
    assert_eq!((l.bg_priority(), l.tile_base()), (3, 31));
    assert!(l.mosaic_enabled());
}

#[test]
fn terminal_activation_uploads_font_and_shows_layers() {
    let font = ascii_font();
    let space = tile_of(&font, 0xF508, 0);
    let mut t = Terminal::new();
    t.use_dma_channel(DmaChannelId::Dma3);
    let mut locks = LockSet::new();
    let mut gfx = RawMutex::new();
    let (term, upload, w) =
        t.activate(font, 0x0800_1000, ASCII_FONT_DATA.len(), DispCnt::from_bits(0x0080), &mut locks, &mut gfx);
    // The font goes to character 0 of video memory in 32-bit units, and the channel's lock is
    // free again.
    assert_eq!((upload.src, upload.dst, upload.words), (0x0800_1000, VRAM_BASE, 448));
    let q = upload.dma.expect("the terminal uses a DMA channel");
    assert_eq!((q.channel, q.src, q.dst, q.word_count), (DmaChannelId::Dma3, 0x0800_1000, VRAM_BASE, 448));
    assert_eq!(q.cnt.bits(), 0x8400);
    assert!(!locks.locked(3));
    assert!(gfx.locked());
    // Palette, then layer and display registers, then the cleared tile maps.
    assert_eq!(w.len(), 256 + 13 + 4096);
    for b in 0..16usize {
        for k in 0..16usize {
            let expected = if k & (8 >> (b % 4)) != 0 { 0xFFFF } else { 0 };
            assert_eq!(w[16 * b + k], IoWrite::U16 { addr: BG_PALETTE_RAM + 2 * (16 * b + k), value: expected });
        }
    }
    for i in 0..4usize {
        assert_eq!(w[256 + i], IoWrite::U16 { addr: BG_CNT + 2 * i, value: ((28 + i) * 256) as u16 });
        let h = if i % 2 == 0 { 0xFFFC } else { 0xFFF8 };
        assert_eq!(w[260 + i], IoWrite::U16 { addr: BG_HOFS + 4 * i, value: h });
        assert_eq!(w[264 + i], IoWrite::U16 { addr: BG_VOFS + 4 * i, value: 0xFFFC });
    }
    // Mode 0, all four layers, no forced blank.
    assert_eq!(w[268], IoWrite::U16 { addr: DISPCNT, value: 0x0F00 });
    assert_eq!(w[269], IoWrite::U16 { addr: MAP_BASE, value: space });
    assert_eq!(w[269 + 4095], IoWrite::U16 { addr: MAP_BASE + 2 * 4095, value: space });
    let _ = term.deactivate(&mut gfx);
    assert!(!gfx.locked());
}

#[test]
fn ascii_font_data_holds_whole_characters() {
    assert_eq!(ASCII_FONT_DATA.len() % 8, 0);
    assert!(ASCII_FONT_DATA[..8].iter().all(|w| *w == 0));
    assert_eq!(ASCII_FONT_DATA[8], 0x0000_8888);
}
