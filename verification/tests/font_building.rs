use lgba::display::fonts::{FontTables, TerminalFontAscii};
use lgba::font_builder::chars::{
    block_name, chars_contain, data_is_half_width, gather_characters, is_included, list_contains,
    parse_fonts, process_char, str_eq, CharacterInfo, CharacterSets, FontConfiguration,
};
use lgba::font_builder::planes::{build_planes, interlace, interlace_byte};
use lgba::font_builder::tables::{char_bits_for, hi_layout, low_plane_words, make_glyph_tables};

const NO_BLOCKS: &[&str] = &[];
const NO_CHARS: &[char] = &[];

fn config(low: usize, count: usize) -> FontConfiguration {
    FontConfiguration {
        font_name: "test",
        font_type: "TerminalFontTest",
        description: "a test font",
        low_plane_limit: low,
        low_plane_dupe_limit: low,
        disable_unscii: false,
        unscii_blocks: NO_BLOCKS,
        disable_misaki: false,
        misaki_blocks: NO_BLOCKS,
        allow_all_blocks: true,
        whitelisted_blocks: NO_BLOCKS,
        whitelisted_chars: NO_CHARS,
        allow_halfwidth_blocks: NO_BLOCKS,
        fallback_char: '?',
        kanji_max_level: 11,
        character_count: count,
    }
}

fn glyph(seed: u64) -> u64 {
    // A full-width glyph: pixels in both halves of the rows.
    0x8100_0000_0000_0000 | (seed << 16) | 0x0101
}

#[test]
fn half_width_detection() {
    let left = 0xF000_0000_0000_0000u64;
    let right = 0x0F00_0000_0000_0000u64;
    assert!(CharacterInfo::new('a', left).is_half_width);
    assert!(!CharacterInfo::new('a', right).is_half_width);
    assert!(!CharacterInfo::new('a', left | right).is_half_width);
    assert!(!CharacterInfo::new(' ', 0).is_half_width);
    assert!(data_is_half_width(0));
    assert!(data_is_half_width(left));
    assert!(!data_is_half_width(right));
}

#[test]
fn block_names_and_lists() {
    assert_eq!(block_name('a'), "Basic Latin");
    assert_eq!(block_name('\u{3042}'), "Hiragana");
    assert_eq!(block_name('\u{4E00}'), "CJK Unified Ideographs");
    assert!(str_eq("abc", "abc"));
    assert!(!str_eq("abc", "abd"));
    assert!(!str_eq("abc", "ab"));
    assert!(list_contains(&["Hiragana", "Basic Latin"], "Basic Latin"));
    assert!(!list_contains(&["Hiragana"], "Basic Latin"));
    assert!(chars_contain(&['x', 'y'], 'y'));
    assert!(!chars_contain(&[], 'y'));
}

#[test]
fn half_width_kept_only_in_allowed_blocks() {
    let c = CharacterInfo::new('a', 0xF000_0000_0000_0000);
    let mut cfg = config(128, 128);
    assert!(!process_char(&cfg, c).is_half_width);
    cfg.allow_halfwidth_blocks = &["Basic Latin"];
    assert!(process_char(&cfg, c).is_half_width);
    assert_eq!(process_char(&cfg, c).data, c.data);
}

#[test]
fn merged_fonts_prefer_unscii_unless_block_listed() {
    let ua = CharacterInfo::new('A', 1);
    let ub = CharacterInfo::new('B', 2);
    let mb = CharacterInfo::new('B', 3);
    let mc = CharacterInfo::new('C', 4);
    let sets = CharacterSets { unscii: vec![ua, ub], misaki: vec![mb, mc] };
    let mut cfg = config(128, 128);
    assert_eq!(parse_fonts(&cfg, &sets), vec![ua, ub, mc]);
    cfg.misaki_blocks = &["Basic Latin"];
    assert_eq!(parse_fonts(&cfg, &sets), vec![ua, mb, mc]);
    cfg.misaki_blocks = NO_BLOCKS;
    cfg.disable_unscii = true;
    assert_eq!(parse_fonts(&cfg, &sets), vec![mb, mc]);
    cfg.unscii_blocks = &["Basic Latin"];
    cfg.disable_misaki = true;
    assert_eq!(parse_fonts(&cfg, &sets), vec![ua, ub]);
}

#[test]
fn null_character_of_unscii_is_dropped() {
    let z = CharacterInfo::new('\0', 1);
    let a = CharacterInfo::new('A', 2);
    let sets = CharacterSets { unscii: vec![z, a], misaki: vec![] };
    assert_eq!(parse_fonts(&config(128, 128), &sets), vec![a]);
}

#[test]
fn inclusion_by_block_and_kanji_level() {
    let mut cfg = config(128, 128);
    cfg.allow_all_blocks = false;
    cfg.whitelisted_blocks = &["Basic Latin", "CJK Unified Ideographs"];
    cfg.kanji_max_level = 0;
    assert!(is_included(&cfg, &CharacterInfo::new('A', 0)));
    // Control characters are left out even in a kept block.
    assert!(!is_included(&cfg, &CharacterInfo::new('\u{7}', 0)));
    assert!(!is_included(&cfg, &CharacterInfo::new('\u{3042}', 0)));
    // Level 10 kanji are kept, level 9 ones are too advanced here.
    assert!(is_included(&cfg, &CharacterInfo::new('\u{4E00}', 0)));
    assert!(!is_included(&cfg, &CharacterInfo::new('\u{4E07}', 0)));
    cfg.kanji_max_level = 1;
    assert!(is_included(&cfg, &CharacterInfo::new('\u{4E07}', 0)));
    // A listed character outside the kept blocks and planes; unlisted kanji need every level.
    cfg.whitelisted_chars = &['\u{3042}', '\u{20000}'];
    assert!(is_included(&cfg, &CharacterInfo::new('\u{3042}', 0)));
    assert!(!is_included(&cfg, &CharacterInfo::new('\u{20000}', 0)));
    cfg.kanji_max_level = 11;
    assert!(is_included(&cfg, &CharacterInfo::new('\u{20000}', 0)));
}

#[test]
fn gathering_keeps_order_and_filters() {
    let mut cfg = config(128, 128);
    cfg.allow_all_blocks = false;
    cfg.whitelisted_blocks = &["Basic Latin"];
    let chars = vec![
        CharacterInfo::new('\u{7}', 1),
        CharacterInfo::new('A', 2),
        CharacterInfo::new('z', 3),
        CharacterInfo::new('\u{3042}', 4),
    ];
    let kept = gather_characters(&cfg, chars.clone());
    assert_eq!(kept, vec![chars[1], chars[2]]);
}

#[test]
fn gathering_sorts_and_drops_repeats() {
    let cfg = config(128, 128);
    let a = CharacterInfo::new('A', 2);
    let z = CharacterInfo::new('z', 3);
    let a2 = CharacterInfo::new('A', 5);
    let kept = gather_characters(&cfg, vec![z, a, z, a2, a]);
    assert_eq!(kept, vec![a, a2, z]);
    assert_eq!(gather_characters(&cfg, vec![]), vec![]);
}

#[test]
fn merged_fonts_from_unordered_lists() {
    let cfg = config(128, 128);
    let ua = CharacterInfo::new('A', 1);
    let ub = CharacterInfo::new('B', 2);
    let ub2 = CharacterInfo::new('B', 7);
    let mc = CharacterInfo::new('C', 4);
    let mc2 = CharacterInfo::new('C', 8);
    // Of two unscii characters with one code point the later one is kept; a second misaki
    // character does not replace the first one.
    let sets = CharacterSets { unscii: vec![ub, ua, ub2], misaki: vec![mc, mc2] };
    assert_eq!(parse_fonts(&cfg, &sets), vec![ua, ub2, mc]);
    let mut listed = cfg;
    listed.misaki_blocks = &["Basic Latin"];
    assert_eq!(parse_fonts(&listed, &sets), vec![ua, ub2, mc2]);
}

#[test]
fn interlacing_places_pixels_in_planes() {
    let top_left = 1u64 << 63;
    let second = 1u64 << 62;
    assert_eq!(interlace_byte(top_left, 0, 0, 0, 0), 0x08);
    assert_eq!(interlace_byte(second, 0, 0, 0, 0), 0x80);
    assert_eq!(interlace_byte(0, 0, 0, top_left, 0), 0x01);
    assert_eq!(interlace_byte(0, top_left, 0, 0, 1), 0x00);
    // Pixel (2, 0) lands in byte 1.
    assert_eq!(interlace_byte(0, 1u64 << 61, 0, 0, 1), 0x04);
    let data = interlace(&vec![top_left, 0, 0, u64::MAX], 1);
    assert_eq!(data.len(), 32);
    assert_eq!(data[0], 0x19);
    assert!(data[1..].iter().all(|b| *b == 0x11));
}

#[test]
fn char_bits_and_layouts() {
    assert_eq!(char_bits_for(0), 0);
    assert_eq!(char_bits_for(1), 0);
    assert_eq!(char_bits_for(2), 1);
    assert_eq!(char_bits_for(15), 4);
    assert_eq!(char_bits_for(16), 4);
    assert_eq!(char_bits_for(1023), 10);
    assert_eq!(hi_layout(5), (0, 0xFFFF_FFFF));
    assert_eq!(hi_layout(7), (1, 16));
    assert_eq!(hi_layout(8), (2, 8));
    assert_eq!(hi_layout(10), (4, 4));
    assert_eq!(hi_layout(11), (8, 2));
}

#[test]
fn low_plane_bitmap_words() {
    let mut bits = vec![false; 32];
    bits[0] = true;
    bits[17] = true;
    bits[31] = true;
    assert_eq!(low_plane_words(&bits), vec![0x0001, 0x8002]);
}

#[test]
fn built_font_looks_up_every_character() {
    let cfg = config(128, 128);
    let chars = vec![
        CharacterInfo::new(' ', 0),
        CharacterInfo::new('?', glyph(1)),
        CharacterInfo::new('A', glyph(2)),
        CharacterInfo::new('B', glyph(3)),
        CharacterInfo::new('\u{3042}', glyph(4)),
        CharacterInfo::new('\u{3044}', glyph(2)),
    ];
    let g = build_planes(&cfg, &chars).expect("the slots suffice");
    assert_eq!(g.planes.len(), 128);
    assert_eq!(g.data.len(), 32 * 32);
    for c in &chars {
        let e = g.glyph_lookup[&(c.ch as u16)];
        assert_eq!(g.planes[e.1 * 4 + e.0], c.data);
        assert_eq!(e.2, c.is_half_width);
    }
    // Low characters use their own slot.
    assert_eq!(g.glyph_lookup[&('A' as u16)], (1, 16, false));
    // An equal glyph above the low plane shares the stored slot.
    assert_eq!(g.glyph_lookup[&0x3044], g.glyph_lookup[&('A' as u16)]);

    let t = make_glyph_tables(&cfg, &g, &chars);
    assert_eq!(t.glyph_char_bits, 5);
    assert_eq!(t.glyph_check, vec![0x3042, 0x3044]);
    let shift = match t.divisor {
        16 => 4,
        8 => 3,
        4 => 2,
        2 => 1,
        _ => 0,
    };
    let mask = if t.hi_bits == 0 { 0 } else { t.divisor - 1 };
    let fb = g.glyph_lookup[&('?' as u16)];
    assert_eq!(t.fallback, (fb.0, fb.1));
    let font = FontTables::new(
        128,
        t.low_plane.clone(),
        Vec::new(),
        false,
        t.glyph_check.clone(),
        t.glyph_id_hi.clone(),
        t.glyph_id_lo.clone(),
        t.hi_bits,
        shift,
        mask,
        t.glyph_char_bits,
        false,
        (t.fallback.0 as u8, t.fallback.1 as u16, false),
    )
    .expect("the tables are well formed");
    for c in &chars {
        let e = g.glyph_lookup[&(c.ch as u16)];
        assert_eq!(font.get_font_glyph(c.ch as u32), (e.0 as u8, e.1 as u16, false));
    }
    // A code point the font lacks gives the fallback glyph.
    assert_eq!(font.get_font_glyph(0x4E00), (fb.0 as u8, fb.1 as u16, false));
}

#[test]
fn too_many_glyphs_fail() {
    let cfg = config(64, 64);
    let mut chars = Vec::new();
    for i in 0..80u32 {
        let ch = char::from_u32(0x3000 + i).unwrap();
        chars.push(CharacterInfo::new(ch, glyph(i as u64 + 10)));
    }
    assert!(build_planes(&cfg, &chars).is_none());
}

#[test]
fn small_low_plane_without_space() {
    // A low plane limit below the space and above the glyph slots is fine where no character
    // needs it.
    let cfg = config(16, 64);
    let chars = vec![CharacterInfo::new('\u{1}', glyph(1)), CharacterInfo::new('A', glyph(2))];
    let g = build_planes(&cfg, &chars).expect("the slots suffice");
    assert_eq!(g.glyph_lookup[&1], (1, 0, false));
    assert!(g.glyph_map.contains_key(&('A' as u16)));
    let wide = config(200, 128);
    let g = build_planes(&wide, &vec![CharacterInfo::new('A', glyph(2))]).expect("the slots suffice");
    assert_eq!(g.glyph_lookup[&('A' as u16)], (1, 16, false));
    assert_eq!(g.low_plane.len(), 200);
}

#[test]
fn ascii_font_tables() {
    let font = TerminalFontAscii::tables().expect("the built-in tables are well formed");
    assert_eq!(font.get_font_glyph('A' as u32), (1, 16, false));
    assert_eq!(font.get_font_glyph(' ' as u32), (0, 0, false));
    assert_eq!(font.get_font_glyph(0x4E00), (3, 15, false));
}

#[test]
fn marks_and_right_to_left_letters_are_left_out() {
    let mut cfg = config(128, 128);
    cfg.allow_all_blocks = false;
    cfg.whitelisted_blocks = &["Combining Diacritical Marks", "Hebrew", "Latin-1 Supplement"];
    assert!(!is_included(&cfg, &CharacterInfo::new('\u{301}', 0)));
    assert!(!is_included(&cfg, &CharacterInfo::new('\u{5D0}', 0)));
    assert!(is_included(&cfg, &CharacterInfo::new('\u{E9}', 0)));
    cfg.allow_all_blocks = true;
    assert!(!is_included(&cfg, &CharacterInfo::new('\u{301}', 0)));
    assert!(is_included(&cfg, &CharacterInfo::new('\u{2603}', 0)));
}
