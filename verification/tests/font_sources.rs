use lgba::font_builder::chars::CharacterInfo;
use lgba::font_builder::sources::{
    parse_unscii, parse_unscii_line, sort_by_code_point, MisakiGlyph, UnsciiError,
};

#[test]
fn unscii_lines_are_read() {
    assert_eq!(
        parse_unscii_line(b"0041:183C66667E666600"),
        Ok(Some(CharacterInfo::new('A', 0x183C66667E666600)))
    );
    assert_eq!(parse_unscii_line(b"+3042:+ff"), Ok(Some(CharacterInfo::new('\u{3042}', 0xFF))));
    assert_eq!(parse_unscii_line(b"0000:0000000000000000"), Ok(None));
    // A further field after another colon is ignored.
    assert_eq!(parse_unscii_line(b"41:F0:junk"), Ok(Some(CharacterInfo::new('A', 0xF0))));
}

#[test]
fn unscii_line_errors() {
    assert_eq!(parse_unscii_line(b"0041"), Err(UnsciiError::MissingGlyph));
    assert_eq!(parse_unscii_line(b"zz:00"), Err(UnsciiError::BadNumber));
    assert_eq!(parse_unscii_line(b":00"), Err(UnsciiError::BadNumber));
    assert_eq!(parse_unscii_line(b"+:00"), Err(UnsciiError::BadNumber));
    assert_eq!(parse_unscii_line(b"100000000:00"), Err(UnsciiError::BadNumber));
    assert_eq!(parse_unscii_line(b"D800:00"), Err(UnsciiError::NotAChar));
    assert_eq!(parse_unscii_line(b"110000:00"), Err(UnsciiError::NotAChar));
    assert_eq!(parse_unscii_line(b"41:10000000000000000"), Err(UnsciiError::BadNumber));
    assert_eq!(parse_unscii_line(b"41:"), Err(UnsciiError::BadNumber));
    assert_eq!(parse_unscii_line(b"41:00\r"), Err(UnsciiError::BadNumber));
}

#[test]
fn unscii_file_skips_empty_lines_and_null() {
    let data = b"0000:00\n0041:FF\n\n0042:0F\n";
    let chars = parse_unscii(data).unwrap();
    assert_eq!(chars, vec![CharacterInfo::new('A', 0xFF), CharacterInfo::new('B', 0x0F)]);
    assert_eq!(parse_unscii(b""), Ok(vec![]));
    assert_eq!(parse_unscii(b"0041:FF\nbad\n0042:00"), Err(UnsciiError::MissingGlyph));
    assert_eq!(parse_unscii(b"0041:FF"), Ok(vec![CharacterInfo::new('A', 0xFF)]));
}

#[test]
fn characters_are_sorted_by_code_point() {
    let a = CharacterInfo::new('a', 1);
    let b = CharacterInfo::new('b', 2);
    let c = CharacterInfo::new('\u{3042}', 3);
    assert_eq!(sort_by_code_point(vec![c, a, b]), vec![a, b, c]);
    assert_eq!(sort_by_code_point(vec![]), vec![]);
    // Characters with one code point keep their order.
    let a2 = CharacterInfo::new('a', 9);
    assert_eq!(sort_by_code_point(vec![a2, c, a]), vec![a2, a, c]);
    assert_eq!(sort_by_code_point(vec![a, c, a2]), vec![a, a2, c]);
}

#[test]
fn misaki_glyphs_are_placed_in_the_cell() {
    // A full 8x8 glyph keeps its pixels where they are.
    let mut pixels = vec![false; 64];
    pixels[0] = true;
    pixels[63] = true;
    let g = MisakiGlyph { width: 8, height: 8, x: 0, y: 0, pixels };
    assert!(g.fits());
    assert_eq!(g.data(), 0x8000_0000_0000_0001);
    // A 3x2 glyph one column in, sitting on the baseline: rows 5 and 6 of the cell.
    let g = MisakiGlyph {
        width: 3,
        height: 2,
        x: 1,
        y: 0,
        pixels: vec![true, false, true, false, true, false],
    };
    assert!(g.fits());
    let row5 = 0b0101_0000u64 << (8 * (7 - 5));
    let row6 = 0b0010_0000u64 << (8 * (7 - 6));
    assert_eq!(g.data(), row5 | row6);
    // Raised by its offset.
    let g = MisakiGlyph { width: 1, height: 1, x: 0, y: 2, pixels: vec![true] };
    assert!(g.fits());
    assert_eq!(g.data(), 0x80u64 << (8 * (7 - 4)));
}

#[test]
fn misaki_glyphs_that_do_not_fit() {
    assert!(!MisakiGlyph { width: 1, height: 9, x: 0, y: 0, pixels: vec![false; 9] }.fits());
    assert!(!MisakiGlyph { width: 2, height: 8, x: 7, y: 0, pixels: vec![false; 16] }.fits());
    assert!(!MisakiGlyph { width: 1, height: 1, x: -1, y: 0, pixels: vec![false] }.fits());
    assert!(!MisakiGlyph { width: 1, height: 7, x: 0, y: 1, pixels: vec![false; 7] }.fits());
    assert!(!MisakiGlyph { width: 2, height: 2, x: 0, y: 0, pixels: vec![false; 3] }.fits());
}
