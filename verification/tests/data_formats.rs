use lgba::bits::{read_field, write_field};
use lgba::convert::{xfer_u8_u16, xfer_u8_u32};
use lgba::font_builder::files::make_u16_file;
use lgba::header::{byte_to_upper, calculate_complement, gba_header_template, set_header_field};

#[test]
fn read_and_write_fields() {
    assert_eq!(read_field(0xABCD_1234, 4, 8), 0x23);
    assert_eq!(read_field(0xABCD_1234, 28, 4), 0xA);
    assert_eq!(write_field(0xABCD_1234, 4, 8, 0xFF), 0xABCD_1FF4);
    assert_eq!(write_field(0, 31, 1, 1), 0x8000_0000);
    let v = write_field(0x1234_5678, 8, 12, 0xABC);
    assert_eq!(read_field(v, 8, 12), 0xABC);
    // Other fields are untouched.
    assert_eq!(read_field(v, 0, 8), 0x78);
    assert_eq!(read_field(v, 20, 12), 0x123);
}

#[test]
fn little_endian_words() {
    let data = [0x34u8, 0x12, 0xCD, 0xAB];
    assert_eq!(xfer_u8_u16(&data, 2), vec![0x1234, 0xABCD]);
    assert_eq!(xfer_u8_u32(&data, 1), vec![0xABCD_1234]);
    assert!(xfer_u8_u16(&[], 0).is_empty());
}

#[test]
fn u16_file_round_trips() {
    let words = [0x1234u16, 0x00FF, 0xFF00, 0];
    let bytes = make_u16_file(&words);
    assert_eq!(bytes, vec![0x34, 0x12, 0xFF, 0x00, 0x00, 0xFF, 0, 0]);
    assert_eq!(xfer_u8_u16(&bytes, 4), words.to_vec());
}

#[test]
fn header_template_layout() {
    let h = gba_header_template();
    assert_eq!(&h[0..8], b"LGBA_ROM");
    assert_eq!(&h[8..12], b"    ");
    assert_eq!(&h[12..16], b"LGBA");
    assert_eq!(&h[16..18], b"00");
    assert_eq!(h[18], 0x96);
    assert!(h[19..].iter().all(|b| *b == 0));
}

#[test]
fn header_fields_are_truncated_and_uppercased() {
    assert_eq!(byte_to_upper(b'a', true), b'A');
    assert_eq!(byte_to_upper(b'z', true), b'Z');
    assert_eq!(byte_to_upper(b'a', false), b'a');
    assert_eq!(byte_to_upper(b'_', true), b'_');
    let h = gba_header_template();
    let h = set_header_field(h, "my long game title", 0, 12, true);
    assert_eq!(&h[0..12], b"MY LONG GAME");
    assert_eq!(&h[12..16], b"LGBA");
    let h = set_header_field(h, "ab", 12, 4, false);
    assert_eq!(&h[12..16], b"abBA");
}

#[test]
fn complement_makes_header_sum_check() {
    let h = calculate_complement(gba_header_template());
    let sum: u32 = h[0..0x1E].iter().map(|b| *b as u32).sum::<u32>() + 0x19;
    assert_eq!(sum % 256, 0);
    let expected = {
        let s: u32 = h[0..0x1D].iter().map(|b| *b as u32).sum();
        ((256 - ((s + 0x19) % 256)) % 256) as u8
    };
    assert_eq!(h[0x1D], expected);
    // Everything else is unchanged.
    let t = gba_header_template();
    assert_eq!(&h[0..0x1D], &t[0..0x1D]);
    assert_eq!(&h[0x1E..], &t[0x1E..]);
}
