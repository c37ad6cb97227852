//! Colors and the display status.
use crate::bits::{get_bits, set_bits};
use crate::mmio::display::DispStat;
use vstd::prelude::*;

verus! {

/// The 15-bit GBA color with the given 5-bit components.
pub open spec fn spec_rgb(r: u8, g: u8, b: u8) -> u16 {
    (r + 32 * g + 1024 * b) as u16
}

/// Packs three 5-bit color components into a GBA color.
///
/// Each component must be below 32.
pub fn rgb(r: u8, g: u8, b: u8) -> (c: u16)
    requires
        r < 32,
        g < 32,
        b < 32,
    ensures
        c == spec_rgb(r, g, b),
        c < 0x8000,
{
    let (r16, g16, b16) = (r as u16, g as u16, b as u16);
    assert(r16 | (g16 << 5u16) | (b16 << 10u16) == r16 + 32 * g16 + 1024 * b16) by (bit_vector)
        requires
            r16 < 32,
            g16 < 32,
            b16 < 32,
    ;
    r16 | (g16 << 5u16) | (b16 << 10u16)
}

/// The 5-bit component closest to an 8-bit component.
pub open spec fn spec_convert_24bpp_15bpp(ch: u8) -> u8 {
    (if ch > 239 {
        255
    } else {
        ch + 16
    }) as u8 / 8
}

/// Converts an 8-bit color component to a 5-bit one.
fn convert_24bpp_15bpp(ch: u8) -> (r: u8)
    ensures
        r == spec_convert_24bpp_15bpp(ch),
        r < 32,
{
    ch.saturating_add(16) / 8
}

/// Packs three 8-bit color components into a GBA color.
pub fn rgb_24bpp(r: u8, g: u8, b: u8) -> (c: u16)
    ensures
        c == spec_rgb(
            spec_convert_24bpp_15bpp(r),
            spec_convert_24bpp_15bpp(g),
            spec_convert_24bpp_15bpp(b),
        ),
{
    rgb(convert_24bpp_15bpp(r), convert_24bpp_15bpp(g), convert_24bpp_15bpp(b))
}

/// Returns whether the graphics chip is in a vertical blank period, given the value of the
/// display status register.
pub fn is_vblank(stat: DispStat) -> (r: bool)
    ensures
        r == (get_bits(stat@, 0, 1) == 1),
{
    stat.is_vblank()
}

/// Returns whether the graphics chip is in a horizontal blank period, given the value of the
/// display status register.
pub fn is_hblank(stat: DispStat) -> (r: bool)
    ensures
        r == (get_bits(stat@, 1, 1) == 1),
{
    stat.is_hblank()
}

/// Returns the scanline the graphics chip is processing, given the value of the scanline
/// counter register.
pub fn scanline(vcount: u16) -> (r: usize)
    ensures
        r == vcount,
{
    vcount as usize
}

/// The display status value that makes the `VCounter` interrupt trigger on scanline `count`,
/// given the current value of the register. The scanline must be between 0 and 227.
pub fn set_counter_scanline(stat: DispStat, count: usize) -> (r: DispStat)
    requires
        count <= 227,
    ensures
        r@ == set_bits(stat@, 8, 8, count as u32),
        get_bits(r@, 8, 8) == count,
{
    proof {
        crate::bits::lemma_fits_small(count as u32, 8);
        crate::bits::lemma_get_set_same(stat@, 8, 8, count as u32);
    }
    stat.with_vcount_scanline(count as u32)
}

} // verus!
