//! Register layouts of the graphics chip.
use crate::bits::{get_bits, lemma_fits_small, lemma_set_u16, read_field, set_bits, write_field};
use crate::mmio::sets::{BlendTargetSet, WinTargetSet};
use vstd::prelude::*;

verus! {

/// Represents one of the graphical display modes.
#[derive(Copy, Clone, Debug, PartialEq, Eq, Structural)]
pub enum DispMode {
    /// A graphics mode with four tile-based background layers.
    Mode0,
    /// A graphics mode with three tile-based background layers, one of which can be rotated and scaled.
    Mode1,
    /// A graphics mode with two tiled background layers, both of which can be rotated and scaled.
    Mode2,
    /// A graphics mode with a single 16bpp full-resolution bitmap background layer.
    Mode3,
    /// A graphics mode with a single double-buffered paletted 8bpp full-resolution bitmap layer.
    Mode4,
    /// A graphics mode with a single double-buffered 16bpp half-resolution bitmap layer.
    Mode5,
}
impl DispMode {
    /// The numeric value of this variant in a register.
    pub open spec fn code(self) -> u32 {
        match self {
            DispMode::Mode0 => 0,
            DispMode::Mode1 => 1,
            DispMode::Mode2 => 2,
            DispMode::Mode3 => 3,
            DispMode::Mode4 => 4,
            DispMode::Mode5 => 5,
        }
    }

    /// The variant with a given numeric value.
    pub open spec fn from_code(c: u32) -> Self {
        if c == 0 { DispMode::Mode0 } else if c == 1 { DispMode::Mode1 } else if c == 2 { DispMode::Mode2 } else if c == 3 { DispMode::Mode3 } else if c == 4 { DispMode::Mode4 } else { DispMode::Mode5 }
    }

    /// Converts this variant to its numeric value.
    pub fn to_u16(self) -> (r: u16)
        ensures
            r as u32 == self.code(),
            r < 6,
    {
        match self {
            DispMode::Mode0 => 0,
            DispMode::Mode1 => 1,
            DispMode::Mode2 => 2,
            DispMode::Mode3 => 3,
            DispMode::Mode4 => 4,
            DispMode::Mode5 => 5,
        }
    }

    /// Converts a numeric value to a variant, if it names one.
    pub fn try_from_u16(v: u16) -> (r: Option<Self>)
        ensures
            r.is_some() == (v < 6),
            r matches Some(m) ==> m.code() == v as u32 && m == Self::from_code(v as u32),
    {
        if v == 0 { Some(DispMode::Mode0) } else if v == 1 { Some(DispMode::Mode1) } else if v == 2 { Some(DispMode::Mode2) } else if v == 3 { Some(DispMode::Mode3) } else if v == 4 { Some(DispMode::Mode4) } else if v == 5 { Some(DispMode::Mode5) } else { None }
    }
}

/// The register value of every variant is in range, and converting it back gives the
/// variant.
pub proof fn lemma_disp_mode_code(m: DispMode)
    ensures
        m.code() < 6,
        DispMode::from_code(m.code()) == m,
{
}

/// Represents one of the blending modes of the GBA.
#[derive(Copy, Clone, Debug, PartialEq, Eq, Structural)]
pub enum BlendingMode {
    /// No blending is applied.
    NoBlending,
    /// The two targets are mixed.
    Alpha,
    /// The first target is lightened by the second.
    Lighten,
    /// The first target is darkened by the second.
    Darken,
}
impl BlendingMode {
    /// The numeric value of this variant in a register.
    pub open spec fn code(self) -> u32 {
        match self {
            BlendingMode::NoBlending => 0,
            BlendingMode::Alpha => 1,
            BlendingMode::Lighten => 2,
            BlendingMode::Darken => 3,
        }
    }

    /// The variant with a given numeric value.
    pub open spec fn from_code(c: u32) -> Self {
        if c == 0 { BlendingMode::NoBlending } else if c == 1 { BlendingMode::Alpha } else if c == 2 { BlendingMode::Lighten } else { BlendingMode::Darken }
    }

    /// Converts this variant to its numeric value.
    pub fn to_u16(self) -> (r: u16)
        ensures
            r as u32 == self.code(),
            r < 4,
    {
        match self {
            BlendingMode::NoBlending => 0,
            BlendingMode::Alpha => 1,
            BlendingMode::Lighten => 2,
            BlendingMode::Darken => 3,
        }
    }

    /// Converts a numeric value to a variant, if it names one.
    pub fn try_from_u16(v: u16) -> (r: Option<Self>)
        ensures
            r.is_some() == (v < 4),
            r matches Some(m) ==> m.code() == v as u32 && m == Self::from_code(v as u32),
    {
        if v == 0 { Some(BlendingMode::NoBlending) } else if v == 1 { Some(BlendingMode::Alpha) } else if v == 2 { Some(BlendingMode::Lighten) } else if v == 3 { Some(BlendingMode::Darken) } else { None }
    }
}

/// The register value of every variant is in range, and converting it back gives the
/// variant.
pub proof fn lemma_blending_mode_code(m: BlendingMode)
    ensures
        m.code() < 4,
        BlendingMode::from_code(m.code()) == m,
{
}

/// Controls which special effects an object is rendered using.
#[derive(Copy, Clone, Debug, PartialEq, Eq, Structural)]
pub enum ObjMode {
    /// Render this object with no special effects.
    Normal,
    /// Applies the alpha blending settings to this object.
    SemiTransparent,
    /// Apply the OBJ Window to the object.
    ObjWindow,
}
impl ObjMode {
    /// The numeric value of this variant in a register.
    pub open spec fn code(self) -> u32 {
        match self {
            ObjMode::Normal => 0,
            ObjMode::SemiTransparent => 1,
            ObjMode::ObjWindow => 2,
        }
    }

    /// The variant with a given numeric value.
    pub open spec fn from_code(c: u32) -> Self {
        if c == 0 { ObjMode::Normal } else if c == 1 { ObjMode::SemiTransparent } else { ObjMode::ObjWindow }
    }

    /// Converts this variant to its numeric value.
    pub fn to_u16(self) -> (r: u16)
        ensures
            r as u32 == self.code(),
            r < 3,
    {
        match self {
            ObjMode::Normal => 0,
            ObjMode::SemiTransparent => 1,
            ObjMode::ObjWindow => 2,
        }
    }

    /// Converts a numeric value to a variant, if it names one.
    pub fn try_from_u16(v: u16) -> (r: Option<Self>)
        ensures
            r.is_some() == (v < 3),
            r matches Some(m) ==> m.code() == v as u32 && m == Self::from_code(v as u32),
    {
        if v == 0 { Some(ObjMode::Normal) } else if v == 1 { Some(ObjMode::SemiTransparent) } else if v == 2 { Some(ObjMode::ObjWindow) } else { None }
    }
}

/// The register value of every variant is in range, and converting it back gives the
/// variant.
pub proof fn lemma_obj_mode_code(m: ObjMode)
    ensures
        m.code() < 3,
        ObjMode::from_code(m.code()) == m,
{
}

/// The shape of an object.
#[derive(Copy, Clone, Debug, PartialEq, Eq, Structural)]
pub enum ObjShape {
    /// A square object.
    Square,
    /// A wide object.
    Horizontal,
    /// A tall object.
    Vertical,
}
impl ObjShape {
    /// The numeric value of this variant in a register.
    pub open spec fn code(self) -> u32 {
        match self {
            ObjShape::Square => 0,
            ObjShape::Horizontal => 1,
            ObjShape::Vertical => 2,
        }
    }

    /// The variant with a given numeric value.
    pub open spec fn from_code(c: u32) -> Self {
        if c == 0 { ObjShape::Square } else if c == 1 { ObjShape::Horizontal } else { ObjShape::Vertical }
    }

    /// Converts this variant to its numeric value.
    pub fn to_u16(self) -> (r: u16)
        ensures
            r as u32 == self.code(),
            r < 3,
    {
        match self {
            ObjShape::Square => 0,
            ObjShape::Horizontal => 1,
            ObjShape::Vertical => 2,
        }
    }

    /// Converts a numeric value to a variant, if it names one.
    pub fn try_from_u16(v: u16) -> (r: Option<Self>)
        ensures
            r.is_some() == (v < 3),
            r matches Some(m) ==> m.code() == v as u32 && m == Self::from_code(v as u32),
    {
        if v == 0 { Some(ObjShape::Square) } else if v == 1 { Some(ObjShape::Horizontal) } else if v == 2 { Some(ObjShape::Vertical) } else { None }
    }
}

/// The register value of every variant is in range, and converting it back gives the
/// variant.
pub proof fn lemma_obj_shape_code(m: ObjShape)
    ensures
        m.code() < 3,
        ObjShape::from_code(m.code()) == m,
{
}

/// Controls the overall behavior of the LCD display.
#[derive(Copy, Clone, Debug, PartialEq, Eq, Structural)]
pub struct DispCnt(u16);
impl View for DispCnt {
    type V = u32;
    closed spec fn view(&self) -> u32 {
        self.0 as u32
    }
}
impl Default for DispCnt {
    fn default() -> (r: Self)
        ensures
            r@ == 0,
    {
        DispCnt(0)
    }
}
impl DispCnt {
    /// Every value fits in 16 bits.
    pub proof fn lemma_bounded(self)
        ensures
            self@ < 0x10000,
    {
    }

    /// The value with all fields zero.
    pub fn new() -> (r: Self)
        ensures
            r@ == 0,
    {
        DispCnt(0)
    }

    /// Builds a value from its raw register bits.
    pub fn from_bits(bits: u16) -> (r: Self)
        ensures
            r@ == bits as u32,
    {
        DispCnt(bits)
    }

    /// The raw register bits of this value.
    pub fn bits(&self) -> (r: u16)
        ensures
            r as u32 == self@,
    {
        self.0
    }

    /// The display mode in use.
    pub fn mode(&self) -> (r: DispMode)
        requires
            get_bits(self@, 0, 3) < 6,
        ensures
            r.code() == get_bits(self@, 0, 3),
    {
        let v = read_field(self.0 as u32, 0, 3);
        DispMode::try_from_u16(v as u16).unwrap()
    }

    /// Sets the [`mode`](`DispCnt::mode`) field.
    pub fn with_mode(self, value: DispMode) -> (r: Self)
        ensures
            r@ == set_bits(self@, 0, 3, value.code()),
    {
        let x = value.to_u16() as u32;
        proof {
            lemma_fits_small(x, 3);
        }
        let v = write_field(self.0 as u32, 0, 3, x);
        proof {
            lemma_set_u16(self.0 as u32, 0, 3, x);
        }
        DispCnt(v as u16)
    }

    /// Whether frame 0 or 1 is active for bitmap modes 4 and 5.
    pub fn active_frame(&self) -> (r: usize)
        ensures
            r as int == get_bits(self@, 4, 1) as int,
            r < 2,
    {
        let v = read_field(self.0 as u32, 4, 1);
        proof {
            lemma_fits_small(v, 1);
        }
        v as usize
    }

    /// Sets the [`active_frame`](`DispCnt::active_frame`) field.
    pub fn with_active_frame(self, value: usize) -> (r: Self)
        requires
            value < 2,
        ensures
            r@ == set_bits(self@, 4, 1, value as u32),
    {
        let x = value as u32;
        proof {
            lemma_fits_small(x, 1);
        }
        let v = write_field(self.0 as u32, 4, 1, x);
        proof {
            lemma_set_u16(self.0 as u32, 4, 1, x);
        }
        DispCnt(v as u16)
    }

    /// Whether OAM may be accessed during horizontal blank.
    pub fn hblank_oam_access(&self) -> (r: bool)
        ensures
            r == (get_bits(self@, 5, 1) == 1),
    {
        read_field(self.0 as u32, 5, 1) == 1
    }

    /// Sets the [`hblank_oam_access`](`DispCnt::hblank_oam_access`) field.
    pub fn with_hblank_oam_access(self, value: bool) -> (r: Self)
        ensures
            r@ == set_bits(self@, 5, 1, if value { 1 } else { 0 }),
    {
        let x: u32 = if value { 1 } else { 0 };
        proof {
            lemma_fits_small(x, 1);
        }
        let v = write_field(self.0 as u32, 5, 1, x);
        proof {
            lemma_set_u16(self.0 as u32, 5, 1, x);
        }
        DispCnt(v as u16)
    }

    /// Whether OBJ character VRAM is mapped in two dimensions.
    pub fn use_2d_obj_vram(&self) -> (r: bool)
        ensures
            r == (get_bits(self@, 6, 1) == 1),
    {
        read_field(self.0 as u32, 6, 1) == 1
    }

    /// Sets the [`use_2d_obj_vram`](`DispCnt::use_2d_obj_vram`) field.
    pub fn with_use_2d_obj_vram(self, value: bool) -> (r: Self)
        ensures
            r@ == set_bits(self@, 6, 1, if value { 1 } else { 0 }),
    {
        let x: u32 = if value { 1 } else { 0 };
        proof {
            lemma_fits_small(x, 1);
        }
        let v = write_field(self.0 as u32, 6, 1, x);
        proof {
            lemma_set_u16(self.0 as u32, 6, 1, x);
        }
        DispCnt(v as u16)
    }

    /// Whether the screen is blanked.
    pub fn forced_blank(&self) -> (r: bool)
        ensures
            r == (get_bits(self@, 7, 1) == 1),
    {
        read_field(self.0 as u32, 7, 1) == 1
    }

    /// Sets the [`forced_blank`](`DispCnt::forced_blank`) field.
    pub fn with_forced_blank(self, value: bool) -> (r: Self)
        ensures
            r@ == set_bits(self@, 7, 1, if value { 1 } else { 0 }),
    {
        let x: u32 = if value { 1 } else { 0 };
        proof {
            lemma_fits_small(x, 1);
        }
        let v = write_field(self.0 as u32, 7, 1, x);
        proof {
            lemma_set_u16(self.0 as u32, 7, 1, x);
        }
        DispCnt(v as u16)
    }

    /// Whether BG0 is displayed.
    pub fn display_bg0(&self) -> (r: bool)
        ensures
            r == (get_bits(self@, 8, 1) == 1),
    {
        read_field(self.0 as u32, 8, 1) == 1
    }

    /// Sets the [`display_bg0`](`DispCnt::display_bg0`) field.
    pub fn with_display_bg0(self, value: bool) -> (r: Self)
        ensures
            r@ == set_bits(self@, 8, 1, if value { 1 } else { 0 }),
    {
        let x: u32 = if value { 1 } else { 0 };
        proof {
            lemma_fits_small(x, 1);
        }
        let v = write_field(self.0 as u32, 8, 1, x);
        proof {
            lemma_set_u16(self.0 as u32, 8, 1, x);
        }
        DispCnt(v as u16)
    }

    /// Whether BG1 is displayed.
    pub fn display_bg1(&self) -> (r: bool)
        ensures
            r == (get_bits(self@, 9, 1) == 1),
    {
        read_field(self.0 as u32, 9, 1) == 1
    }

    /// Sets the [`display_bg1`](`DispCnt::display_bg1`) field.
    pub fn with_display_bg1(self, value: bool) -> (r: Self)
        ensures
            r@ == set_bits(self@, 9, 1, if value { 1 } else { 0 }),
    {
        let x: u32 = if value { 1 } else { 0 };
        proof {
            lemma_fits_small(x, 1);
        }
        let v = write_field(self.0 as u32, 9, 1, x);
        proof {
            lemma_set_u16(self.0 as u32, 9, 1, x);
        }
        DispCnt(v as u16)
    }

    /// Whether BG2 is displayed.
    pub fn display_bg2(&self) -> (r: bool)
        ensures
            r == (get_bits(self@, 10, 1) == 1),
    {
        read_field(self.0 as u32, 10, 1) == 1
    }

    /// Sets the [`display_bg2`](`DispCnt::display_bg2`) field.
    pub fn with_display_bg2(self, value: bool) -> (r: Self)
        ensures
            r@ == set_bits(self@, 10, 1, if value { 1 } else { 0 }),
    {
        let x: u32 = if value { 1 } else { 0 };
        proof {
            lemma_fits_small(x, 1);
        }
        let v = write_field(self.0 as u32, 10, 1, x);
        proof {
            lemma_set_u16(self.0 as u32, 10, 1, x);
        }
        DispCnt(v as u16)
    }

    /// Whether BG3 is displayed.
    pub fn display_bg3(&self) -> (r: bool)
        ensures
            r == (get_bits(self@, 11, 1) == 1),
    {
        read_field(self.0 as u32, 11, 1) == 1
    }

    /// Sets the [`display_bg3`](`DispCnt::display_bg3`) field.
    pub fn with_display_bg3(self, value: bool) -> (r: Self)
        ensures
            r@ == set_bits(self@, 11, 1, if value { 1 } else { 0 }),
    {
        let x: u32 = if value { 1 } else { 0 };
        proof {
            lemma_fits_small(x, 1);
        }
        let v = write_field(self.0 as u32, 11, 1, x);
        proof {
            lemma_set_u16(self.0 as u32, 11, 1, x);
        }
        DispCnt(v as u16)
    }

    /// Whether OBJs are displayed.
    pub fn display_obj(&self) -> (r: bool)
        ensures
            r == (get_bits(self@, 12, 1) == 1),
    {
        read_field(self.0 as u32, 12, 1) == 1
    }

    /// Sets the [`display_obj`](`DispCnt::display_obj`) field.
    pub fn with_display_obj(self, value: bool) -> (r: Self)
        ensures
            r@ == set_bits(self@, 12, 1, if value { 1 } else { 0 }),
    {
        let x: u32 = if value { 1 } else { 0 };
        proof {
            lemma_fits_small(x, 1);
        }
        let v = write_field(self.0 as u32, 12, 1, x);
        proof {
            lemma_set_u16(self.0 as u32, 12, 1, x);
        }
        DispCnt(v as u16)
    }

    /// Whether window 0 is used.
    pub fn use_window_0(&self) -> (r: bool)
        ensures
            r == (get_bits(self@, 13, 1) == 1),
    {
        read_field(self.0 as u32, 13, 1) == 1
    }

    /// Sets the [`use_window_0`](`DispCnt::use_window_0`) field.
    pub fn with_use_window_0(self, value: bool) -> (r: Self)
        ensures
            r@ == set_bits(self@, 13, 1, if value { 1 } else { 0 }),
    {
        let x: u32 = if value { 1 } else { 0 };
        proof {
            lemma_fits_small(x, 1);
        }
        let v = write_field(self.0 as u32, 13, 1, x);
        proof {
            lemma_set_u16(self.0 as u32, 13, 1, x);
        }
        DispCnt(v as u16)
    }

    /// Whether window 1 is used.
    pub fn use_window_1(&self) -> (r: bool)
        ensures
            r == (get_bits(self@, 14, 1) == 1),
    {
        read_field(self.0 as u32, 14, 1) == 1
    }

    /// Sets the [`use_window_1`](`DispCnt::use_window_1`) field.
    pub fn with_use_window_1(self, value: bool) -> (r: Self)
        ensures
            r@ == set_bits(self@, 14, 1, if value { 1 } else { 0 }),
    {
        let x: u32 = if value { 1 } else { 0 };
        proof {
            lemma_fits_small(x, 1);
        }
        let v = write_field(self.0 as u32, 14, 1, x);
        proof {
            lemma_set_u16(self.0 as u32, 14, 1, x);
        }
        DispCnt(v as u16)
    }

    /// Whether the OBJ window is used.
    pub fn use_obj_window(&self) -> (r: bool)
        ensures
            r == (get_bits(self@, 15, 1) == 1),
    {
        read_field(self.0 as u32, 15, 1) == 1
    }

    /// Sets the [`use_obj_window`](`DispCnt::use_obj_window`) field.
    pub fn with_use_obj_window(self, value: bool) -> (r: Self)
        ensures
            r@ == set_bits(self@, 15, 1, if value { 1 } else { 0 }),
    {
        let x: u32 = if value { 1 } else { 0 };
        proof {
            lemma_fits_small(x, 1);
        }
        let v = write_field(self.0 as u32, 15, 1, x);
        proof {
            lemma_set_u16(self.0 as u32, 15, 1, x);
        }
        DispCnt(v as u16)
    }
}

/// Used to retrieve the status of graphics rendering, and control rendering interrupts.
#[derive(Copy, Clone, Debug, PartialEq, Eq, Structural)]
pub struct DispStat(u16);
impl View for DispStat {
    type V = u32;
    closed spec fn view(&self) -> u32 {
        self.0 as u32
    }
}
impl Default for DispStat {
    fn default() -> (r: Self)
        ensures
            r@ == 0,
    {
        DispStat(0)
    }
}
impl DispStat {
    /// Every value fits in 16 bits.
    pub proof fn lemma_bounded(self)
        ensures
            self@ < 0x10000,
    {
    }

    /// The value with all fields zero.
    pub fn new() -> (r: Self)
        ensures
            r@ == 0,
    {
        DispStat(0)
    }

    /// Builds a value from its raw register bits.
    pub fn from_bits(bits: u16) -> (r: Self)
        ensures
            r@ == bits as u32,
    {
        DispStat(bits)
    }

    /// The raw register bits of this value.
    pub fn bits(&self) -> (r: u16)
        ensures
            r as u32 == self@,
    {
        self.0
    }

    /// Whether the graphics chip is currently in vblank.
    pub fn is_vblank(&self) -> (r: bool)
        ensures
            r == (get_bits(self@, 0, 1) == 1),
    {
        read_field(self.0 as u32, 0, 1) == 1
    }

    /// Sets the [`is_vblank`](`DispStat::is_vblank`) field.
    pub fn with_is_vblank(self, value: bool) -> (r: Self)
        ensures
            r@ == set_bits(self@, 0, 1, if value { 1 } else { 0 }),
    {
        let x: u32 = if value { 1 } else { 0 };
        proof {
            lemma_fits_small(x, 1);
        }
        let v = write_field(self.0 as u32, 0, 1, x);
        proof {
            lemma_set_u16(self.0 as u32, 0, 1, x);
        }
        DispStat(v as u16)
    }

    /// Whether the graphics chip is currently in hblank.
    pub fn is_hblank(&self) -> (r: bool)
        ensures
            r == (get_bits(self@, 1, 1) == 1),
    {
        read_field(self.0 as u32, 1, 1) == 1
    }

    /// Sets the [`is_hblank`](`DispStat::is_hblank`) field.
    pub fn with_is_hblank(self, value: bool) -> (r: Self)
        ensures
            r@ == set_bits(self@, 1, 1, if value { 1 } else { 0 }),
    {
        let x: u32 = if value { 1 } else { 0 };
        proof {
            lemma_fits_small(x, 1);
        }
        let v = write_field(self.0 as u32, 1, 1, x);
        proof {
            lemma_set_u16(self.0 as u32, 1, 1, x);
        }
        DispStat(v as u16)
    }

    /// Whether the current scanline matches the `vcount_scanline` setting.
    pub fn is_vcount(&self) -> (r: bool)
        ensures
            r == (get_bits(self@, 2, 1) == 1),
    {
        read_field(self.0 as u32, 2, 1) == 1
    }

    /// Sets the [`is_vcount`](`DispStat::is_vcount`) field.
    pub fn with_is_vcount(self, value: bool) -> (r: Self)
        ensures
            r@ == set_bits(self@, 2, 1, if value { 1 } else { 0 }),
    {
        let x: u32 = if value { 1 } else { 0 };
        proof {
            lemma_fits_small(x, 1);
        }
        let v = write_field(self.0 as u32, 2, 1, x);
        proof {
            lemma_set_u16(self.0 as u32, 2, 1, x);
        }
        DispStat(v as u16)
    }

    /// Whether to send an IRQ when vblank is reached.
    pub fn vblank_irq_enabled(&self) -> (r: bool)
        ensures
            r == (get_bits(self@, 3, 1) == 1),
    {
        read_field(self.0 as u32, 3, 1) == 1
    }

    /// Sets the [`vblank_irq_enabled`](`DispStat::vblank_irq_enabled`) field.
    pub fn with_vblank_irq_enabled(self, value: bool) -> (r: Self)
        ensures
            r@ == set_bits(self@, 3, 1, if value { 1 } else { 0 }),
    {
        let x: u32 = if value { 1 } else { 0 };
        proof {
            lemma_fits_small(x, 1);
        }
        let v = write_field(self.0 as u32, 3, 1, x);
        proof {
            lemma_set_u16(self.0 as u32, 3, 1, x);
        }
        DispStat(v as u16)
    }

    /// Whether to send an IRQ when hblank is reached.
    pub fn hblank_irq_enabled(&self) -> (r: bool)
        ensures
            r == (get_bits(self@, 4, 1) == 1),
    {
        read_field(self.0 as u32, 4, 1) == 1
    }

    /// Sets the [`hblank_irq_enabled`](`DispStat::hblank_irq_enabled`) field.
    pub fn with_hblank_irq_enabled(self, value: bool) -> (r: Self)
        ensures
            r@ == set_bits(self@, 4, 1, if value { 1 } else { 0 }),
    {
        let x: u32 = if value { 1 } else { 0 };
        proof {
            lemma_fits_small(x, 1);
        }
        let v = write_field(self.0 as u32, 4, 1, x);
        proof {
            lemma_set_u16(self.0 as u32, 4, 1, x);
        }
        DispStat(v as u16)
    }

    /// Whether to send an IRQ when the `vcount_scanline` scanline is reached.
    pub fn vcount_irq_enabled(&self) -> (r: bool)
        ensures
            r == (get_bits(self@, 5, 1) == 1),
    {
        read_field(self.0 as u32, 5, 1) == 1
    }

    /// Sets the [`vcount_irq_enabled`](`DispStat::vcount_irq_enabled`) field.
    pub fn with_vcount_irq_enabled(self, value: bool) -> (r: Self)
        ensures
            r@ == set_bits(self@, 5, 1, if value { 1 } else { 0 }),
    {
        let x: u32 = if value { 1 } else { 0 };
        proof {
            lemma_fits_small(x, 1);
        }
        let v = write_field(self.0 as u32, 5, 1, x);
        proof {
            lemma_set_u16(self.0 as u32, 5, 1, x);
        }
        DispStat(v as u16)
    }

    /// The scanline used by `is_vcount` and `vcount_irq_enabled`.
    pub fn vcount_scanline(&self) -> (r: u32)
        ensures
            r as int == get_bits(self@, 8, 8) as int,
            r < 256,
    {
        let v = read_field(self.0 as u32, 8, 8);
        proof {
            lemma_fits_small(v, 8);
        }
        v as u32
    }

    /// Sets the [`vcount_scanline`](`DispStat::vcount_scanline`) field.
    pub fn with_vcount_scanline(self, value: u32) -> (r: Self)
        requires
            value < 256,
        ensures
            r@ == set_bits(self@, 8, 8, value as u32),
    {
        let x = value as u32;
        proof {
            lemma_fits_small(x, 8);
        }
        let v = write_field(self.0 as u32, 8, 8, x);
        proof {
            lemma_set_u16(self.0 as u32, 8, 8, x);
        }
        DispStat(v as u16)
    }
}

/// Used to control the behavior of a background layer.
#[derive(Copy, Clone, Debug, PartialEq, Eq, Structural)]
pub struct BgCnt(u16);
impl View for BgCnt {
    type V = u32;
    closed spec fn view(&self) -> u32 {
        self.0 as u32
    }
}
impl Default for BgCnt {
    fn default() -> (r: Self)
        ensures
            r@ == 0,
    {
        BgCnt(0)
    }
}
impl BgCnt {
    /// Every value fits in 16 bits.
    pub proof fn lemma_bounded(self)
        ensures
            self@ < 0x10000,
    {
    }

    /// The value with all fields zero.
    pub fn new() -> (r: Self)
        ensures
            r@ == 0,
    {
        BgCnt(0)
    }

    /// Builds a value from its raw register bits.
    pub fn from_bits(bits: u16) -> (r: Self)
        ensures
            r@ == bits as u32,
    {
        BgCnt(bits)
    }

    /// The raw register bits of this value.
    pub fn bits(&self) -> (r: u16)
        ensures
            r as u32 == self@,
    {
        self.0
    }

    /// The priority of the layer.
    pub fn bg_priority(&self) -> (r: u32)
        ensures
            r as int == get_bits(self@, 0, 2) as int,
            r < 4,
    {
        let v = read_field(self.0 as u32, 0, 2);
        proof {
            lemma_fits_small(v, 2);
        }
        v as u32
    }

    /// Sets the [`bg_priority`](`BgCnt::bg_priority`) field.
    pub fn with_bg_priority(self, value: u32) -> (r: Self)
        requires
            value < 4,
        ensures
            r@ == set_bits(self@, 0, 2, value as u32),
    {
        let x = value as u32;
        proof {
            lemma_fits_small(x, 2);
        }
        let v = write_field(self.0 as u32, 0, 2, x);
        proof {
            lemma_set_u16(self.0 as u32, 0, 2, x);
        }
        BgCnt(v as u16)
    }

    /// The character data base block.
    pub fn char_base(&self) -> (r: usize)
        ensures
            r as int == get_bits(self@, 2, 2) as int,
            r < 4,
    {
        let v = read_field(self.0 as u32, 2, 2);
        proof {
            lemma_fits_small(v, 2);
        }
        v as usize
    }

    /// Sets the [`char_base`](`BgCnt::char_base`) field.
    pub fn with_char_base(self, value: usize) -> (r: Self)
        requires
            value < 4,
        ensures
            r@ == set_bits(self@, 2, 2, value as u32),
    {
        let x = value as u32;
        proof {
            lemma_fits_small(x, 2);
        }
        let v = write_field(self.0 as u32, 2, 2, x);
        proof {
            lemma_set_u16(self.0 as u32, 2, 2, x);
        }
        BgCnt(v as u16)
    }

    /// Whether the mosaic effect is enabled.
    pub fn enable_mosaic(&self) -> (r: bool)
        ensures
            r == (get_bits(self@, 6, 1) == 1),
    {
        read_field(self.0 as u32, 6, 1) == 1
    }

    /// Sets the [`enable_mosaic`](`BgCnt::enable_mosaic`) field.
    pub fn with_mosaic(self, value: bool) -> (r: Self)
        ensures
            r@ == set_bits(self@, 6, 1, if value { 1 } else { 0 }),
    {
        let x: u32 = if value { 1 } else { 0 };
        proof {
            lemma_fits_small(x, 1);
        }
        let v = write_field(self.0 as u32, 6, 1, x);
        proof {
            lemma_set_u16(self.0 as u32, 6, 1, x);
        }
        BgCnt(v as u16)
    }

    /// Whether 256-color palettes are used.
    pub fn enable_256_color(&self) -> (r: bool)
        ensures
            r == (get_bits(self@, 7, 1) == 1),
    {
        read_field(self.0 as u32, 7, 1) == 1
    }

    /// Sets the [`enable_256_color`](`BgCnt::enable_256_color`) field.
    pub fn with_enable_256_color(self, value: bool) -> (r: Self)
        ensures
            r@ == set_bits(self@, 7, 1, if value { 1 } else { 0 }),
    {
        let x: u32 = if value { 1 } else { 0 };
        proof {
            lemma_fits_small(x, 1);
        }
        let v = write_field(self.0 as u32, 7, 1, x);
        proof {
            lemma_set_u16(self.0 as u32, 7, 1, x);
        }
        BgCnt(v as u16)
    }

    /// The tile map base block.
    pub fn tile_map_base(&self) -> (r: usize)
        ensures
            r as int == get_bits(self@, 8, 5) as int,
            r < 32,
    {
        let v = read_field(self.0 as u32, 8, 5);
        proof {
            lemma_fits_small(v, 5);
        }
        v as usize
    }

    /// Sets the [`tile_map_base`](`BgCnt::tile_map_base`) field.
    pub fn with_tile_map_base(self, value: usize) -> (r: Self)
        requires
            value < 32,
        ensures
            r@ == set_bits(self@, 8, 5, value as u32),
    {
        let x = value as u32;
        proof {
            lemma_fits_small(x, 5);
        }
        let v = write_field(self.0 as u32, 8, 5, x);
        proof {
            lemma_set_u16(self.0 as u32, 8, 5, x);
        }
        BgCnt(v as u16)
    }

    /// The tile map size.
    pub fn screen_size(&self) -> (r: u32)
        ensures
            r as int == get_bits(self@, 14, 2) as int,
            r < 4,
    {
        let v = read_field(self.0 as u32, 14, 2);
        proof {
            lemma_fits_small(v, 2);
        }
        v as u32
    }

    /// Sets the [`screen_size`](`BgCnt::screen_size`) field.
    pub fn with_screen_size(self, value: u32) -> (r: Self)
        requires
            value < 4,
        ensures
            r@ == set_bits(self@, 14, 2, value as u32),
    {
        let x = value as u32;
        proof {
            lemma_fits_small(x, 2);
        }
        let v = write_field(self.0 as u32, 14, 2, x);
        proof {
            lemma_set_u16(self.0 as u32, 14, 2, x);
        }
        BgCnt(v as u16)
    }
}

/// A 32-bit fixed point value.
#[derive(Copy, Clone, Debug, PartialEq, Eq, Structural)]
pub struct GbaFrac32(u32);
impl View for GbaFrac32 {
    type V = u32;
    closed spec fn view(&self) -> u32 {
        self.0 as u32
    }
}
impl Default for GbaFrac32 {
    fn default() -> (r: Self)
        ensures
            r@ == 0,
    {
        GbaFrac32(0)
    }
}
impl GbaFrac32 {
    /// The value with all fields zero.
    pub fn new() -> (r: Self)
        ensures
            r@ == 0,
    {
        GbaFrac32(0)
    }

    /// Builds a value from its raw register bits.
    pub fn from_bits(bits: u32) -> (r: Self)
        ensures
            r@ == bits as u32,
    {
        GbaFrac32(bits)
    }

    /// The raw register bits of this value.
    pub fn bits(&self) -> (r: u32)
        ensures
            r as u32 == self@,
    {
        self.0
    }

    /// The fractional part.
    pub fn frac(&self) -> (r: u32)
        ensures
            r as int == get_bits(self@, 0, 8) as int,
            r < 256,
    {
        let v = read_field(self.0 as u32, 0, 8);
        proof {
            lemma_fits_small(v, 8);
        }
        v as u32
    }

    /// Sets the [`frac`](`GbaFrac32::frac`) field.
    pub fn with_frac(self, value: u32) -> (r: Self)
        requires
            value < 256,
        ensures
            r@ == set_bits(self@, 0, 8, value as u32),
    {
        let x = value as u32;
        proof {
            lemma_fits_small(x, 8);
        }
        let v = write_field(self.0 as u32, 0, 8, x);
        GbaFrac32(v)
    }

    /// The integer part.
    pub fn integer(&self) -> (r: u32)
        ensures
            r as int == get_bits(self@, 8, 19) as int,
            r < 524288,
    {
        let v = read_field(self.0 as u32, 8, 19);
        proof {
            lemma_fits_small(v, 19);
        }
        v as u32
    }

    /// Sets the [`integer`](`GbaFrac32::integer`) field.
    pub fn with_integer(self, value: u32) -> (r: Self)
        requires
            value < 524288,
        ensures
            r@ == set_bits(self@, 8, 19, value as u32),
    {
        let x = value as u32;
        proof {
            lemma_fits_small(x, 19);
        }
        let v = write_field(self.0 as u32, 8, 19, x);
        GbaFrac32(v)
    }

    /// The sign.
    pub fn sign(&self) -> (r: bool)
        ensures
            r == (get_bits(self@, 27, 1) == 1),
    {
        read_field(self.0 as u32, 27, 1) == 1
    }

    /// Sets the [`sign`](`GbaFrac32::sign`) field.
    pub fn with_sign(self, value: bool) -> (r: Self)
        ensures
            r@ == set_bits(self@, 27, 1, if value { 1 } else { 0 }),
    {
        let x: u32 = if value { 1 } else { 0 };
        proof {
            lemma_fits_small(x, 1);
        }
        let v = write_field(self.0 as u32, 27, 1, x);
        GbaFrac32(v)
    }
}

/// A 16-bit fixed point value.
#[derive(Copy, Clone, Debug, PartialEq, Eq, Structural)]
pub struct GbaFrac16(u16);
impl View for GbaFrac16 {
    type V = u32;
    closed spec fn view(&self) -> u32 {
        self.0 as u32
    }
}
impl Default for GbaFrac16 {
    fn default() -> (r: Self)
        ensures
            r@ == 0,
    {
        GbaFrac16(0)
    }
}
impl GbaFrac16 {
    /// Every value fits in 16 bits.
    pub proof fn lemma_bounded(self)
        ensures
            self@ < 0x10000,
    {
    }

    /// The value with all fields zero.
    pub fn new() -> (r: Self)
        ensures
            r@ == 0,
    {
        GbaFrac16(0)
    }

    /// Builds a value from its raw register bits.
    pub fn from_bits(bits: u16) -> (r: Self)
        ensures
            r@ == bits as u32,
    {
        GbaFrac16(bits)
    }

    /// The raw register bits of this value.
    pub fn bits(&self) -> (r: u16)
        ensures
            r as u32 == self@,
    {
        self.0
    }

    /// The fractional part.
    pub fn frac(&self) -> (r: u32)
        ensures
            r as int == get_bits(self@, 0, 8) as int,
            r < 256,
    {
        let v = read_field(self.0 as u32, 0, 8);
        proof {
            lemma_fits_small(v, 8);
        }
        v as u32
    }

    /// Sets the [`frac`](`GbaFrac16::frac`) field.
    pub fn with_frac(self, value: u32) -> (r: Self)
        requires
            value < 256,
        ensures
            r@ == set_bits(self@, 0, 8, value as u32),
    {
        let x = value as u32;
        proof {
            lemma_fits_small(x, 8);
        }
        let v = write_field(self.0 as u32, 0, 8, x);
        proof {
            lemma_set_u16(self.0 as u32, 0, 8, x);
        }
        GbaFrac16(v as u16)
    }

    /// The integer part.
    pub fn integer(&self) -> (r: u32)
        ensures
            r as int == get_bits(self@, 8, 7) as int,
            r < 128,
    {
        let v = read_field(self.0 as u32, 8, 7);
        proof {
            lemma_fits_small(v, 7);
        }
        v as u32
    }

    /// Sets the [`integer`](`GbaFrac16::integer`) field.
    pub fn with_integer(self, value: u32) -> (r: Self)
        requires
            value < 128,
        ensures
            r@ == set_bits(self@, 8, 7, value as u32),
    {
        let x = value as u32;
        proof {
            lemma_fits_small(x, 7);
        }
        let v = write_field(self.0 as u32, 8, 7, x);
        proof {
            lemma_set_u16(self.0 as u32, 8, 7, x);
        }
        GbaFrac16(v as u16)
    }

    /// The sign.
    pub fn sign(&self) -> (r: bool)
        ensures
            r == (get_bits(self@, 15, 1) == 1),
    {
        read_field(self.0 as u32, 15, 1) == 1
    }

    /// Sets the [`sign`](`GbaFrac16::sign`) field.
    pub fn with_sign(self, value: bool) -> (r: Self)
        ensures
            r@ == set_bits(self@, 15, 1, if value { 1 } else { 0 }),
    {
        let x: u32 = if value { 1 } else { 0 };
        proof {
            lemma_fits_small(x, 1);
        }
        let v = write_field(self.0 as u32, 15, 1, x);
        proof {
            lemma_set_u16(self.0 as u32, 15, 1, x);
        }
        GbaFrac16(v as u16)
    }
}

/// The bounds of a window on one axis.
#[derive(Copy, Clone, Debug, PartialEq, Eq, Structural)]
pub struct WinBound(u16);
impl View for WinBound {
    type V = u32;
    closed spec fn view(&self) -> u32 {
        self.0 as u32
    }
}
impl Default for WinBound {
    fn default() -> (r: Self)
        ensures
            r@ == 0,
    {
        WinBound(0)
    }
}
impl WinBound {
    /// Every value fits in 16 bits.
    pub proof fn lemma_bounded(self)
        ensures
            self@ < 0x10000,
    {
    }

    /// The value with all fields zero.
    pub fn new() -> (r: Self)
        ensures
            r@ == 0,
    {
        WinBound(0)
    }

    /// Builds a value from its raw register bits.
    pub fn from_bits(bits: u16) -> (r: Self)
        ensures
            r@ == bits as u32,
    {
        WinBound(bits)
    }

    /// The raw register bits of this value.
    pub fn bits(&self) -> (r: u16)
        ensures
            r as u32 == self@,
    {
        self.0
    }

    /// The upper bound.
    pub fn max(&self) -> (r: u32)
        ensures
            r as int == get_bits(self@, 0, 8) as int,
            r < 256,
    {
        let v = read_field(self.0 as u32, 0, 8);
        proof {
            lemma_fits_small(v, 8);
        }
        v as u32
    }

    /// Sets the [`max`](`WinBound::max`) field.
    pub fn with_max(self, value: u32) -> (r: Self)
        requires
            value < 256,
        ensures
            r@ == set_bits(self@, 0, 8, value as u32),
    {
        let x = value as u32;
        proof {
            lemma_fits_small(x, 8);
        }
        let v = write_field(self.0 as u32, 0, 8, x);
        proof {
            lemma_set_u16(self.0 as u32, 0, 8, x);
        }
        WinBound(v as u16)
    }

    /// The lower bound.
    pub fn min(&self) -> (r: u32)
        ensures
            r as int == get_bits(self@, 8, 8) as int,
            r < 256,
    {
        let v = read_field(self.0 as u32, 8, 8);
        proof {
            lemma_fits_small(v, 8);
        }
        v as u32
    }

    /// Sets the [`min`](`WinBound::min`) field.
    pub fn with_min(self, value: u32) -> (r: Self)
        requires
            value < 256,
        ensures
            r@ == set_bits(self@, 8, 8, value as u32),
    {
        let x = value as u32;
        proof {
            lemma_fits_small(x, 8);
        }
        let v = write_field(self.0 as u32, 8, 8, x);
        proof {
            lemma_set_u16(self.0 as u32, 8, 8, x);
        }
        WinBound(v as u16)
    }
}

/// Which layers the two windows of a window register apply to.
#[derive(Copy, Clone, Debug, PartialEq, Eq, Structural)]
pub struct WinCnt(u16);
impl View for WinCnt {
    type V = u32;
    closed spec fn view(&self) -> u32 {
        self.0 as u32
    }
}
impl Default for WinCnt {
    fn default() -> (r: Self)
        ensures
            r@ == 0,
    {
        WinCnt(0)
    }
}
impl WinCnt {
    /// Every value fits in 16 bits.
    pub proof fn lemma_bounded(self)
        ensures
            self@ < 0x10000,
    {
    }

    /// The value with all fields zero.
    pub fn new() -> (r: Self)
        ensures
            r@ == 0,
    {
        WinCnt(0)
    }

    /// Builds a value from its raw register bits.
    pub fn from_bits(bits: u16) -> (r: Self)
        ensures
            r@ == bits as u32,
    {
        WinCnt(bits)
    }

    /// The raw register bits of this value.
    pub fn bits(&self) -> (r: u16)
        ensures
            r as u32 == self@,
    {
        self.0
    }

    /// The layers of the first window.
    pub fn cnt_a(&self) -> (r: WinTargetSet)
        ensures
            r@ == get_bits(self@, 0, 6),
    {
        let v = read_field(self.0 as u32, 0, 6);
        proof {
            lemma_fits_small(v, 6);
        }
        WinTargetSet::from_bits_truncated(v)
    }

    /// Sets the [`cnt_a`](`WinCnt::cnt_a`) field.
    pub fn with_cnt_a(self, value: WinTargetSet) -> (r: Self)
        ensures
            r@ == set_bits(self@, 0, 6, value@),
    {
        let x = value.as_u32_truncated();
        proof {
            lemma_fits_small(x, 6);
        }
        let v = write_field(self.0 as u32, 0, 6, x);
        proof {
            lemma_set_u16(self.0 as u32, 0, 6, x);
        }
        WinCnt(v as u16)
    }

    /// The layers of the second window.
    pub fn cnt_b(&self) -> (r: WinTargetSet)
        ensures
            r@ == get_bits(self@, 8, 6),
    {
        let v = read_field(self.0 as u32, 8, 6);
        proof {
            lemma_fits_small(v, 6);
        }
        WinTargetSet::from_bits_truncated(v)
    }

    /// Sets the [`cnt_b`](`WinCnt::cnt_b`) field.
    pub fn with_cnt_b(self, value: WinTargetSet) -> (r: Self)
        ensures
            r@ == set_bits(self@, 8, 6, value@),
    {
        let x = value.as_u32_truncated();
        proof {
            lemma_fits_small(x, 6);
        }
        let v = write_field(self.0 as u32, 8, 6, x);
        proof {
            lemma_set_u16(self.0 as u32, 8, 6, x);
        }
        WinCnt(v as u16)
    }
}

/// Used to control the size of the mosaic renderer.
#[derive(Copy, Clone, Debug, PartialEq, Eq, Structural)]
pub struct Mosaic(u16);
impl View for Mosaic {
    type V = u32;
    closed spec fn view(&self) -> u32 {
        self.0 as u32
    }
}
impl Default for Mosaic {
    fn default() -> (r: Self)
        ensures
            r@ == 0,
    {
        Mosaic(0)
    }
}
impl Mosaic {
    /// Every value fits in 16 bits.
    pub proof fn lemma_bounded(self)
        ensures
            self@ < 0x10000,
    {
    }

    /// The value with all fields zero.
    pub fn new() -> (r: Self)
        ensures
            r@ == 0,
    {
        Mosaic(0)
    }

    /// Builds a value from its raw register bits.
    pub fn from_bits(bits: u16) -> (r: Self)
        ensures
            r@ == bits as u32,
    {
        Mosaic(bits)
    }

    /// The raw register bits of this value.
    pub fn bits(&self) -> (r: u16)
        ensures
            r as u32 == self@,
    {
        self.0
    }

    /// The horizontal size of the BG0-3 mosaic.
    pub fn bg_mosaic_x(&self) -> (r: u32)
        ensures
            r as int == get_bits(self@, 0, 4) as int,
            r < 16,
    {
        let v = read_field(self.0 as u32, 0, 4);
        proof {
            lemma_fits_small(v, 4);
        }
        v as u32
    }

    /// Sets the [`bg_mosaic_x`](`Mosaic::bg_mosaic_x`) field.
    pub fn with_bg_mosaic_x(self, value: u32) -> (r: Self)
        requires
            value < 16,
        ensures
            r@ == set_bits(self@, 0, 4, value as u32),
    {
        let x = value as u32;
        proof {
            lemma_fits_small(x, 4);
        }
        let v = write_field(self.0 as u32, 0, 4, x);
        proof {
            lemma_set_u16(self.0 as u32, 0, 4, x);
        }
        Mosaic(v as u16)
    }

    /// The vertical size of the BG0-3 mosaic.
    pub fn bg_mosaic_y(&self) -> (r: u32)
        ensures
            r as int == get_bits(self@, 4, 4) as int,
            r < 16,
    {
        let v = read_field(self.0 as u32, 4, 4);
        proof {
            lemma_fits_small(v, 4);
        }
        v as u32
    }

    /// Sets the [`bg_mosaic_y`](`Mosaic::bg_mosaic_y`) field.
    pub fn with_bg_mosaic_y(self, value: u32) -> (r: Self)
        requires
            value < 16,
        ensures
            r@ == set_bits(self@, 4, 4, value as u32),
    {
        let x = value as u32;
        proof {
            lemma_fits_small(x, 4);
        }
        let v = write_field(self.0 as u32, 4, 4, x);
        proof {
            lemma_set_u16(self.0 as u32, 4, 4, x);
        }
        Mosaic(v as u16)
    }

    /// The horizontal size of the OBJ mosaic.
    pub fn obj_mosaic_x(&self) -> (r: u32)
        ensures
            r as int == get_bits(self@, 8, 4) as int,
            r < 16,
    {
        let v = read_field(self.0 as u32, 8, 4);
        proof {
            lemma_fits_small(v, 4);
        }
        v as u32
    }

    /// Sets the [`obj_mosaic_x`](`Mosaic::obj_mosaic_x`) field.
    pub fn with_obj_mosaic_x(self, value: u32) -> (r: Self)
        requires
            value < 16,
        ensures
            r@ == set_bits(self@, 8, 4, value as u32),
    {
        let x = value as u32;
        proof {
            lemma_fits_small(x, 4);
        }
        let v = write_field(self.0 as u32, 8, 4, x);
        proof {
            lemma_set_u16(self.0 as u32, 8, 4, x);
        }
        Mosaic(v as u16)
    }

    /// The vertical size of the OBJ mosaic.
    pub fn obj_mosaic_y(&self) -> (r: u32)
        ensures
            r as int == get_bits(self@, 12, 4) as int,
            r < 16,
    {
        let v = read_field(self.0 as u32, 12, 4);
        proof {
            lemma_fits_small(v, 4);
        }
        v as u32
    }

    /// Sets the [`obj_mosaic_y`](`Mosaic::obj_mosaic_y`) field.
    pub fn with_obj_mosaic_y(self, value: u32) -> (r: Self)
        requires
            value < 16,
        ensures
            r@ == set_bits(self@, 12, 4, value as u32),
    {
        let x = value as u32;
        proof {
            lemma_fits_small(x, 4);
        }
        let v = write_field(self.0 as u32, 12, 4, x);
        proof {
            lemma_set_u16(self.0 as u32, 12, 4, x);
        }
        Mosaic(v as u16)
    }
}

/// Controls color blending.
#[derive(Copy, Clone, Debug, PartialEq, Eq, Structural)]
pub struct BldCnt(u16);
impl View for BldCnt {
    type V = u32;
    closed spec fn view(&self) -> u32 {
        self.0 as u32
    }
}
impl Default for BldCnt {
    fn default() -> (r: Self)
        ensures
            r@ == 0,
    {
        BldCnt(0)
    }
}
impl BldCnt {
    /// Every value fits in 16 bits.
    pub proof fn lemma_bounded(self)
        ensures
            self@ < 0x10000,
    {
    }

    /// The value with all fields zero.
    pub fn new() -> (r: Self)
        ensures
            r@ == 0,
    {
        BldCnt(0)
    }

    /// Builds a value from its raw register bits.
    pub fn from_bits(bits: u16) -> (r: Self)
        ensures
            r@ == bits as u32,
    {
        BldCnt(bits)
    }

    /// The raw register bits of this value.
    pub fn bits(&self) -> (r: u16)
        ensures
            r as u32 == self@,
    {
        self.0
    }

    /// The first blending targets.
    pub fn target_a(&self) -> (r: BlendTargetSet)
        ensures
            r@ == get_bits(self@, 0, 6),
    {
        let v = read_field(self.0 as u32, 0, 6);
        proof {
            lemma_fits_small(v, 6);
        }
        BlendTargetSet::from_bits_truncated(v)
    }

    /// Sets the [`target_a`](`BldCnt::target_a`) field.
    pub fn with_target_a(self, value: BlendTargetSet) -> (r: Self)
        ensures
            r@ == set_bits(self@, 0, 6, value@),
    {
        let x = value.as_u32_truncated();
        proof {
            lemma_fits_small(x, 6);
        }
        let v = write_field(self.0 as u32, 0, 6, x);
        proof {
            lemma_set_u16(self.0 as u32, 0, 6, x);
        }
        BldCnt(v as u16)
    }

    /// The blending mode.
    pub fn mode(&self) -> (r: BlendingMode)
        ensures
            r.code() == get_bits(self@, 6, 2),
    {
        let v = read_field(self.0 as u32, 6, 2);
        proof {
            lemma_fits_small(v, 2);
        }
        BlendingMode::try_from_u16(v as u16).unwrap()
    }

    /// Sets the [`mode`](`BldCnt::mode`) field.
    pub fn with_mode(self, value: BlendingMode) -> (r: Self)
        ensures
            r@ == set_bits(self@, 6, 2, value.code()),
    {
        let x = value.to_u16() as u32;
        proof {
            lemma_fits_small(x, 2);
        }
        let v = write_field(self.0 as u32, 6, 2, x);
        proof {
            lemma_set_u16(self.0 as u32, 6, 2, x);
        }
        BldCnt(v as u16)
    }

    /// The second blending targets.
    pub fn target_b(&self) -> (r: BlendTargetSet)
        ensures
            r@ == get_bits(self@, 8, 6),
    {
        let v = read_field(self.0 as u32, 8, 6);
        proof {
            lemma_fits_small(v, 6);
        }
        BlendTargetSet::from_bits_truncated(v)
    }

    /// Sets the [`target_b`](`BldCnt::target_b`) field.
    pub fn with_target_b(self, value: BlendTargetSet) -> (r: Self)
        ensures
            r@ == set_bits(self@, 8, 6, value@),
    {
        let x = value.as_u32_truncated();
        proof {
            lemma_fits_small(x, 6);
        }
        let v = write_field(self.0 as u32, 8, 6, x);
        proof {
            lemma_set_u16(self.0 as u32, 8, 6, x);
        }
        BldCnt(v as u16)
    }
}

/// Represents a tile in a background layer.
#[derive(Copy, Clone, Debug, PartialEq, Eq, Structural)]
pub struct VramTile(u16);
impl View for VramTile {
    type V = u32;
    closed spec fn view(&self) -> u32 {
        self.0 as u32
    }
}
impl Default for VramTile {
    fn default() -> (r: Self)
        ensures
            r@ == 0,
    {
        VramTile(0)
    }
}
impl VramTile {
    /// Every value fits in 16 bits.
    pub proof fn lemma_bounded(self)
        ensures
            self@ < 0x10000,
    {
    }

    /// The value with all fields zero.
    pub fn new() -> (r: Self)
        ensures
            r@ == 0,
    {
        VramTile(0)
    }

    /// Builds a value from its raw register bits.
    pub fn from_bits(bits: u16) -> (r: Self)
        ensures
            r@ == bits as u32,
    {
        VramTile(bits)
    }

    /// The raw register bits of this value.
    pub fn bits(&self) -> (r: u16)
        ensures
            r as u32 == self@,
    {
        self.0
    }

    /// The ID of the character to render, between 0 and 1023.
    pub fn char(&self) -> (r: u16)
        ensures
            r as int == get_bits(self@, 0, 10) as int,
            r < 1024,
    {
        let v = read_field(self.0 as u32, 0, 10);
        proof {
            lemma_fits_small(v, 10);
        }
        v as u16
    }

    /// Sets the [`char`](`VramTile::char`) field.
    pub fn with_char(self, value: u16) -> (r: Self)
        requires
            value < 1024,
        ensures
            r@ == set_bits(self@, 0, 10, value as u32),
    {
        let x = value as u32;
        proof {
            lemma_fits_small(x, 10);
        }
        let v = write_field(self.0 as u32, 0, 10, x);
        proof {
            lemma_set_u16(self.0 as u32, 0, 10, x);
        }
        VramTile(v as u16)
    }

    /// Whether to flip the tile horizontally.
    pub fn h_flip(&self) -> (r: bool)
        ensures
            r == (get_bits(self@, 10, 1) == 1),
    {
        read_field(self.0 as u32, 10, 1) == 1
    }

    /// Sets the [`h_flip`](`VramTile::h_flip`) field.
    pub fn with_h_flip(self, value: bool) -> (r: Self)
        ensures
            r@ == set_bits(self@, 10, 1, if value { 1 } else { 0 }),
    {
        let x: u32 = if value { 1 } else { 0 };
        proof {
            lemma_fits_small(x, 1);
        }
        let v = write_field(self.0 as u32, 10, 1, x);
        proof {
            lemma_set_u16(self.0 as u32, 10, 1, x);
        }
        VramTile(v as u16)
    }

    /// Whether to flip the tile vertically.
    pub fn v_flip(&self) -> (r: bool)
        ensures
            r == (get_bits(self@, 11, 1) == 1),
    {
        read_field(self.0 as u32, 11, 1) == 1
    }

    /// Sets the [`v_flip`](`VramTile::v_flip`) field.
    pub fn with_v_flip(self, value: bool) -> (r: Self)
        ensures
            r@ == set_bits(self@, 11, 1, if value { 1 } else { 0 }),
    {
        let x: u32 = if value { 1 } else { 0 };
        proof {
            lemma_fits_small(x, 1);
        }
        let v = write_field(self.0 as u32, 11, 1, x);
        proof {
            lemma_set_u16(self.0 as u32, 11, 1, x);
        }
        VramTile(v as u16)
    }

    /// The ID of the palette to use, between 0 and 15.
    pub fn palette(&self) -> (r: u8)
        ensures
            r as int == get_bits(self@, 12, 4) as int,
            r < 16,
    {
        let v = read_field(self.0 as u32, 12, 4);
        proof {
            lemma_fits_small(v, 4);
        }
        v as u8
    }

    /// Sets the [`palette`](`VramTile::palette`) field.
    pub fn with_palette(self, value: u8) -> (r: Self)
        requires
            value < 16,
        ensures
            r@ == set_bits(self@, 12, 4, value as u32),
    {
        let x = value as u32;
        proof {
            lemma_fits_small(x, 4);
        }
        let v = write_field(self.0 as u32, 12, 4, x);
        proof {
            lemma_set_u16(self.0 as u32, 12, 4, x);
        }
        VramTile(v as u16)
    }
}

/// The first attribute word of an object.
#[derive(Copy, Clone, Debug, PartialEq, Eq, Structural)]
pub struct ObjAttr0(u16);
impl View for ObjAttr0 {
    type V = u32;
    closed spec fn view(&self) -> u32 {
        self.0 as u32
    }
}
impl Default for ObjAttr0 {
    fn default() -> (r: Self)
        ensures
            r@ == 0,
    {
        ObjAttr0(0)
    }
}
impl ObjAttr0 {
    /// Every value fits in 16 bits.
    pub proof fn lemma_bounded(self)
        ensures
            self@ < 0x10000,
    {
    }

    /// The value with all fields zero.
    pub fn new() -> (r: Self)
        ensures
            r@ == 0,
    {
        ObjAttr0(0)
    }

    /// Builds a value from its raw register bits.
    pub fn from_bits(bits: u16) -> (r: Self)
        ensures
            r@ == bits as u32,
    {
        ObjAttr0(bits)
    }

    /// The raw register bits of this value.
    pub fn bits(&self) -> (r: u16)
        ensures
            r as u32 == self@,
    {
        self.0
    }

    /// The vertical coordinate.
    pub fn y_coordinate(&self) -> (r: u32)
        ensures
            r as int == get_bits(self@, 0, 8) as int,
            r < 256,
    {
        let v = read_field(self.0 as u32, 0, 8);
        proof {
            lemma_fits_small(v, 8);
        }
        v as u32
    }

    /// Sets the [`y_coordinate`](`ObjAttr0::y_coordinate`) field.
    pub fn with_y_coordinate(self, value: u32) -> (r: Self)
        requires
            value < 256,
        ensures
            r@ == set_bits(self@, 0, 8, value as u32),
    {
        let x = value as u32;
        proof {
            lemma_fits_small(x, 8);
        }
        let v = write_field(self.0 as u32, 0, 8, x);
        proof {
            lemma_set_u16(self.0 as u32, 0, 8, x);
        }
        ObjAttr0(v as u16)
    }

    /// Whether rotation and scaling are enabled.
    pub fn rotation_enabled(&self) -> (r: bool)
        ensures
            r == (get_bits(self@, 8, 1) == 1),
    {
        read_field(self.0 as u32, 8, 1) == 1
    }

    /// Sets the [`rotation_enabled`](`ObjAttr0::rotation_enabled`) field.
    pub fn with_rotation_enabled(self, value: bool) -> (r: Self)
        ensures
            r@ == set_bits(self@, 8, 1, if value { 1 } else { 0 }),
    {
        let x: u32 = if value { 1 } else { 0 };
        proof {
            lemma_fits_small(x, 1);
        }
        let v = write_field(self.0 as u32, 8, 1, x);
        proof {
            lemma_set_u16(self.0 as u32, 8, 1, x);
        }
        ObjAttr0(v as u16)
    }

    /// Whether the object is drawn at double size.
    pub fn double_size(&self) -> (r: bool)
        ensures
            r == (get_bits(self@, 9, 1) == 1),
    {
        read_field(self.0 as u32, 9, 1) == 1
    }

    /// Sets the [`double_size`](`ObjAttr0::double_size`) field.
    pub fn with_double_size(self, value: bool) -> (r: Self)
        ensures
            r@ == set_bits(self@, 9, 1, if value { 1 } else { 0 }),
    {
        let x: u32 = if value { 1 } else { 0 };
        proof {
            lemma_fits_small(x, 1);
        }
        let v = write_field(self.0 as u32, 9, 1, x);
        proof {
            lemma_set_u16(self.0 as u32, 9, 1, x);
        }
        ObjAttr0(v as u16)
    }

    /// Whether the object is hidden.
    pub fn disabled(&self) -> (r: bool)
        ensures
            r == (get_bits(self@, 9, 1) == 1),
    {
        read_field(self.0 as u32, 9, 1) == 1
    }

    /// Sets the [`disabled`](`ObjAttr0::disabled`) field.
    pub fn with_disabled(self, value: bool) -> (r: Self)
        ensures
            r@ == set_bits(self@, 9, 1, if value { 1 } else { 0 }),
    {
        let x: u32 = if value { 1 } else { 0 };
        proof {
            lemma_fits_small(x, 1);
        }
        let v = write_field(self.0 as u32, 9, 1, x);
        proof {
            lemma_set_u16(self.0 as u32, 9, 1, x);
        }
        ObjAttr0(v as u16)
    }

    /// The special effects mode.
    pub fn obj_mode(&self) -> (r: ObjMode)
        requires
            get_bits(self@, 10, 2) < 3,
        ensures
            r.code() == get_bits(self@, 10, 2),
    {
        let v = read_field(self.0 as u32, 10, 2);
        ObjMode::try_from_u16(v as u16).unwrap()
    }

    /// Sets the [`obj_mode`](`ObjAttr0::obj_mode`) field.
    pub fn with_obj_mode(self, value: ObjMode) -> (r: Self)
        ensures
            r@ == set_bits(self@, 10, 2, value.code()),
    {
        let x = value.to_u16() as u32;
        proof {
            lemma_fits_small(x, 2);
        }
        let v = write_field(self.0 as u32, 10, 2, x);
        proof {
            lemma_set_u16(self.0 as u32, 10, 2, x);
        }
        ObjAttr0(v as u16)
    }

    /// Whether the mosaic effect is enabled.
    pub fn mosiac_enabled(&self) -> (r: bool)
        ensures
            r == (get_bits(self@, 12, 1) == 1),
    {
        read_field(self.0 as u32, 12, 1) == 1
    }

    /// Sets the [`mosiac_enabled`](`ObjAttr0::mosiac_enabled`) field.
    pub fn with_mosiac_enabled(self, value: bool) -> (r: Self)
        ensures
            r@ == set_bits(self@, 12, 1, if value { 1 } else { 0 }),
    {
        let x: u32 = if value { 1 } else { 0 };
        proof {
            lemma_fits_small(x, 1);
        }
        let v = write_field(self.0 as u32, 12, 1, x);
        proof {
            lemma_set_u16(self.0 as u32, 12, 1, x);
        }
        ObjAttr0(v as u16)
    }

    /// Whether 256-color palettes are used.
    pub fn use_256_color(&self) -> (r: bool)
        ensures
            r == (get_bits(self@, 13, 1) == 1),
    {
        read_field(self.0 as u32, 13, 1) == 1
    }

    /// Sets the [`use_256_color`](`ObjAttr0::use_256_color`) field.
    pub fn with_use_256_color(self, value: bool) -> (r: Self)
        ensures
            r@ == set_bits(self@, 13, 1, if value { 1 } else { 0 }),
    {
        let x: u32 = if value { 1 } else { 0 };
        proof {
            lemma_fits_small(x, 1);
        }
        let v = write_field(self.0 as u32, 13, 1, x);
        proof {
            lemma_set_u16(self.0 as u32, 13, 1, x);
        }
        ObjAttr0(v as u16)
    }
}

/// The second attribute word of an object.
#[derive(Copy, Clone, Debug, PartialEq, Eq, Structural)]
pub struct ObjAttr1(u16);
impl View for ObjAttr1 {
    type V = u32;
    closed spec fn view(&self) -> u32 {
        self.0 as u32
    }
}
impl Default for ObjAttr1 {
    fn default() -> (r: Self)
        ensures
            r@ == 0,
    {
        ObjAttr1(0)
    }
}
impl ObjAttr1 {
    /// Every value fits in 16 bits.
    pub proof fn lemma_bounded(self)
        ensures
            self@ < 0x10000,
    {
    }

    /// The value with all fields zero.
    pub fn new() -> (r: Self)
        ensures
            r@ == 0,
    {
        ObjAttr1(0)
    }

    /// Builds a value from its raw register bits.
    pub fn from_bits(bits: u16) -> (r: Self)
        ensures
            r@ == bits as u32,
    {
        ObjAttr1(bits)
    }

    /// The raw register bits of this value.
    pub fn bits(&self) -> (r: u16)
        ensures
            r as u32 == self@,
    {
        self.0
    }

    /// The horizontal coordinate.
    pub fn x_coordinate(&self) -> (r: u32)
        ensures
            r as int == get_bits(self@, 0, 8) as int,
            r < 256,
    {
        let v = read_field(self.0 as u32, 0, 8);
        proof {
            lemma_fits_small(v, 8);
        }
        v as u32
    }

    /// Sets the [`x_coordinate`](`ObjAttr1::x_coordinate`) field.
    pub fn with_x_coordinate(self, value: u32) -> (r: Self)
        requires
            value < 256,
        ensures
            r@ == set_bits(self@, 0, 8, value as u32),
    {
        let x = value as u32;
        proof {
            lemma_fits_small(x, 8);
        }
        let v = write_field(self.0 as u32, 0, 8, x);
        proof {
            lemma_set_u16(self.0 as u32, 0, 8, x);
        }
        ObjAttr1(v as u16)
    }

    /// The rotation parameter index.
    pub fn rotation_id(&self) -> (r: usize)
        ensures
            r as int == get_bits(self@, 9, 5) as int,
            r < 32,
    {
        let v = read_field(self.0 as u32, 9, 5);
        proof {
            lemma_fits_small(v, 5);
        }
        v as usize
    }

    /// Sets the [`rotation_id`](`ObjAttr1::rotation_id`) field.
    pub fn with_rotation_id(self, value: usize) -> (r: Self)
        requires
            value < 32,
        ensures
            r@ == set_bits(self@, 9, 5, value as u32),
    {
        let x = value as u32;
        proof {
            lemma_fits_small(x, 5);
        }
        let v = write_field(self.0 as u32, 9, 5, x);
        proof {
            lemma_set_u16(self.0 as u32, 9, 5, x);
        }
        ObjAttr1(v as u16)
    }

    /// Whether to flip the object horizontally.
    pub fn h_flip(&self) -> (r: bool)
        ensures
            r == (get_bits(self@, 12, 1) == 1),
    {
        read_field(self.0 as u32, 12, 1) == 1
    }

    /// Sets the [`h_flip`](`ObjAttr1::h_flip`) field.
    pub fn with_h_flip(self, value: bool) -> (r: Self)
        ensures
            r@ == set_bits(self@, 12, 1, if value { 1 } else { 0 }),
    {
        let x: u32 = if value { 1 } else { 0 };
        proof {
            lemma_fits_small(x, 1);
        }
        let v = write_field(self.0 as u32, 12, 1, x);
        proof {
            lemma_set_u16(self.0 as u32, 12, 1, x);
        }
        ObjAttr1(v as u16)
    }

    /// Whether to flip the object vertically.
    pub fn v_flip(&self) -> (r: bool)
        ensures
            r == (get_bits(self@, 13, 1) == 1),
    {
        read_field(self.0 as u32, 13, 1) == 1
    }

    /// Sets the [`v_flip`](`ObjAttr1::v_flip`) field.
    pub fn with_v_flip(self, value: bool) -> (r: Self)
        ensures
            r@ == set_bits(self@, 13, 1, if value { 1 } else { 0 }),
    {
        let x: u32 = if value { 1 } else { 0 };
        proof {
            lemma_fits_small(x, 1);
        }
        let v = write_field(self.0 as u32, 13, 1, x);
        proof {
            lemma_set_u16(self.0 as u32, 13, 1, x);
        }
        ObjAttr1(v as u16)
    }

    /// The shape of the object.
    pub fn obj_shape(&self) -> (r: u8)
        ensures
            r as int == get_bits(self@, 14, 2) as int,
            r < 4,
    {
        let v = read_field(self.0 as u32, 14, 2);
        proof {
            lemma_fits_small(v, 2);
        }
        v as u8
    }

    /// Sets the [`obj_shape`](`ObjAttr1::obj_shape`) field.
    pub fn with_obj_shape(self, value: u8) -> (r: Self)
        requires
            value < 4,
        ensures
            r@ == set_bits(self@, 14, 2, value as u32),
    {
        let x = value as u32;
        proof {
            lemma_fits_small(x, 2);
        }
        let v = write_field(self.0 as u32, 14, 2, x);
        proof {
            lemma_set_u16(self.0 as u32, 14, 2, x);
        }
        ObjAttr1(v as u16)
    }
}

/// The third attribute word of an object.
#[derive(Copy, Clone, Debug, PartialEq, Eq, Structural)]
pub struct ObjAttr2(u16);
impl View for ObjAttr2 {
    type V = u32;
    closed spec fn view(&self) -> u32 {
        self.0 as u32
    }
}
impl Default for ObjAttr2 {
    fn default() -> (r: Self)
        ensures
            r@ == 0,
    {
        ObjAttr2(0)
    }
}
impl ObjAttr2 {
    /// Every value fits in 16 bits.
    pub proof fn lemma_bounded(self)
        ensures
            self@ < 0x10000,
    {
    }

    /// The value with all fields zero.
    pub fn new() -> (r: Self)
        ensures
            r@ == 0,
    {
        ObjAttr2(0)
    }

    /// Builds a value from its raw register bits.
    pub fn from_bits(bits: u16) -> (r: Self)
        ensures
            r@ == bits as u32,
    {
        ObjAttr2(bits)
    }

    /// The raw register bits of this value.
    pub fn bits(&self) -> (r: u16)
        ensures
            r as u32 == self@,
    {
        self.0
    }

    /// The horizontal coordinate.
    pub fn x_coordinate(&self) -> (r: u32)
        ensures
            r as int == get_bits(self@, 0, 8) as int,
            r < 256,
    {
        let v = read_field(self.0 as u32, 0, 8);
        proof {
            lemma_fits_small(v, 8);
        }
        v as u32
    }

    /// Sets the [`x_coordinate`](`ObjAttr2::x_coordinate`) field.
    pub fn with_x_coordinate(self, value: u32) -> (r: Self)
        requires
            value < 256,
        ensures
            r@ == set_bits(self@, 0, 8, value as u32),
    {
        let x = value as u32;
        proof {
            lemma_fits_small(x, 8);
        }
        let v = write_field(self.0 as u32, 0, 8, x);
        proof {
            lemma_set_u16(self.0 as u32, 0, 8, x);
        }
        ObjAttr2(v as u16)
    }

    /// The rotation parameter index.
    pub fn rotation_id(&self) -> (r: usize)
        ensures
            r as int == get_bits(self@, 9, 5) as int,
            r < 32,
    {
        let v = read_field(self.0 as u32, 9, 5);
        proof {
            lemma_fits_small(v, 5);
        }
        v as usize
    }

    /// Sets the [`rotation_id`](`ObjAttr2::rotation_id`) field.
    pub fn with_rotation_id(self, value: usize) -> (r: Self)
        requires
            value < 32,
        ensures
            r@ == set_bits(self@, 9, 5, value as u32),
    {
        let x = value as u32;
        proof {
            lemma_fits_small(x, 5);
        }
        let v = write_field(self.0 as u32, 9, 5, x);
        proof {
            lemma_set_u16(self.0 as u32, 9, 5, x);
        }
        ObjAttr2(v as u16)
    }

    /// Whether to flip the object horizontally.
    pub fn h_flip(&self) -> (r: bool)
        ensures
            r == (get_bits(self@, 12, 1) == 1),
    {
        read_field(self.0 as u32, 12, 1) == 1
    }

    /// Sets the [`h_flip`](`ObjAttr2::h_flip`) field.
    pub fn with_h_flip(self, value: bool) -> (r: Self)
        ensures
            r@ == set_bits(self@, 12, 1, if value { 1 } else { 0 }),
    {
        let x: u32 = if value { 1 } else { 0 };
        proof {
            lemma_fits_small(x, 1);
        }
        let v = write_field(self.0 as u32, 12, 1, x);
        proof {
            lemma_set_u16(self.0 as u32, 12, 1, x);
        }
        ObjAttr2(v as u16)
    }

    /// Whether to flip the object vertically.
    pub fn v_flip(&self) -> (r: bool)
        ensures
            r == (get_bits(self@, 13, 1) == 1),
    {
        read_field(self.0 as u32, 13, 1) == 1
    }

    /// Sets the [`v_flip`](`ObjAttr2::v_flip`) field.
    pub fn with_v_flip(self, value: bool) -> (r: Self)
        ensures
            r@ == set_bits(self@, 13, 1, if value { 1 } else { 0 }),
    {
        let x: u32 = if value { 1 } else { 0 };
        proof {
            lemma_fits_small(x, 1);
        }
        let v = write_field(self.0 as u32, 13, 1, x);
        proof {
            lemma_set_u16(self.0 as u32, 13, 1, x);
        }
        ObjAttr2(v as u16)
    }

    /// The shape of the object.
    pub fn obj_shape(&self) -> (r: u8)
        ensures
            r as int == get_bits(self@, 14, 2) as int,
            r < 4,
    {
        let v = read_field(self.0 as u32, 14, 2);
        proof {
            lemma_fits_small(v, 2);
        }
        v as u8
    }

    /// Sets the [`obj_shape`](`ObjAttr2::obj_shape`) field.
    pub fn with_obj_shape(self, value: u8) -> (r: Self)
        requires
            value < 4,
        ensures
            r@ == set_bits(self@, 14, 2, value as u32),
    {
        let x = value as u32;
        proof {
            lemma_fits_small(x, 2);
        }
        let v = write_field(self.0 as u32, 14, 2, x);
        proof {
            lemma_set_u16(self.0 as u32, 14, 2, x);
        }
        ObjAttr2(v as u16)
    }
}

} // verus!
