//! Tile background layers: their settings, and the register writes that apply them.
use crate::bits::{get_bits, set_bits, small_pow2};
use crate::display::vram::{CharAccess, MapAccess};
use crate::io::{IoWrite, BG_CNT, BG_HOFS, BG_VOFS, DISPCNT, VRAM_BASE, VRAM_END};
use crate::mmio::display::{BgCnt, DispCnt};
use vstd::prelude::*;

verus! {

/// One of the four background layers.
#[derive(Copy, Clone, Debug, PartialEq, Eq, Structural)]
pub enum LayerId {
    /// The first layer.
    Layer0,
    /// The second layer.
    Layer1,
    /// The third layer.
    Layer2,
    /// The fourth layer.
    Layer3,
}

impl LayerId {
    /// The number of the layer.
    pub open spec fn spec_index(self) -> nat {
        match self {
            LayerId::Layer0 => 0,
            LayerId::Layer1 => 1,
            LayerId::Layer2 => 2,
            LayerId::Layer3 => 3,
        }
    }

    /// The number of the layer.
    pub fn index(&self) -> (r: usize)
        ensures
            r == self.spec_index(),
            r < 4,
    {
        match self {
            LayerId::Layer0 => 0,
            LayerId::Layer1 => 1,
            LayerId::Layer2 => 2,
            LayerId::Layer3 => 3,
        }
    }
}

/// The tile size of a layer.
#[derive(Copy, Clone, Debug, PartialEq, Eq, Structural)]
pub enum TileLayerSize {
    /// 256x256 pixels.
    Map256x256,
    /// 512x256 pixels.
    Map512x256,
    /// 256x512 pixels.
    Map256x512,
    /// 512x512 pixels.
    Map512x512,
}

impl TileLayerSize {
    /// The value of the size in the layer control register.
    pub open spec fn code(self) -> u32 {
        match self {
            TileLayerSize::Map256x256 => 0,
            TileLayerSize::Map512x256 => 1,
            TileLayerSize::Map256x512 => 2,
            TileLayerSize::Map512x512 => 3,
        }
    }

    /// The number of tile maps used by a layer size.
    pub open spec fn spec_map_count(self) -> usize {
        match self {
            TileLayerSize::Map256x256 => 1,
            TileLayerSize::Map512x256 => 2,
            TileLayerSize::Map256x512 => 2,
            TileLayerSize::Map512x512 => 4,
        }
    }

    /// Returns the number of tile maps used by this layer size.
    pub fn map_count(&self) -> (r: usize)
        ensures
            r == self.spec_map_count(),
    {
        match self {
            TileLayerSize::Map256x256 => 1,
            TileLayerSize::Map512x256 => 2,
            TileLayerSize::Map256x512 => 2,
            TileLayerSize::Map512x512 => 4,
        }
    }

    /// The value of the size in the layer control register.
    pub fn to_u32(&self) -> (r: u32)
        ensures
            r == self.code(),
    {
        match self {
            TileLayerSize::Map256x256 => 0,
            TileLayerSize::Map512x256 => 1,
            TileLayerSize::Map256x512 => 2,
            TileLayerSize::Map512x512 => 3,
        }
    }
}

/// The settings of a layer.
pub struct LayerView {
    /// Which layer this is.
    pub id: LayerId,
    /// The control register value.
    pub cnt: u32,
    /// The horizontal offset.
    pub h_offset: i16,
    /// The vertical offset.
    pub v_offset: i16,
    /// Whether the layer is shown.
    pub is_enabled: bool,
}

/// The fields of a layer's control value, as first bit and width: priority, character base,
/// mosaic, 256 colours, tile base, wrapping, size.
pub open spec fn layer_fields() -> Seq<(u32, u32)> {
    seq![(0u32, 2u32), (2, 2), (6, 1), (7, 1), (8, 5), (13, 1), (14, 2)]
}

/// Law: setting one field of a layer's control value, as the layer setters do, makes that
/// field read back the value set, and leaves every other field as it was.
pub proof fn lemma_layer_field_reads_back(cnt: u32, i: int, value: u32)
    requires
        0 <= i < 7,
        value < small_pow2(layer_fields()[i].1),
    ensures
        forall|j: int|
            0 <= j < 7 ==> #[trigger] get_bits(
                set_bits(cnt, layer_fields()[i].0, layer_fields()[i].1, value),
                layer_fields()[j].0,
                layer_fields()[j].1,
            ) == if j == i {
                value
            } else {
                get_bits(cnt, layer_fields()[j].0, layer_fields()[j].1)
            },
{
    let f = layer_fields();
    let (s, w) = f[i];
    crate::bits::lemma_fits_small(value, w);
    assert forall|j: int| 0 <= j < 7 implies #[trigger] get_bits(set_bits(cnt, s, w, value), f[j].0, f[j].1)
        == if j == i {
        value
    } else {
        get_bits(cnt, f[j].0, f[j].1)
    } by {
        if j == i {
            crate::bits::lemma_get_set_same(cnt, s, w, value);
        } else {
            crate::bits::lemma_get_set_other(cnt, s, w, value, f[j].0, f[j].1);
        }
    }
}

/// The tile map size a control value's size field gives.
pub open spec fn size_from_code(c: u32) -> TileLayerSize {
    if c == 0 {
        TileLayerSize::Map256x256
    } else if c == 1 {
        TileLayerSize::Map512x256
    } else if c == 2 {
        TileLayerSize::Map256x512
    } else {
        TileLayerSize::Map512x512
    }
}

/// Setting the size field of a control value to a size's code reads back that size.
proof fn lemma_size_reads_back(cnt: u32, value: TileLayerSize)
    ensures
        size_from_code(get_bits(set_bits(cnt, 14, 2, value.code()), 14, 2)) == value,
{
    crate::bits::lemma_fits_small(value.code(), 2);
    crate::bits::lemma_get_set_same(cnt, 14, 2, value.code());
}

/// The register value that scrolls a layer by `offset`: the offset negated, modulo 2^16.
pub open spec fn offset_reg(offset: i16) -> u16 {
    ((0x10000 - offset) % 0x10000) as u16
}

/// Negates an offset for the scroll registers.
fn negate_offset(offset: i16) -> (r: u16)
    ensures
        r == offset_reg(offset),
{
    if offset <= 0 {
        (0i32 - offset as i32) as u16
    } else {
        (0x10000i32 - offset as i32) as u16
    }
}

/// The write of a layer's control register.
pub open spec fn cnt_write(l: LayerView) -> IoWrite {
    IoWrite::U16 { addr: (BG_CNT + 2 * l.id.spec_index()) as usize, value: l.cnt as u16 }
}

/// The write of a layer's horizontal offset register.
pub open spec fn hoff_write(l: LayerView) -> IoWrite {
    IoWrite::U16 { addr: (BG_HOFS + 4 * l.id.spec_index()) as usize, value: offset_reg(l.h_offset) }
}

/// The write of a layer's vertical offset register.
pub open spec fn voff_write(l: LayerView) -> IoWrite {
    IoWrite::U16 { addr: (BG_VOFS + 4 * l.id.spec_index()) as usize, value: offset_reg(l.v_offset) }
}

/// The display control value with a layer's enable bit set from its settings.
pub open spec fn dispcnt_with_layer(d: u32, l: LayerView) -> u32 {
    set_bits(d, (8 + l.id.spec_index()) as u32, 1, if l.is_enabled {
        1
    } else {
        0
    })
}

/// A tile layer that is not currently active.
#[derive(Copy, Clone, Debug)]
pub struct TileLayer {
    id: LayerId,
    cnt: BgCnt,
    h_offset: i16,
    v_offset: i16,
    is_enabled: bool,
}

impl TileLayer {
    /// The settings of the layer.
    pub closed spec fn view(&self) -> LayerView {
        LayerView {
            id: self.id,
            cnt: self.cnt@,
            h_offset: self.h_offset,
            v_offset: self.v_offset,
            is_enabled: self.is_enabled,
        }
    }

    /// A disabled layer with all settings zero.
    pub fn new(id: LayerId) -> (r: TileLayer)
        ensures
            r.view() == (LayerView { id, cnt: 0, h_offset: 0, v_offset: 0, is_enabled: false }),
    {
        TileLayer { id, cnt: BgCnt::default(), h_offset: 0, v_offset: 0, is_enabled: false }
    }

    /// The write of the control register.
    fn write_cnt(&self) -> (r: IoWrite)
        ensures
            r == cnt_write(self.view()),
    {
        IoWrite::U16 { addr: BG_CNT + 2 * self.id.index(), value: self.cnt.bits() }
    }

    /// The write of the horizontal offset register.
    fn write_hoff(&self) -> (r: IoWrite)
        ensures
            r == hoff_write(self.view()),
    {
        IoWrite::U16 { addr: BG_HOFS + 4 * self.id.index(), value: negate_offset(self.h_offset) }
    }

    /// The write of the vertical offset register.
    fn write_voff(&self) -> (r: IoWrite)
        ensures
            r == voff_write(self.view()),
    {
        IoWrite::U16 { addr: BG_VOFS + 4 * self.id.index(), value: negate_offset(self.v_offset) }
    }

    /// The write of the display control register that shows or hides this layer, given the
    /// register's current value.
    pub fn write_enabled_from_guard(&self, dispcnt: DispCnt) -> (r: IoWrite)
        ensures
            r == (IoWrite::U16 {
                addr: DISPCNT,
                value: dispcnt_with_layer(dispcnt@, self.view()) as u16,
            }),
    {
        let d = match self.id {
            LayerId::Layer0 => dispcnt.with_display_bg0(self.is_enabled),
            LayerId::Layer1 => dispcnt.with_display_bg1(self.is_enabled),
            LayerId::Layer2 => dispcnt.with_display_bg2(self.is_enabled),
            LayerId::Layer3 => dispcnt.with_display_bg3(self.is_enabled),
        };
        IoWrite::U16 { addr: DISPCNT, value: d.bits() }
    }

    /// The writes that apply all settings of an enabled layer; none for a disabled layer.
    fn write_all(&self) -> (r: Vec<IoWrite>)
        ensures
            self.view().is_enabled ==> r@ == seq![
                cnt_write(self.view()),
                hoff_write(self.view()),
                voff_write(self.view()),
            ],
            !self.view().is_enabled ==> r@.len() == 0,
    {
        let mut r = Vec::new();
        if self.is_enabled {
            r.push(self.write_cnt());
            r.push(self.write_hoff());
            r.push(self.write_voff());
        }
        r
    }

    /// Makes the layer active, returning the register writes that apply its settings.
    pub fn activate(self) -> (r: (ActiveTileLayer, Vec<IoWrite>))
        ensures
            r.0.view() == self.view(),
            self.view().is_enabled ==> r.1@ == seq![
                cnt_write(self.view()),
                hoff_write(self.view()),
                voff_write(self.view()),
            ],
            !self.view().is_enabled ==> r.1@.len() == 0,
    {
        let w = self.write_all();
        (ActiveTileLayer { layer: self }, w)
    }

    /// Returns a character access appropriate for this layer.
    pub fn char_access(&self) -> (r: CharAccess)
        ensures
            r.base() == VRAM_BASE + 16 * 1024 * get_bits(self.view().cnt, 2, 2),
            r.lower_bound() == 0,
            r.upper_bound() == if get_bits(self.view().cnt, 2, 2) <= 2 {
                1024usize
            } else {
                512usize
            },
    {
        let cb = self.cnt.char_base();
        let base = VRAM_BASE + 16384 * cb;
        let available = (VRAM_END - base) / 32;
        let available_chars = if available < 1024 {
            available
        } else {
            1024
        };
        CharAccess::new(base, 0, available_chars)
    }

    /// Returns a tile map access for screen `screen` of this layer; the screen must be one of
    /// the layer's tile maps.
    pub fn map_access(&self, screen: usize) -> (r: MapAccess)
        requires
            screen < self.tile_map_size_spec().spec_map_count(),
        ensures
            r.base() == VRAM_BASE + 2048 * ((get_bits(self.view().cnt, 8, 5) + screen) % 32),
            r.map_shift() == 5,
            r.map_length() == 32,
            r.map_area() == 1024,
    {
        let raw_screen = (self.tile_base() + screen) % 32;
        let base = VRAM_BASE + 2048 * raw_screen;
        assert(1usize << 5usize == 32) by (bit_vector);
        MapAccess::new(base, 5)
    }

    /// Whether this layer is enabled.
    pub fn enabled(&self) -> (r: bool)
        ensures
            r == self.view().is_enabled,
    {
        self.is_enabled
    }

    /// Sets whether this layer is enabled.
    pub fn set_enabled(&mut self, enabled: bool)
        ensures
            final(self).view() == (LayerView { is_enabled: enabled, ..old(self).view() }),
    {
        self.is_enabled = enabled;
    }

    /// The horizontal offset of this layer.
    pub fn h_offsets(&self) -> (r: i16)
        ensures
            r == self.view().h_offset,
    {
        self.h_offset
    }

    /// Sets the horizontal offset of this layer.
    pub fn set_h_offset(&mut self, value: i16)
        ensures
            final(self).view() == (LayerView { h_offset: value, ..old(self).view() }),
    {
        self.h_offset = value;
    }

    /// The vertical offset of this layer.
    pub fn v_offset(&self) -> (r: i16)
        ensures
            r == self.view().v_offset,
    {
        self.v_offset
    }

    /// Sets the vertical offset of this layer.
    pub fn set_v_offset(&mut self, value: i16)
        ensures
            final(self).view() == (LayerView { v_offset: value, ..old(self).view() }),
    {
        self.v_offset = value;
    }

    /// Returns the offset of this layer.
    pub fn offset(&self) -> (r: (i16, i16))
        ensures
            r == (self.view().h_offset, self.view().v_offset),
    {
        (self.h_offset, self.v_offset)
    }

    /// Sets the offset of this layer.
    pub fn set_offset(&mut self, x: i16, y: i16)
        ensures
            final(self).view() == (LayerView { h_offset: x, v_offset: y, ..old(self).view() }),
    {
        self.set_h_offset(x);
        self.set_v_offset(y);
    }

    /// The priority of this layer: 0 is the highest, and 3 is the lowest.
    pub fn bg_priority(&self) -> (r: u32)
        ensures
            r == get_bits(self.view().cnt, 0, 2),
    {
        self.cnt.bg_priority()
    }

    /// Sets the priority of this layer: 0 is the highest, and 3 is the lowest.
    pub fn set_bg_priority(&mut self, value: u32)
        requires
            value < 4,
        ensures
            final(self).view() == (LayerView {
                cnt: set_bits(old(self).view().cnt, 0, 2, value),
                ..old(self).view()
            }),
    {
        self.cnt = self.cnt.with_bg_priority(value);
    }

    /// The character data base block of this layer, between 0 and 3.
    pub fn char_base(&self) -> (r: usize)
        ensures
            r == get_bits(self.view().cnt, 2, 2),
    {
        self.cnt.char_base()
    }

    /// Sets the character data base block of this layer; the value must be between 0 and 3.
    pub fn set_char_base(&mut self, value: usize)
        requires
            value < 4,
        ensures
            final(self).view() == (LayerView {
                cnt: set_bits(old(self).view().cnt, 2, 2, value as u32),
                ..old(self).view()
            }),
    {
        self.cnt = self.cnt.with_char_base(value);
    }

    /// Whether the mosaic effect is enabled for this layer.
    pub fn mosaic_enabled(&self) -> (r: bool)
        ensures
            r == (get_bits(self.view().cnt, 6, 1) == 1),
    {
        self.cnt.enable_mosaic()
    }

    /// Sets whether the mosaic effect is enabled for this layer.
    pub fn set_mosaic_enabled(&mut self, value: bool)
        ensures
            final(self).view() == (LayerView {
                cnt: set_bits(old(self).view().cnt, 6, 1, if value {
                    1
                } else {
                    0
                }),
                ..old(self).view()
            }),
    {
        self.cnt = self.cnt.with_mosaic(value);
    }

    /// Whether to use 256-color palettes for this layer.
    pub fn enable_256_color(&self) -> (r: bool)
        ensures
            r == (get_bits(self.view().cnt, 7, 1) == 1),
    {
        self.cnt.enable_256_color()
    }

    /// Sets whether to use 256-color palettes for this layer.
    pub fn set_enable_256_color(&mut self, value: bool)
        ensures
            final(self).view() == (LayerView {
                cnt: set_bits(old(self).view().cnt, 7, 1, if value {
                    1
                } else {
                    0
                }),
                ..old(self).view()
            }),
    {
        self.cnt = self.cnt.with_enable_256_color(value);
    }

    /// The tile map base block of this layer, between 0 and 31.
    pub fn tile_base(&self) -> (r: usize)
        ensures
            r == get_bits(self.view().cnt, 8, 5),
            r < 32,
    {
        self.cnt.tile_map_base()
    }

    /// Sets the tile map base block of this layer; the value must be between 0 and 31.
    pub fn set_tile_base(&mut self, value: usize)
        requires
            value < 32,
        ensures
            final(self).view() == (LayerView {
                cnt: set_bits(old(self).view().cnt, 8, 5, value as u32),
                ..old(self).view()
            }),
    {
        self.cnt = self.cnt.with_tile_map_base(value);
    }

    /// The tile map size of this layer.
    pub closed spec fn tile_map_size_spec(&self) -> TileLayerSize {
        size_from_code(get_bits(self.cnt@, 14, 2))
    }

    /// The tile map size for this layer.
    pub fn tile_map_size(&self) -> (r: TileLayerSize)
        ensures
            r == self.tile_map_size_spec(),
            r == size_from_code(get_bits(self.view().cnt, 14, 2)),
            r.code() == get_bits(self.view().cnt, 14, 2),
    {
        let s = self.cnt.screen_size();
        if s == 0 {
            TileLayerSize::Map256x256
        } else if s == 1 {
            TileLayerSize::Map512x256
        } else if s == 2 {
            TileLayerSize::Map256x512
        } else {
            TileLayerSize::Map512x512
        }
    }

    /// Sets the tile map size for this layer.
    pub fn set_tile_map_size(&mut self, value: TileLayerSize)
        ensures
            final(self).view() == (LayerView {
                cnt: set_bits(old(self).view().cnt, 14, 2, value.code()),
                ..old(self).view()
            }),
            final(self).tile_map_size_spec() == value,
            size_from_code(get_bits(final(self).view().cnt, 14, 2)) == value,
    {
        self.cnt = self.cnt.with_screen_size(value.to_u32());
        proof {
            lemma_size_reads_back(old(self).view().cnt, value);
        }
    }
}

/// A tile layer that is currently shown.
#[derive(Copy, Clone, Debug)]
pub struct ActiveTileLayer {
    layer: TileLayer,
}

impl ActiveTileLayer {
    /// The settings of the layer.
    pub closed spec fn view(&self) -> LayerView {
        self.layer.view()
    }

    /// The tile map size of this layer.
    pub closed spec fn tile_map_size_spec(&self) -> TileLayerSize {
        self.layer.tile_map_size_spec()
    }

    /// Ends the active state, returning the inactive layer.
    pub fn deactivate(self) -> (r: TileLayer)
        ensures
            r.view() == self.view(),
    {
        self.layer
    }

    /// Returns a character access appropriate for this layer.
    pub fn char_access(&self) -> (r: CharAccess)
        ensures
            r.base() == VRAM_BASE + 16 * 1024 * get_bits(self.view().cnt, 2, 2),
            r.lower_bound() == 0,
            r.upper_bound() == if get_bits(self.view().cnt, 2, 2) <= 2 {
                1024usize
            } else {
                512usize
            },
    {
        self.layer.char_access()
    }

    /// Returns a tile map access for screen `screen` of this layer.
    pub fn map_access(&self, screen: usize) -> (r: MapAccess)
        requires
            screen < self.tile_map_size_spec().spec_map_count(),
        ensures
            r.base() == VRAM_BASE + 2048 * ((get_bits(self.view().cnt, 8, 5) + screen) % 32),
            r.map_shift() == 5,
            r.map_length() == 32,
            r.map_area() == 1024,
    {
        self.layer.map_access(screen)
    }

    /// Whether this layer is enabled.
    pub fn enabled(&self) -> (r: bool)
        ensures
            r == self.view().is_enabled,
    {
        self.layer.enabled()
    }

    /// The priority of this layer.
    pub fn bg_priority(&self) -> (r: u32)
        ensures
            r == get_bits(self.view().cnt, 0, 2),
    {
        self.layer.bg_priority()
    }

    /// The character data base block of this layer.
    pub fn char_base(&self) -> (r: usize)
        ensures
            r == get_bits(self.view().cnt, 2, 2),
    {
        self.layer.char_base()
    }

    /// Whether the mosaic effect is enabled for this layer.
    pub fn mosaic_enabled(&self) -> (r: bool)
        ensures
            r == (get_bits(self.view().cnt, 6, 1) == 1),
    {
        self.layer.mosaic_enabled()
    }

    /// Whether to use 256-color palettes for this layer.
    pub fn enable_256_color(&self) -> (r: bool)
        ensures
            r == (get_bits(self.view().cnt, 7, 1) == 1),
    {
        self.layer.enable_256_color()
    }

    /// The tile map base block of this layer.
    pub fn tile_base(&self) -> (r: usize)
        ensures
            r == get_bits(self.view().cnt, 8, 5),
    {
        self.layer.tile_base()
    }

    /// The tile map size for this layer.
    pub fn tile_map_size(&self) -> (r: TileLayerSize)
        ensures
            r == self.tile_map_size_spec(),
            r == size_from_code(get_bits(self.view().cnt, 14, 2)),
            r.code() == get_bits(self.view().cnt, 14, 2),
    {
        self.layer.tile_map_size()
    }

    /// The horizontal offset of this layer.
    pub fn h_offsets(&self) -> (r: i16)
        ensures
            r == self.view().h_offset,
    {
        self.layer.h_offsets()
    }

    /// The vertical offset of this layer.
    pub fn v_offset(&self) -> (r: i16)
        ensures
            r == self.view().v_offset,
    {
        self.layer.v_offset()
    }

    /// Returns the offset of this layer.
    pub fn offset(&self) -> (r: (i16, i16))
        ensures
            r == (self.view().h_offset, self.view().v_offset),
    {
        self.layer.offset()
    }

    /// Starts a batch of changes to this layer; the registers are written once when the batch
    /// is finished.
    pub fn edit(self) -> (r: ActiveTileLayerEditGuard)
        ensures
            r.view() == self.view(),
            r.dirty() == (false, false, false, false),
    {
        ActiveTileLayerEditGuard::new(self)
    }

    /// Sets whether this layer is enabled.
    pub fn set_enabled(self, enabled: bool) -> (r: ActiveTileLayerEditGuard)
        ensures
            r.view() == (LayerView { is_enabled: enabled, ..self.view() }),
            r.dirty() == (false, false, false, true),
    {
        self.edit().set_enabled(enabled)
    }

    /// Sets the horizontal offset of this layer.
    pub fn set_h_offset(self, value: i16) -> (r: ActiveTileLayerEditGuard)
        ensures
            r.view() == (LayerView { h_offset: value, ..self.view() }),
            r.dirty() == (false, true, false, false),
    {
        self.edit().set_h_offset(value)
    }

    /// Sets the vertical offset of this layer.
    pub fn set_v_offset(self, value: i16) -> (r: ActiveTileLayerEditGuard)
        ensures
            r.view() == (LayerView { v_offset: value, ..self.view() }),
            r.dirty() == (false, false, true, false),
    {
        self.edit().set_v_offset(value)
    }

    /// Sets the offset of this layer.
    pub fn set_offset(self, x: i16, y: i16) -> (r: ActiveTileLayerEditGuard)
        ensures
            r.view() == (LayerView { h_offset: x, v_offset: y, ..self.view() }),
            r.dirty() == (false, true, true, false),
    {
        self.edit().set_offset(x, y)
    }

    /// Sets the priority of this layer.
    pub fn set_bg_priority(self, value: u32) -> (r: ActiveTileLayerEditGuard)
        requires
            value < 4,
        ensures
            r.view() == (LayerView { cnt: set_bits(self.view().cnt, 0, 2, value), ..self.view() }),
            r.dirty() == (true, false, false, false),
    {
        self.edit().set_bg_priority(value)
    }

    /// Sets the character data base block of this layer.
    pub fn set_char_base(self, value: usize) -> (r: ActiveTileLayerEditGuard)
        requires
            value < 4,
        ensures
            r.view() == (LayerView {
                cnt: set_bits(self.view().cnt, 2, 2, value as u32),
                ..self.view()
            }),
            r.dirty() == (true, false, false, false),
    {
        self.edit().set_char_base(value)
    }

    /// Sets whether the mosaic effect is enabled for this layer.
    pub fn set_mosaic_enabled(self, value: bool) -> (r: ActiveTileLayerEditGuard)
        ensures
            r.view() == (LayerView {
                cnt: set_bits(self.view().cnt, 6, 1, if value {
                    1
                } else {
                    0
                }),
                ..self.view()
            }),
            r.dirty() == (true, false, false, false),
    {
        self.edit().set_mosaic_enabled(value)
    }

    /// Sets whether to use 256-color palettes for this layer.
    pub fn set_enable_256_color(self, value: bool) -> (r: ActiveTileLayerEditGuard)
        ensures
            r.view() == (LayerView {
                cnt: set_bits(self.view().cnt, 7, 1, if value {
                    1
                } else {
                    0
                }),
                ..self.view()
            }),
            r.dirty() == (true, false, false, false),
    {
        self.edit().set_enable_256_color(value)
    }

    /// Sets the tile map base block of this layer.
    pub fn set_tile_base(self, value: usize) -> (r: ActiveTileLayerEditGuard)
        requires
            value < 32,
        ensures
            r.view() == (LayerView {
                cnt: set_bits(self.view().cnt, 8, 5, value as u32),
                ..self.view()
            }),
            r.dirty() == (true, false, false, false),
    {
        self.edit().set_tile_base(value)
    }

    /// Sets the tile map size for this layer.
    pub fn set_tile_map_size(self, value: TileLayerSize) -> (r: ActiveTileLayerEditGuard)
        ensures
            r.view() == (LayerView {
                cnt: set_bits(self.view().cnt, 14, 2, value.code()),
                ..self.view()
            }),
            size_from_code(get_bits(r.view().cnt, 14, 2)) == value,
            r.dirty() == (true, false, false, false),
    {
        proof {
            lemma_size_reads_back(self.view().cnt, value);
        }
        self.edit().set_tile_map_size(value)
    }
}

/// A batch of changes to an active layer. The changed registers are written once, when the
/// batch is finished.
#[derive(Debug)]
pub struct ActiveTileLayerEditGuard {
    layer: ActiveTileLayer,
    is_cnt_dirty: bool,
    is_hoff_dirty: bool,
    is_voff_dirty: bool,
    is_enabled_dirty: bool,
}

/// The writes that finish a batch of changes: each changed register, in the order control,
/// horizontal offset, vertical offset, display control.
pub open spec fn pending_writes(l: LayerView, dirty: (bool, bool, bool, bool), dispcnt: u32) -> Seq<
    IoWrite,
> {
    let s0 = if dirty.0 {
        seq![cnt_write(l)]
    } else {
        Seq::empty()
    };
    let s1 = if dirty.1 {
        s0.push(hoff_write(l))
    } else {
        s0
    };
    let s2 = if dirty.2 {
        s1.push(voff_write(l))
    } else {
        s1
    };
    if dirty.3 {
        s2.push(IoWrite::U16 { addr: DISPCNT, value: dispcnt_with_layer(dispcnt, l) as u16 })
    } else {
        s2
    }
}

impl ActiveTileLayerEditGuard {
    /// The settings of the layer.
    pub closed spec fn view(&self) -> LayerView {
        self.layer.view()
    }

    /// Which registers need writing: control, horizontal offset, vertical offset, display
    /// control.
    pub closed spec fn dirty(&self) -> (bool, bool, bool, bool) {
        (self.is_cnt_dirty, self.is_hoff_dirty, self.is_voff_dirty, self.is_enabled_dirty)
    }

    /// A batch with no changes.
    pub fn new(layer: ActiveTileLayer) -> (r: Self)
        ensures
            r.view() == layer.view(),
            r.dirty() == (false, false, false, false),
    {
        ActiveTileLayerEditGuard {
            layer,
            is_cnt_dirty: false,
            is_hoff_dirty: false,
            is_voff_dirty: false,
            is_enabled_dirty: false,
        }
    }

    fn mark_cnt_dirty(self) -> (r: Self)
        ensures
            r.view() == self.view(),
            r.dirty() == (true, self.dirty().1, self.dirty().2, self.dirty().3),
    {
        ActiveTileLayerEditGuard { is_cnt_dirty: true, ..self }
    }

    fn mark_hoff_dirty(self) -> (r: Self)
        ensures
            r.view() == self.view(),
            r.dirty() == (self.dirty().0, true, self.dirty().2, self.dirty().3),
    {
        ActiveTileLayerEditGuard { is_hoff_dirty: true, ..self }
    }

    fn mark_voff_dirty(self) -> (r: Self)
        ensures
            r.view() == self.view(),
            r.dirty() == (self.dirty().0, self.dirty().1, true, self.dirty().3),
    {
        ActiveTileLayerEditGuard { is_voff_dirty: true, ..self }
    }

    fn mark_enabled_dirty(self) -> (r: Self)
        ensures
            r.view() == self.view(),
            r.dirty() == (self.dirty().0, self.dirty().1, self.dirty().2, true),
    {
        ActiveTileLayerEditGuard { is_enabled_dirty: true, ..self }
    }

    /// Sets whether this layer is enabled.
    pub fn set_enabled(self, enabled: bool) -> (r: Self)
        ensures
            r.view() == (LayerView { is_enabled: enabled, ..self.view() }),
            r.dirty() == (self.dirty().0, self.dirty().1, self.dirty().2, true),
    {
        let mut g = self;
        g.layer.layer.set_enabled(enabled);
        g.mark_enabled_dirty()
    }

    /// Sets the horizontal offset of this layer.
    pub fn set_h_offset(self, value: i16) -> (r: Self)
        ensures
            r.view() == (LayerView { h_offset: value, ..self.view() }),
            r.dirty() == (self.dirty().0, true, self.dirty().2, self.dirty().3),
    {
        let mut g = self;
        g.layer.layer.set_h_offset(value);
        g.mark_hoff_dirty()
    }

    /// Sets the vertical offset of this layer.
    pub fn set_v_offset(self, value: i16) -> (r: Self)
        ensures
            r.view() == (LayerView { v_offset: value, ..self.view() }),
            r.dirty() == (self.dirty().0, self.dirty().1, true, self.dirty().3),
    {
        let mut g = self;
        g.layer.layer.set_v_offset(value);
        g.mark_voff_dirty()
    }

    /// Sets the offset of this layer.
    pub fn set_offset(self, x: i16, y: i16) -> (r: Self)
        ensures
            r.view() == (LayerView { h_offset: x, v_offset: y, ..self.view() }),
            r.dirty() == (self.dirty().0, true, true, self.dirty().3),
    {
        let mut g = self;
        g.layer.layer.set_offset(x, y);
        g.mark_hoff_dirty().mark_voff_dirty()
    }

    /// Sets the priority of this layer.
    pub fn set_bg_priority(self, value: u32) -> (r: Self)
        requires
            value < 4,
        ensures
            r.view() == (LayerView { cnt: set_bits(self.view().cnt, 0, 2, value), ..self.view() }),
            r.dirty() == (true, self.dirty().1, self.dirty().2, self.dirty().3),
    {
        let mut g = self;
        g.layer.layer.set_bg_priority(value);
        g.mark_cnt_dirty()
    }

    /// Sets the character data base block of this layer.
    pub fn set_char_base(self, value: usize) -> (r: Self)
        requires
            value < 4,
        ensures
            r.view() == (LayerView {
                cnt: set_bits(self.view().cnt, 2, 2, value as u32),
                ..self.view()
            }),
            r.dirty() == (true, self.dirty().1, self.dirty().2, self.dirty().3),
    {
        let mut g = self;
        g.layer.layer.set_char_base(value);
        g.mark_cnt_dirty()
    }

    /// Sets whether the mosaic effect is enabled for this layer.
    pub fn set_mosaic_enabled(self, value: bool) -> (r: Self)
        ensures
            r.view() == (LayerView {
                cnt: set_bits(self.view().cnt, 6, 1, if value {
                    1
                } else {
                    0
                }),
                ..self.view()
            }),
            r.dirty() == (true, self.dirty().1, self.dirty().2, self.dirty().3),
    {
        let mut g = self;
        g.layer.layer.set_mosaic_enabled(value);
        g.mark_cnt_dirty()
    }

    /// Sets whether to use 256-color palettes for this layer.
    pub fn set_enable_256_color(self, value: bool) -> (r: Self)
        ensures
            r.view() == (LayerView {
                cnt: set_bits(self.view().cnt, 7, 1, if value {
                    1
                } else {
                    0
                }),
                ..self.view()
            }),
            r.dirty() == (true, self.dirty().1, self.dirty().2, self.dirty().3),
    {
        let mut g = self;
        g.layer.layer.set_enable_256_color(value);
        g.mark_cnt_dirty()
    }

    /// Sets the tile map base block of this layer.
    pub fn set_tile_base(self, value: usize) -> (r: Self)
        requires
            value < 32,
        ensures
            r.view() == (LayerView {
                cnt: set_bits(self.view().cnt, 8, 5, value as u32),
                ..self.view()
            }),
            r.dirty() == (true, self.dirty().1, self.dirty().2, self.dirty().3),
    {
        let mut g = self;
        g.layer.layer.set_tile_base(value);
        g.mark_cnt_dirty()
    }

    /// Sets the tile map size for this layer.
    pub fn set_tile_map_size(self, value: TileLayerSize) -> (r: Self)
        ensures
            r.view() == (LayerView {
                cnt: set_bits(self.view().cnt, 14, 2, value.code()),
                ..self.view()
            }),
            size_from_code(get_bits(r.view().cnt, 14, 2)) == value,
            r.dirty() == (true, self.dirty().1, self.dirty().2, self.dirty().3),
    {
        proof {
            lemma_size_reads_back(self.view().cnt, value);
        }
        let mut g = self;
        g.layer.layer.set_tile_map_size(value);
        g.mark_cnt_dirty()
    }

    /// Finishes the batch: returns the layer and the writes of each changed register, the
    /// display control register being derived from its current value `dispcnt`.
    pub fn finish(self, dispcnt: DispCnt) -> (r: (ActiveTileLayer, Vec<IoWrite>))
        ensures
            r.0.view() == self.view(),
            r.1@ == pending_writes(self.view(), self.dirty(), dispcnt@),
    {
        let mut w: Vec<IoWrite> = Vec::new();
        if self.is_cnt_dirty {
            w.push(self.layer.layer.write_cnt());
        }
        if self.is_hoff_dirty {
            w.push(self.layer.layer.write_hoff());
        }
        if self.is_voff_dirty {
            w.push(self.layer.layer.write_voff());
        }
        if self.is_enabled_dirty {
            w.push(self.layer.layer.write_enabled_from_guard(dispcnt));
        }
        proof {
            let p = pending_writes(self.view(), self.dirty(), dispcnt@);
            assert(w@ =~= p);
        }
        (self.layer, w)
    }
}

} // verus!
