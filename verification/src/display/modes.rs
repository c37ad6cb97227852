//! Graphics modes built from the tile layers.
use crate::bits::set_bits;
use crate::display::layers::{
    cnt_write, hoff_write, voff_write, ActiveTileLayer, LayerId, LayerView, TileLayer,
};
use crate::io::{IoWrite, DISPCNT};
use crate::mmio::display::{DispCnt, DispMode};
use crate::sync::{RawMutex, RawMutexGuard};
use vstd::prelude::*;

verus! {

/// `1` for `true`, `0` for `false`.
pub open spec fn flag(b: bool) -> u32 {
    if b {
        1
    } else {
        0
    }
}

/// The display control value that shows mode 0 with the given layers, given the register's
/// current value: mode 0, no forced blank, and each background shown as its layer says.
pub open spec fn mode0_dispcnt(d: u32, ls: Seq<LayerView>) -> u32 {
    set_bits(
        set_bits(
            set_bits(
                set_bits(set_bits(set_bits(d, 0, 3, 0), 7, 1, 0), 8, 1, flag(ls[0].is_enabled)),
                9,
                1,
                flag(ls[1].is_enabled),
            ),
            10,
            1,
            flag(ls[2].is_enabled),
        ),
        11,
        1,
        flag(ls[3].is_enabled),
    )
}

/// The writes that apply a layer's settings when it is activated.
pub open spec fn layer_writes(l: LayerView) -> Seq<IoWrite> {
    if l.is_enabled {
        seq![cnt_write(l), hoff_write(l), voff_write(l)]
    } else {
        Seq::empty()
    }
}

/// The writes that activate mode 0: each layer's settings in order, then the display control.
pub open spec fn mode0_writes(d: u32, ls: Seq<LayerView>) -> Seq<IoWrite> {
    layer_writes(ls[0]) + layer_writes(ls[1]) + layer_writes(ls[2]) + layer_writes(ls[3]).push(
        IoWrite::U16 { addr: DISPCNT, value: mode0_dispcnt(d, ls) as u16 },
    )
}

/// The display mode with four tile-based background layers.
#[derive(Debug)]
pub struct Mode0 {
    /// The four background layers.
    pub layers: [TileLayer; 4],
}

/// The layer views of four layers.
pub open spec fn views_of(ls: Seq<TileLayer>) -> Seq<LayerView> {
    Seq::new(4, |i: int| ls[i].view())
}

impl Mode0 {
    /// The settings of the four layers.
    pub open spec fn view(&self) -> Seq<LayerView> {
        views_of(self.layers@)
    }

    /// Creates the mode with four disabled layers, layer `i` at index `i`.
    pub fn new() -> (r: Self)
        ensures
            forall|i: int|
                0 <= i < 4 ==> {
                    &&& (#[trigger] r.view()[i]).id.spec_index() == i
                    &&& r.view()[i].cnt == 0
                    &&& r.view()[i].h_offset == 0
                    &&& r.view()[i].v_offset == 0
                    &&& !r.view()[i].is_enabled
                },
    {
        let r = Mode0 {
            layers: [
                TileLayer::new(LayerId::Layer0),
                TileLayer::new(LayerId::Layer1),
                TileLayer::new(LayerId::Layer2),
                TileLayer::new(LayerId::Layer3),
            ],
        };
        r
    }

    fn activate_raw(self, dispcnt: DispCnt, lock: Option<RawMutexGuard>) -> (r: (
        ActiveMode0,
        Vec<IoWrite>,
    ))
        ensures
            r.0.view() == self.view(),
            r.0.holds_lock() == lock.is_some(),
            r.1@ == mode0_writes(dispcnt@, self.view()),
    {
        let ghost ls = self.view();
        let layer0 = self.layers[0];
        let layer1 = self.layers[1];
        let layer2 = self.layers[2];
        let layer3 = self.layers[3];
        let new_disp_cnt = dispcnt.with_mode(DispMode::Mode0).with_forced_blank(false).with_display_bg0(
            layer0.enabled(),
        ).with_display_bg1(layer1.enabled()).with_display_bg2(layer2.enabled()).with_display_bg3(
            layer3.enabled(),
        );
        let (a0, mut w) = layer0.activate();
        let (a1, mut w1) = layer1.activate();
        let (a2, mut w2) = layer2.activate();
        let (a3, mut w3) = layer3.activate();
        w.append(&mut w1);
        w.append(&mut w2);
        w.append(&mut w3);
        w.push(IoWrite::U16 { addr: DISPCNT, value: new_disp_cnt.bits() });
        let active = ActiveMode0 { layers: [a0, a1, a2, a3], lock };
        assert(active.view() =~= ls);
        assert(w@ =~= mode0_writes(dispcnt@, ls));
        (active, w)
    }

    /// Activates this mode, taking the graphics lock, which must be free: two graphics modes
    /// are never active at the same time.
    ///
    /// Given the current display control value, returns the active mode and the register
    /// writes that show it.
    pub fn activate(self, dispcnt: DispCnt, gfx_lock: &mut RawMutex) -> (r: (
        ActiveMode0,
        Vec<IoWrite>,
    ))
        requires
            !old(gfx_lock).is_locked(),
        ensures
            final(gfx_lock).is_locked(),
            r.0.view() == self.view(),
            r.0.holds_lock(),
            r.1@ == mode0_writes(dispcnt@, self.view()),
    {
        let guard = gfx_lock.lock();
        self.activate_raw(dispcnt, Some(guard))
    }

    /// Activates this mode without taking the graphics lock.
    ///
    /// This should not be used except in very special circumstances, such as in a panic handler
    /// that may need to be called in a context where the graphics are already locked.
    pub fn activate_no_lock(self, dispcnt: DispCnt) -> (r: (ActiveMode0, Vec<IoWrite>))
        ensures
            r.0.view() == self.view(),
            !r.0.holds_lock(),
            r.1@ == mode0_writes(dispcnt@, self.view()),
    {
        self.activate_raw(dispcnt, None)
    }
}

/// Mode 0 while it is shown.
pub struct ActiveMode0 {
    /// The four active background layers.
    pub layers: [ActiveTileLayer; 4],
    lock: Option<RawMutexGuard>,
}

/// The layer views of four active layers.
pub open spec fn active_views_of(ls: Seq<ActiveTileLayer>) -> Seq<LayerView> {
    Seq::new(4, |i: int| ls[i].view())
}

impl ActiveMode0 {
    /// The settings of the four layers.
    pub closed spec fn view(&self) -> Seq<LayerView> {
        active_views_of(self.layers@)
    }

    /// Whether this mode holds the graphics lock.
    pub closed spec fn holds_lock(&self) -> bool {
        self.lock.is_some()
    }

    /// Ends the mode, releasing the graphics lock if it holds it.
    ///
    /// Given the current display control value, returns the inactive mode and the write that
    /// blanks the screen, as no graphics mode is shown any more.
    pub fn deactivate(self, dispcnt: DispCnt, gfx_lock: &mut RawMutex) -> (r: (Mode0, IoWrite))
        requires
            self.holds_lock() ==> old(gfx_lock).is_locked(),
        ensures
            self.holds_lock() ==> !final(gfx_lock).is_locked(),
            !self.holds_lock() ==> *final(gfx_lock) == *old(gfx_lock),
            r.0.view() == self.view(),
            r.1 == (IoWrite::U16 { addr: DISPCNT, value: set_bits(dispcnt@, 7, 1, 1) as u16 }),
    {
        let ghost ls = self.view();
        let ActiveMode0 { layers, lock } = self;
        let a0 = layers[0];
        let a1 = layers[1];
        let a2 = layers[2];
        let a3 = layers[3];
        if let Some(guard) = lock {
            gfx_lock.unlock(guard);
        }
        let mode = Mode0 { layers: [a0.deactivate(), a1.deactivate(), a2.deactivate(), a3.deactivate()] };
        assert(mode.view() =~= ls);
        (mode, IoWrite::U16 { addr: DISPCNT, value: dispcnt.with_forced_blank(true).bits() })
    }
}

} // verus!
