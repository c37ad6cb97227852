//! The GBA's four hardware timers: their settings, and the register writes that apply them.
use crate::bits::{get_bits, set_bits};
use crate::io::{IoWrite, Register, Safe, TM_CNT_H, TM_CNT_L};
use crate::mmio::sys::{TimerCnt, TimerScale};
use crate::sync::{LockSet, RawMutexGuard};
use vstd::prelude::*;

verus! {

/// Used to specify a particular timer ID.
#[derive(Copy, Clone, Debug, PartialEq, Eq, Structural)]
pub enum TimerId {
    /// The first timer. Cascades from nothing and cascades to `Timer1`.
    Timer0,
    /// The second timer. Cascades from `Timer0` and cascades to `Timer2`.
    Timer1,
    /// The third timer. Cascades from `Timer1` and cascades to `Timer3`.
    Timer2,
    /// The fourth timer. Cascades from `Timer2` and cascades to nothing.
    Timer3,
}

impl TimerId {
    /// The number of the timer.
    pub open spec fn spec_index(self) -> nat {
        match self {
            TimerId::Timer0 => 0,
            TimerId::Timer1 => 1,
            TimerId::Timer2 => 2,
            TimerId::Timer3 => 3,
        }
    }

    /// The number of the timer.
    pub fn index(&self) -> (r: usize)
        ensures
            r == self.spec_index(),
            r < 4,
    {
        match self {
            TimerId::Timer0 => 0,
            TimerId::Timer1 => 1,
            TimerId::Timer2 => 2,
            TimerId::Timer3 => 3,
        }
    }

    /// Returns the timer that this one cascades to.
    pub fn cascade_destination(self) -> (r: Option<TimerId>)
        ensures
            self.spec_index() < 3 ==> r is Some && r->0.spec_index() == self.spec_index() + 1,
            self.spec_index() == 3 ==> r is None,
    {
        match self {
            TimerId::Timer0 => Some(TimerId::Timer1),
            TimerId::Timer1 => Some(TimerId::Timer2),
            TimerId::Timer2 => Some(TimerId::Timer3),
            TimerId::Timer3 => None,
        }
    }

    /// Returns the timer that this one cascades from.
    pub fn cascade_source(self) -> (r: Option<TimerId>)
        ensures
            self.spec_index() > 0 ==> r is Some && r->0.spec_index() + 1 == self.spec_index(),
            self.spec_index() == 0 ==> r is None,
    {
        match self {
            TimerId::Timer0 => None,
            TimerId::Timer1 => Some(TimerId::Timer0),
            TimerId::Timer2 => Some(TimerId::Timer1),
            TimerId::Timer3 => Some(TimerId::Timer2),
        }
    }

    /// Creates a timer object for this timer, taking the timer's lock among the locks of the
    /// four timers, which must be free: each timer is controlled by one object at a time.
    pub fn create(self, locks: &mut LockSet) -> (r: Timer)
        requires
            !old(locks).is_locked(self.spec_index() as int),
        ensures
            final(locks).is_locked(self.spec_index() as int),
            final(locks).same_except(old(locks), self.spec_index() as int),
            r.view() == (TimerView { id: self, cnt: 0, reset_to: 0 }),
    {
        Timer { id: self, cnt: TimerCnt::default(), reset_to: 0, _lock: locks.lock(self.index()) }
    }
}

/// Two timer IDs are the same timer exactly when their numbers are equal.
pub proof fn lemma_timer_index_injective(a: TimerId, b: TimerId)
    ensures
        a.spec_index() == b.spec_index() <==> a == b,
{
}

/// Cascading is a chain: the source of a timer's destination is the timer itself, and the
/// destination of a timer's source is the timer itself.
pub proof fn lemma_cascade_inverse(t: TimerId)
    ensures
        t.spec_index() < 3 ==> cascade_source_spec(cascade_destination_spec(t)->0) == Some(t),
        t.spec_index() > 0 ==> cascade_destination_spec(cascade_source_spec(t)->0) == Some(t),
{
}

/// The timer that `t` cascades to.
pub open spec fn cascade_destination_spec(t: TimerId) -> Option<TimerId> {
    match t {
        TimerId::Timer0 => Some(TimerId::Timer1),
        TimerId::Timer1 => Some(TimerId::Timer2),
        TimerId::Timer2 => Some(TimerId::Timer3),
        TimerId::Timer3 => None,
    }
}

/// The timer that `t` cascades from.
pub open spec fn cascade_source_spec(t: TimerId) -> Option<TimerId> {
    match t {
        TimerId::Timer0 => None,
        TimerId::Timer1 => Some(TimerId::Timer0),
        TimerId::Timer2 => Some(TimerId::Timer1),
        TimerId::Timer3 => Some(TimerId::Timer2),
    }
}

/// Controls the way the timer is incremented.
#[derive(Copy, Clone, Debug, PartialEq, Eq, Structural)]
pub enum TimerMode {
    /// The timer increases once for every clock cycle the GBA executes: exactly 2^24 times per
    /// second, and exactly 280896 times per frame.
    Cycle1,
    /// The timer increases once for every 64 clock cycles.
    Cycle64,
    /// The timer increases once for every 256 clock cycles: exactly 65536 times per second.
    Cycle256,
    /// The timer increases once for every 1024 clock cycles: exactly 16384 times per second.
    Cycle1024,
    /// The timer increases every time the previous timer overflows.
    ///
    /// This mode can only be used with timers 1, 2 or 3, as there is no timer before timer 0.
    Cascade,
}

/// The settings of a timer.
pub struct TimerView {
    /// Which timer this is.
    pub id: TimerId,
    /// The control register value.
    pub cnt: u32,
    /// The raw value the counter resets to.
    pub reset_to: u16,
}

/// The control value for a timer mode, given the current control value.
pub open spec fn cnt_with_mode(cnt: u32, mode: TimerMode) -> u32 {
    match mode {
        TimerMode::Cycle1 => set_bits(set_bits(cnt, 0, 2, 0), 2, 1, 0),
        TimerMode::Cycle64 => set_bits(set_bits(cnt, 0, 2, 1), 2, 1, 0),
        TimerMode::Cycle256 => set_bits(set_bits(cnt, 0, 2, 2), 2, 1, 0),
        TimerMode::Cycle1024 => set_bits(set_bits(cnt, 0, 2, 3), 2, 1, 0),
        TimerMode::Cascade => set_bits(cnt, 2, 1, 1),
    }
}

/// Law: choosing a timer mode sets the prescaler field (bits 0-1) of the control value to one
/// tick per 1, 64, 256 or 1024 cycles as the mode says, and clears the cascade bit (bit 2);
/// cascade mode sets the cascade bit and keeps the prescaler. The other bits are kept.
pub proof fn lemma_mode_sets_prescaler(cnt: u32, mode: TimerMode)
    ensures
        mode == TimerMode::Cycle1 ==> get_bits(cnt_with_mode(cnt, mode), 0, 2) == 0,
        mode == TimerMode::Cycle64 ==> get_bits(cnt_with_mode(cnt, mode), 0, 2) == 1,
        mode == TimerMode::Cycle256 ==> get_bits(cnt_with_mode(cnt, mode), 0, 2) == 2,
        mode == TimerMode::Cycle1024 ==> get_bits(cnt_with_mode(cnt, mode), 0, 2) == 3,
        mode == TimerMode::Cascade ==> get_bits(cnt_with_mode(cnt, mode), 0, 2) == get_bits(cnt, 0, 2),
        get_bits(cnt_with_mode(cnt, mode), 2, 1) == if mode == TimerMode::Cascade { 1u32 } else { 0u32 },
        get_bits(cnt_with_mode(cnt, mode), 3, 29) == get_bits(cnt, 3, 29),
{
    let scale: u32 = match mode {
        TimerMode::Cycle1 => 0,
        TimerMode::Cycle64 => 1,
        TimerMode::Cycle256 => 2,
        TimerMode::Cycle1024 => 3,
        TimerMode::Cascade => 0,
    };
    crate::bits::lemma_fits_small(scale, 2);
    crate::bits::lemma_fits_small(0, 1);
    crate::bits::lemma_fits_small(1, 1);
    if mode == TimerMode::Cascade {
        crate::bits::lemma_get_set_same(cnt, 2, 1, 1);
        crate::bits::lemma_get_set_other(cnt, 2, 1, 1, 0, 2);
        crate::bits::lemma_get_set_other(cnt, 2, 1, 1, 3, 29);
    } else {
        let c1 = set_bits(cnt, 0, 2, scale);
        assert(cnt_with_mode(cnt, mode) == set_bits(c1, 2, 1, 0));
        crate::bits::lemma_get_set_same(cnt, 0, 2, scale);
        crate::bits::lemma_get_set_other(cnt, 0, 2, scale, 3, 29);
        crate::bits::lemma_get_set_same(c1, 2, 1, 0);
        crate::bits::lemma_get_set_other(c1, 2, 1, 0, 0, 2);
        crate::bits::lemma_get_set_other(c1, 2, 1, 0, 3, 29);
    }
}

/// Whether a control value has the timer running.
pub open spec fn cnt_enabled(cnt: u32) -> bool {
    crate::bits::get_bits(cnt, 7, 1) == 1
}

/// The write of a timer's control register.
pub open spec fn cnt_h_write(id: TimerId, cnt: u32) -> IoWrite {
    IoWrite::U16 { addr: (TM_CNT_H + 4 * id.spec_index()) as usize, value: cnt as u16 }
}

/// The write of a timer's reload value.
pub open spec fn cnt_l_write(id: TimerId, value: u16) -> IoWrite {
    IoWrite::U16 { addr: (TM_CNT_L + 4 * id.spec_index()) as usize, value }
}

/// The write of a changed control value: made at once only while the timer runs.
pub open spec fn cnt_update(id: TimerId, cnt: u32) -> Seq<IoWrite> {
    if cnt_enabled(cnt) {
        seq![cnt_h_write(id, cnt)]
    } else {
        Seq::empty()
    }
}

/// The writes that start or stop a timer: the reload value when it starts, then the control.
pub open spec fn enable_writes(v: TimerView, enabled: bool) -> Seq<IoWrite> {
    let cnt = set_bits(v.cnt, 7, 1, if enabled { 1 } else { 0 });
    if enabled {
        seq![cnt_l_write(v.id, v.reset_to), cnt_h_write(v.id, cnt)]
    } else {
        seq![cnt_h_write(v.id, cnt)]
    }
}

/// The timer value given its raw counter: the ticks since the last reset, modulo 2^16.
pub open spec fn timer_value(raw: u16, reset_to: u16) -> u32 {
    ((raw - reset_to + 0x10000) % 0x10000) as u32
}

/// The value a timer reads given its raw counter: zero while it is disabled, and otherwise
/// the ticks since its last reset.
pub open spec fn timer_reading(v: TimerView, raw: u16) -> u32 {
    if cnt_enabled(v.cnt) {
        timer_value(raw, v.reset_to)
    } else {
        0
    }
}

/// Used to control a GBA timer.
///
/// Releasing it disables the timer.
pub struct Timer {
    id: TimerId,
    cnt: TimerCnt,
    reset_to: u16,
    _lock: RawMutexGuard,
}

impl Timer {
    /// The settings of the timer.
    pub closed spec fn view(&self) -> TimerView {
        TimerView { id: self.id, cnt: self.cnt@, reset_to: self.reset_to }
    }

    fn write_cnt(&self) -> (r: IoWrite)
        ensures
            r == cnt_h_write(self.view().id, self.view().cnt),
    {
        IoWrite::U16 { addr: TM_CNT_H + 4 * self.id.index(), value: self.cnt.bits() }
    }

    fn write_reset_to(&self) -> (r: IoWrite)
        ensures
            r == cnt_l_write(self.view().id, self.view().reset_to),
    {
        IoWrite::U16 { addr: TM_CNT_L + 4 * self.id.index(), value: self.reset_to }
    }

    fn cnt_changed(&self) -> (r: Vec<IoWrite>)
        ensures
            r@ == cnt_update(self.view().id, self.view().cnt),
    {
        let mut r = Vec::new();
        if self.cnt.enabled() {
            r.push(self.write_cnt());
        }
        r
    }

    /// Sets the timer mode in use; timer 0 cannot cascade. Returns the register writes.
    ///
    /// By default, the timer increments once per processor cycle.
    pub fn set_timer_mode(&mut self, mode: TimerMode) -> (r: Vec<IoWrite>)
        requires
            !(old(self).view().id == TimerId::Timer0 && mode == TimerMode::Cascade),
        ensures
            final(self).view() == (TimerView {
                cnt: cnt_with_mode(old(self).view().cnt, mode),
                ..old(self).view()
            }),
            r@ == cnt_update(final(self).view().id, final(self).view().cnt),
    {
        self.cnt = match mode {
            TimerMode::Cycle1 => self.cnt.with_scale(TimerScale::NoDiv).with_cascade(false),
            TimerMode::Cycle64 => self.cnt.with_scale(TimerScale::Div64).with_cascade(false),
            TimerMode::Cycle256 => self.cnt.with_scale(TimerScale::Div256).with_cascade(false),
            TimerMode::Cycle1024 => self.cnt.with_scale(TimerScale::Div1024).with_cascade(false),
            TimerMode::Cascade => self.cnt.with_cascade(true),
        };
        self.cnt_changed()
    }

    /// Sets whether this timer sends an interrupt when it overflows. Returns the register
    /// writes.
    ///
    /// By default, no interrupt is sent.
    pub fn set_interrupt_enabled(&mut self, enabled: bool) -> (r: Vec<IoWrite>)
        ensures
            final(self).view() == (TimerView {
                cnt: set_bits(old(self).view().cnt, 6, 1, if enabled { 1 } else { 0 }),
                ..old(self).view()
            }),
            r@ == cnt_update(final(self).view().id, final(self).view().cnt),
    {
        self.cnt = self.cnt.with_enable_irq(enabled);
        self.cnt_changed()
    }

    /// Sets whether the timer is enabled. Returns the register writes: when enabling, the
    /// counter is loaded with the reset value first.
    ///
    /// By default, it is disabled.
    pub fn set_enabled(&mut self, enabled: bool) -> (r: Vec<IoWrite>)
        ensures
            final(self).view() == (TimerView {
                cnt: set_bits(old(self).view().cnt, 7, 1, if enabled { 1 } else { 0 }),
                ..old(self).view()
            }),
            r@ == enable_writes(old(self).view(), enabled),
    {
        self.cnt = self.cnt.with_enabled(enabled);
        let mut r = Vec::new();
        if enabled {
            r.push(self.write_reset_to());
        }
        r.push(self.write_cnt());
        r
    }

    /// Sets the threshold at which the timer resets, between 1 and 65536 inclusive. Returns
    /// the register writes.
    ///
    /// When the timer reaches this value, it is immediately reset back to 0.
    pub fn set_overflow_at(&mut self, value: u32) -> (r: Vec<IoWrite>)
        requires
            1 <= value <= 65536,
        ensures
            final(self).view() == (TimerView {
                reset_to: (65536 - value) as u16,
                ..old(self).view()
            }),
            cnt_enabled(old(self).view().cnt) ==> r@ == seq![
                cnt_l_write(old(self).view().id, (65536 - value) as u16),
            ],
            !cnt_enabled(old(self).view().cnt) ==> r@.len() == 0,
    {
        self.set_reset_to((65536 - value) as u16)
    }

    /// Returns the value of the timer given its raw counter value: zero while the timer is
    /// disabled, and otherwise the number of ticks since the timer was last reset.
    pub fn value(&self, raw: u16) -> (r: u32)
        ensures
            r == timer_reading(self.view(), raw),
            !cnt_enabled(self.view().cnt) ==> r == 0,
            r < 0x10000,
    {
        if self.cnt.enabled() {
            raw.wrapping_sub(self.reset_to) as u32
        } else {
            0
        }
    }

    /// The counter register of the timer, whose raw value [`value`](`Timer::value`) turns into
    /// the ticks since the last reset.
    pub fn raw_value(&self) -> (r: Register<u16, Safe>)
        ensures
            r.address() == TM_CNT_L + 4 * self.view().id.spec_index(),
    {
        Register::new(TM_CNT_L + 4 * self.id.index())
    }

    /// Resets the timer immediately without triggering an interrupt, if it runs. Returns the
    /// register writes: the timer is stopped and started again.
    pub fn reset(&mut self) -> (r: Vec<IoWrite>)
        ensures
            final(self).view() == old(self).view(),
            cnt_enabled(old(self).view().cnt) ==> r@ == enable_writes(old(self).view(), false)
                + enable_writes(
                (TimerView { cnt: set_bits(old(self).view().cnt, 7, 1, 0), ..old(self).view() }),
                true,
            ),
            !cnt_enabled(old(self).view().cnt) ==> r@.len() == 0,
    {
        if self.cnt.enabled() {
            let ghost v0 = self.view();
            let mut r = self.set_enabled(false);
            let mut r2 = self.set_enabled(true);
            proof {
                crate::bits::lemma_fits_small(0, 1);
                crate::bits::lemma_fits_small(1, 1);
                crate::bits::lemma_set_set(v0.cnt, 7, 1, 0, 1);
                crate::bits::lemma_set_get(v0.cnt, 7, 1);
            }
            r.append(&mut r2);
            r
        } else {
            Vec::new()
        }
    }

    /// Sets the raw value the timer resets to when it overflows. Returns the register writes:
    /// a running timer gets the value at once.
    pub fn set_reset_to(&mut self, value: u16) -> (r: Vec<IoWrite>)
        ensures
            final(self).view() == (TimerView { reset_to: value, ..old(self).view() }),
            cnt_enabled(old(self).view().cnt) ==> r@ == seq![cnt_l_write(old(self).view().id, value)],
            !cnt_enabled(old(self).view().cnt) ==> r@.len() == 0,
    {
        self.reset_to = value;
        let mut r = Vec::new();
        if self.cnt.enabled() {
            r.push(self.write_reset_to());
        }
        r
    }

    /// Releases the timer and its lock. Returns the register writes: a running timer is
    /// stopped.
    pub fn release(self, locks: &mut LockSet) -> (r: Vec<IoWrite>)
        requires
            old(locks).is_locked(self.view().id.spec_index() as int),
        ensures
            !final(locks).is_locked(self.view().id.spec_index() as int),
            final(locks).same_except(old(locks), self.view().id.spec_index() as int),
            cnt_enabled(self.view().cnt) ==> r@ == seq![cnt_h_write(self.view().id, 0)],
            !cnt_enabled(self.view().cnt) ==> r@.len() == 0,
    {
        let mut r = Vec::new();
        if self.cnt.enabled() {
            r.push(IoWrite::U16 { addr: TM_CNT_H + 4 * self.id.index(), value: 0 });
        }
        let i = self.id.index();
        locks.unlock(i, self._lock);
        r
    }
}

/// After the overflow threshold is set to `n`, a counter that has ticked `k` times since the
/// reset, for `k < n`, gives the value `k`.
pub proof fn lemma_value_counts_ticks(n: u32, k: u32)
    requires
        1 <= n <= 65536,
        k < n,
    ensures
        timer_value(((65536 - n + k) % 65536) as u16, (65536 - n) as u16) == k,
{
}

/// Starts measuring cycles with timers 2 and 3, whose locks must be free: timer 2 counts
/// cycles and timer 3 counts its overflows.
///
/// Returns both timers and the register writes that start them.
pub fn time_cycles_start(locks: &mut LockSet) -> (r: (Timer, Timer, Vec<IoWrite>))
    requires
        !old(locks).is_locked(2),
        !old(locks).is_locked(3),
    ensures
        final(locks).is_locked(2),
        final(locks).is_locked(3),
        final(locks).is_locked(0) == old(locks).is_locked(0),
        final(locks).is_locked(1) == old(locks).is_locked(1),
        r.0.view() == (TimerView { id: TimerId::Timer2, cnt: set_bits(0, 7, 1, 1), reset_to: 0 }),
        r.1.view() == (TimerView {
            id: TimerId::Timer3,
            cnt: set_bits(set_bits(0, 2, 1, 1), 7, 1, 1),
            reset_to: 0,
        }),
        r.2@ == seq![
            cnt_l_write(TimerId::Timer2, 0),
            cnt_h_write(TimerId::Timer2, set_bits(0, 7, 1, 1)),
            cnt_l_write(TimerId::Timer3, 0),
            cnt_h_write(TimerId::Timer3, set_bits(set_bits(0, 2, 1, 1), 7, 1, 1)),
        ],
{
    let mut timer0 = TimerId::Timer2.create(locks);
    let mut timer1 = TimerId::Timer3.create(locks);
    let mut w = timer0.set_enabled(true);
    let mut w1 = timer1.set_timer_mode(TimerMode::Cascade);
    proof {
        crate::bits::lemma_bit_constants();
    }
    let mut w2 = timer1.set_enabled(true);
    w.append(&mut w1);
    w.append(&mut w2);
    (timer0, timer1, w)
}

/// Finishes measuring cycles: given the raw counters of timers 2 and 3 read after the measured
/// work, returns the number of cycles it took and the register writes that stop both timers,
/// which are released.
pub fn time_cycles(
    timer0: Timer,
    timer1: Timer,
    raw0: u16,
    raw1: u16,
    locks: &mut LockSet,
) -> (r: (u32, Vec<IoWrite>))
    requires
        old(locks).is_locked(2),
        old(locks).is_locked(3),
        timer0.view().id == TimerId::Timer2,
        timer1.view().id == TimerId::Timer3,
        timer0.view().reset_to == 0,
        timer1.view().reset_to == 0,
        cnt_enabled(timer0.view().cnt),
        cnt_enabled(timer1.view().cnt),
    ensures
        !final(locks).is_locked(2),
        !final(locks).is_locked(3),
        final(locks).is_locked(0) == old(locks).is_locked(0),
        final(locks).is_locked(1) == old(locks).is_locked(1),
        r.0 == raw0 + raw1 * 0x10000,
        r.1@ == seq![cnt_h_write(TimerId::Timer3, 0), cnt_h_write(TimerId::Timer2, 0)],
{
    let v0 = timer0.value(raw0);
    let v1 = timer1.value(raw1);
    assert(v0 == raw0 && v1 == raw1);
    proof {
        crate::bits::lemma_pack_halves(v0, v1);
    }
    let time = v0 | (v1 << 16);
    let mut w = timer1.release(locks);
    let mut w0 = timer0.release(locks);
    w.append(&mut w0);
    (time, w)
}

} // verus!
