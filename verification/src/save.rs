//! Utilities for writing save media accessors: a timeout that keeps hardware errors in save
//! media from hanging the game, the lock on save media access, and the SRAM wait state.
use crate::bits::set_bits;
use crate::io::{IoWrite, WAITCNT};
use crate::mmio::sys::{WaitCnt, WaitState};
use crate::sync::{LockSet, RawMutex, RawMutexGuard};
use crate::timer::{
    cnt_enabled, cnt_with_mode, enable_writes, timer_reading, Timer, TimerId, TimerMode, TimerView,
};
use vstd::prelude::*;

verus! {

/// An error of a save media access.
#[derive(Copy, Clone, Debug, PartialEq, Eq, Structural)]
pub enum Error {
    /// The save media is already in use.
    MediaInUse,
}

/// A timeout that keeps hardware errors in save media from hanging the game. It counts with a
/// timer, if it has one; without one, it never expires.
pub struct Timeout {
    timer: Option<Timer>,
}

impl Timeout {
    /// The settings of the timer, if there is one.
    pub closed spec fn timer(&self) -> Option<TimerView> {
        match self.timer {
            None => None,
            Some(t) => Some(t.view()),
        }
    }

    /// Creates a timeout counting with the given timer, if any, taking the timer's lock among
    /// the locks of the four timers, which must be free.
    pub fn new(timer: Option<TimerId>, locks: &mut LockSet) -> (r: Self)
        requires
            timer matches Some(id) ==> !old(locks).is_locked(id.spec_index() as int),
        ensures
            timer matches Some(id) ==> final(locks).is_locked(id.spec_index() as int)
                && final(locks).same_except(old(locks), id.spec_index() as int),
            timer.is_none() ==> *final(locks) == *old(locks),
            r.timer() == match timer {
                None => None,
                Some(id) => Some(TimerView { id, cnt: 0, reset_to: 0 }),
            },
    {
        Timeout {
            timer: match timer {
                None => None,
                Some(id) => Some(id.create(locks)),
            },
        }
    }

    /// Starts this timeout: the timer counts every 1024 cycles from zero. Returns the register
    /// writes.
    pub fn start(&mut self) -> (r: Vec<IoWrite>)
        ensures
            match old(self).timer() {
                None => final(self).timer() is None && r@.len() == 0,
                Some(t) => {
                    let t1 = TimerView { cnt: cnt_with_mode(t.cnt, TimerMode::Cycle1024), ..t };
                    &&& final(self).timer() == Some(
                        TimerView { cnt: set_bits(t1.cnt, 7, 1, 1), ..t1 },
                    )
                    &&& r@ == crate::timer::cnt_update(t1.id, t1.cnt) + enable_writes(t1, true)
                },
            },
    {
        match self.timer.take() {
            None => Vec::new(),
            Some(mut timer) => {
                let mut w = timer.set_timer_mode(TimerMode::Cycle1024);
                let mut w2 = timer.set_enabled(true);
                w.append(&mut w2);
                self.timer = Some(timer);
                w
            },
        }
    }

    /// Returns whether more than `check_ms` milliseconds have passed since the timeout was
    /// started, given the timer's raw counter: 17 ticks of 1024 cycles stand for a
    /// millisecond. Without a timer, it never has.
    pub fn check_timeout_met(&self, check_ms: u16, raw: u16) -> (r: bool)
        ensures
            r == match self.timer() {
                None => false,
                Some(t) => check_ms * 17 < timer_reading(t, raw),
            },
    {
        match &self.timer {
            None => false,
            Some(timer) => (check_ms as u32) * 17 < timer.value(raw),
        }
    }

    /// Ends the timeout: its timer is stopped and released with its lock. Returns the register
    /// writes.
    pub fn release(self, locks: &mut LockSet) -> (r: Vec<IoWrite>)
        requires
            self.timer() matches Some(t) ==> old(locks).is_locked(t.id.spec_index() as int),
        ensures
            self.timer() matches Some(t) ==> !final(locks).is_locked(t.id.spec_index() as int)
                && final(locks).same_except(old(locks), t.id.spec_index() as int),
            self.timer() is None ==> *final(locks) == *old(locks),
            match self.timer() {
                None => r@.len() == 0,
                Some(t) => r@ == enable_writes(t, false),
            },
    {
        match self.timer {
            None => Vec::new(),
            Some(mut timer) => {
                let ghost t = timer.view();
                let w = timer.set_enabled(false);
                proof {
                    crate::bits::lemma_fits_small(0, 1);
                    crate::bits::lemma_get_set_same(t.cnt, 7, 1, 0);
                }
                let w2 = timer.release(locks);
                assert(!cnt_enabled(set_bits(t.cnt, 7, 1, 0)));
                assert(w2@.len() == 0);
                w
            },
        }
    }
}

/// Takes the lock on save media access; fails with [`Error::MediaInUse`] where it is held.
pub fn lock_media_access(lock: &mut RawMutex) -> (r: Result<RawMutexGuard, Error>)
    ensures
        r is Ok <==> !old(lock).is_locked(),
        r matches Err(e) ==> e == Error::MediaInUse,
        final(lock).is_locked(),
{
    match lock.try_lock() {
        Some(x) => Ok(x),
        None => Err(Error::MediaInUse),
    }
}

/// The write that sets the SRAM wait state, given the current wait control value.
pub fn set_sram_wait(wait: WaitState, waitcnt: WaitCnt) -> (r: IoWrite)
    ensures
        r == (IoWrite::U16 { addr: WAITCNT, value: set_bits(waitcnt@, 0, 2, wait.code()) as u16 }),
{
    IoWrite::U16 { addr: WAITCNT, value: waitcnt.with_sram_wait(wait).bits() }
}

} // verus!
