use lgba::io::{IoWrite, TM_CNT_H, TM_CNT_L};
use lgba::sync::{InitOnce, LockSet, Mutex, RawMutex};
use lgba::timer::{time_cycles, time_cycles_start, TimerId, TimerMode};

#[test]
fn raw_mutex_lock_and_try_lock() {
    let mut m = RawMutex::new();
    assert!(!m.locked());
    let g = m.lock();
    assert!(m.locked());
    assert!(m.try_lock().is_none());
    m.unlock(g);
    assert!(!m.locked());
    let g2 = m.try_lock();
    assert!(g2.is_some());
    m.unlock(g2.unwrap());
    assert!(!m.locked());
}

#[test]
fn mutex_round_trip_keeps_value() {
    let mut m = Mutex::new(5u32);
    let mut g = m.lock();
    assert_eq!(*g.get(), 5);
    assert!(m.try_lock().is_none());
    g.set(9);
    m.unlock(g);
    let g = m.try_lock().unwrap();
    assert_eq!(*g.get(), 9);
    m.unlock(g);
}

#[test]
fn init_once_runs_initializer_once() {
    let mut cell: InitOnce<u32> = InitOnce::new();
    assert!(!cell.is_initialized());
    assert!(cell.try_get_existing().is_none());
    assert_eq!(*cell.get(|| 7), 7);
    assert_eq!(*cell.get(|| 8), 7);
    assert!(cell.is_initialized());
    assert_eq!(*cell.get_existing(), 7);
}

#[test]
fn init_once_try_get_error_leaves_uninitialized() {
    let mut cell: InitOnce<u32> = InitOnce::new();
    let r: Result<&u32, &str> = cell.try_get(|| Err("no"));
    assert_eq!(r, Err("no"));
    assert!(!cell.is_initialized());
    let r: Result<&u32, &str> = cell.try_get(|| Ok(3));
    assert_eq!(r, Ok(&3));
    let r: Result<&u32, &str> = cell.try_get(|| Ok(4));
    assert_eq!(r, Ok(&3));
}

#[test]
fn timer_index_and_cascade_chain() {
    let ids = [TimerId::Timer0, TimerId::Timer1, TimerId::Timer2, TimerId::Timer3];
    for (i, id) in ids.iter().enumerate() {
        assert_eq!(id.index(), i);
        if let Some(d) = id.cascade_destination() {
            assert_eq!(d.index(), i + 1);
            assert_eq!(d.cascade_source(), Some(*id));
        } else {
            assert_eq!(i, 3);
        }
        if let Some(s) = id.cascade_source() {
            assert_eq!(s.cascade_destination(), Some(*id));
        } else {
            assert_eq!(i, 0);
        }
    }
}

#[test]
fn timer_create_takes_lock_and_release_frees_it() {
    let mut lock = LockSet::new();
    let t = TimerId::Timer1.create(&mut lock);
    assert!(lock.locked(1) && !lock.locked(0));
    let w = t.release(&mut lock);
    assert!(!lock.locked(1));
    assert!(w.is_empty());
}

#[test]
fn timer_disabled_changes_write_nothing() {
    let mut lock = LockSet::new();
    let mut t = TimerId::Timer0.create(&mut lock);
    assert!(t.set_timer_mode(TimerMode::Cycle64).is_empty());
    assert!(t.set_interrupt_enabled(true).is_empty());
    assert!(t.set_overflow_at(100).is_empty());
    assert!(t.reset().is_empty());
    t.release(&mut lock);
}

#[test]
fn timer_enable_writes_reload_then_control() {
    let mut lock = LockSet::new();
    let mut t = TimerId::Timer1.create(&mut lock);
    t.set_timer_mode(TimerMode::Cycle256);
    t.set_interrupt_enabled(true);
    t.set_overflow_at(1000);
    let w = t.set_enabled(true);
    assert_eq!(
        w,
        vec![
            IoWrite::U16 { addr: TM_CNT_L + 4, value: 64536 },
            IoWrite::U16 { addr: TM_CNT_H + 4, value: 0x80 | 0x40 | 2 },
        ]
    );
    // A running timer gets a changed reload value at once.
    let w = t.set_reset_to(7);
    assert_eq!(w, vec![IoWrite::U16 { addr: TM_CNT_L + 4, value: 7 }]);
    // Reset: stop, then reload and start.
    let w = t.reset();
    assert_eq!(
        w,
        vec![
            IoWrite::U16 { addr: TM_CNT_H + 4, value: 0x40 | 2 },
            IoWrite::U16 { addr: TM_CNT_L + 4, value: 7 },
            IoWrite::U16 { addr: TM_CNT_H + 4, value: 0x80 | 0x40 | 2 },
        ]
    );
    let w = t.release(&mut lock);
    assert_eq!(w, vec![IoWrite::U16 { addr: TM_CNT_H + 4, value: 0 }]);
}

#[test]
fn timer_cascade_mode_sets_bit_two() {
    let mut lock = LockSet::new();
    let mut t = TimerId::Timer3.create(&mut lock);
    t.set_enabled(true);
    let w = t.set_timer_mode(TimerMode::Cascade);
    assert_eq!(w, vec![IoWrite::U16 { addr: TM_CNT_H + 12, value: 0x80 | 0x04 }]);
    let w = t.set_timer_mode(TimerMode::Cycle1024);
    assert_eq!(w, vec![IoWrite::U16 { addr: TM_CNT_H + 12, value: 0x80 | 0x03 }]);
    t.release(&mut lock);
}

#[test]
fn timer_value_counts_ticks_since_reset() {
    let mut lock = LockSet::new();
    let mut t = TimerId::Timer0.create(&mut lock);
    t.set_overflow_at(100);
    // A disabled timer always reads zero.
    assert_eq!(t.value(12345), 0);
    t.set_enabled(true);
    let reset = 65536u32 - 100;
    for k in [0u32, 1, 50, 99] {
        let raw = ((reset + k) % 65536) as u16;
        assert_eq!(t.value(raw), k);
    }
    t.set_overflow_at(65536);
    assert_eq!(t.value(0), 0);
    assert_eq!(t.value(65535), 65535);
    t.release(&mut lock);
}

#[test]
fn time_cycles_combines_both_counters() {
    let mut locks = LockSet::new();
    let (t2, t3, w) = time_cycles_start(&mut locks);
    assert_eq!(
        w,
        vec![
            IoWrite::U16 { addr: TM_CNT_L + 8, value: 0 },
            IoWrite::U16 { addr: TM_CNT_H + 8, value: 0x80 },
            IoWrite::U16 { addr: TM_CNT_L + 12, value: 0 },
            IoWrite::U16 { addr: TM_CNT_H + 12, value: 0x84 },
        ]
    );
    assert!(locks.locked(2) && locks.locked(3) && !locks.locked(0) && !locks.locked(1));
    let (cycles, w) = time_cycles(t2, t3, 0x1234, 0x0002, &mut locks);
    assert_eq!(cycles, 0x0002_1234);
    assert_eq!(
        w,
        vec![
            IoWrite::U16 { addr: TM_CNT_H + 12, value: 0 },
            IoWrite::U16 { addr: TM_CNT_H + 8, value: 0 },
        ]
    );
    assert!(!locks.locked(2) && !locks.locked(3));
}
