use lgba::allocator::{
    align_alloc, align_array, check_range_validity, find_control_zone, map_layout,
    plan_heap_zones, zone_for_address, HeapAccounting,
};
use lgba::io::{IoWrite, IME, KEYCNT, TM_CNT_H, TM_CNT_L, WAITCNT};
use lgba::mmio::sets::{Button, ButtonSet};
use lgba::mmio::sys::{WaitCnt, WaitState};
use lgba::save::{lock_media_access, set_sram_wait, Error, Timeout};
use lgba::sync::{LockSet, RawMutex};
use lgba::sys::{
    disable_keypad_irq, pressed_keys, reset, set_keypad_irq_combo, set_keypad_irq_keys,
    wait_for_vblank,
};
use lgba::timer::TimerId;

#[test]
fn ranges_are_made_valid_and_aligned() {
    assert_eq!(check_range_validity((10, 5)), (10, 10));
    assert_eq!(check_range_validity((5, 10)), (5, 10));
    assert_eq!(align_array((0x0300_0001, 0x0300_1000)), (0x0300_0008, 0x0300_1000));
    assert_eq!(align_alloc((0x0300_0001, 0x0300_1000)), (0x0300_0040, 0x0300_1000));
    assert_eq!(align_alloc((0x0300_0040, 0x0300_0041)), (0x0300_0040, 0x0300_0041));
    // Aligning past the end leaves an empty range.
    assert_eq!(align_alloc((0x0300_0001, 0x0300_0010)), (0x0300_0040, 0x0300_0040));
}

#[test]
fn control_zone_prefers_internal_ram() {
    let zones = [(0x0200_0000, 0x0204_0000), (0x0300_0000, 0x0300_0100)];
    assert_eq!(find_control_zone(64, &zones), 1);
    // Too large for internal RAM: the first zone that can hold it.
    assert_eq!(find_control_zone(0x1000, &zones), 0);
}

#[test]
fn heap_plan_puts_table_in_control_zone() {
    let zones = [(0x0200_0000, 0x0204_0000), (0x0300_0004, 0x0300_1000)];
    let (control, table, heaps) = plan_heap_zones(&zones, 16);
    assert_eq!(control, 1);
    assert_eq!(table, 0x0300_0008);
    assert_eq!(heaps, vec![(0x0200_0000, 0x0204_0000), (0x0300_0040, 0x0300_1000)]);
}

#[test]
fn layout_alignment_is_at_least_four() {
    assert_eq!(map_layout(10, 1), (10, 4));
    assert_eq!(map_layout(10, 4), (10, 4));
    assert_eq!(map_layout(10, 16), (10, 16));
}

#[test]
fn address_zone_lookup() {
    let ranges = [(0x100, 0x200), (0x200, 0x300)];
    assert_eq!(zone_for_address(&ranges, 0x100), Some(0));
    assert_eq!(zone_for_address(&ranges, 0x200), Some(1));
    assert_eq!(zone_for_address(&ranges, 0x2FF), Some(1));
    assert_eq!(zone_for_address(&ranges, 0x300), None);
    assert_eq!(zone_for_address(&ranges, 0), None);
}

#[test]
fn heap_accounting_counts_bytes() {
    let mut acc = HeapAccounting::new(&[(0x100, 0x200), (0x400, 0x300), (0, 0x10)]);
    assert_eq!(acc.heap_capacity(), 0x110);
    assert_eq!(acc.heap_used(), 0);
    acc.record_alloc(0x20);
    acc.record_alloc(0x8);
    assert_eq!(acc.heap_used(), 0x28);
    acc.record_dealloc(0x8);
    assert_eq!(acc.heap_used(), 0x20);
    acc.record_dealloc(0x100);
    assert_eq!(acc.heap_used(), 0);
    assert_eq!(acc.heap_capacity(), 0x110);
}

#[test]
fn heap_accounting_saturates() {
    let mut acc = HeapAccounting::new(&[(0, usize::MAX), (0, 10)]);
    assert_eq!(acc.heap_capacity(), usize::MAX);
    acc.record_alloc(usize::MAX - 5);
    acc.record_alloc(5);
    assert_eq!(acc.heap_used(), usize::MAX);
    acc.record_dealloc(usize::MAX);
    assert_eq!(acc.heap_used(), 0);
}

#[test]
fn media_lock_reports_in_use() {
    let mut lock = RawMutex::new();
    let g = lock_media_access(&mut lock);
    assert!(g.is_ok());
    assert_eq!(lock_media_access(&mut lock).err(), Some(Error::MediaInUse));
    lock.unlock(g.ok().unwrap());
    assert!(lock_media_access(&mut lock).is_ok());
}

#[test]
fn timeout_without_timer_never_expires() {
    let mut lock = LockSet::new();
    let mut t = Timeout::new(None, &mut lock);
    assert!((0..4).all(|i| !lock.locked(i)));
    assert!(t.start().is_empty());
    assert!(!t.check_timeout_met(0, 0xFFFF));
    assert!(t.release(&mut lock).is_empty());
}

#[test]
fn timeout_with_timer_counts_milliseconds() {
    let mut lock = LockSet::new();
    let mut t = Timeout::new(Some(TimerId::Timer3), &mut lock);
    assert!(lock.locked(3) && !lock.locked(0));
    let w = t.start();
    assert_eq!(
        w,
        vec![
            IoWrite::U16 { addr: TM_CNT_L + 12, value: 0 },
            IoWrite::U16 { addr: TM_CNT_H + 12, value: 0x83 },
        ]
    );
    assert!(!t.check_timeout_met(10, 170));
    assert!(t.check_timeout_met(10, 171));
    let w = t.release(&mut lock);
    assert_eq!(w, vec![IoWrite::U16 { addr: TM_CNT_H + 12, value: 0x03 }]);
    assert!(!lock.locked(3));
}

#[test]
fn sram_wait_keeps_other_bits() {
    let w = set_sram_wait(WaitState::Wait8, WaitCnt::from_bits(0x4314));
    assert_eq!(w, IoWrite::U16 { addr: WAITCNT, value: 0x4317 });
    let w = set_sram_wait(WaitState::Wait4, WaitCnt::from_bits(0x0003));
    assert_eq!(w, IoWrite::U16 { addr: WAITCNT, value: 0x0000 });
}

#[test]
fn pressed_keys_inverts_key_status() {
    let status = ButtonSet::from_bits_truncated(0x3FF & !0x0009);
    let pressed = pressed_keys(status);
    assert!(pressed.contains(Button::A));
    assert!(pressed.contains(Button::Start));
    assert!(!pressed.contains(Button::B));
    assert_eq!(pressed.as_u32_truncated(), 0x0009);
}

#[test]
fn keypad_irq_writes() {
    let mut keys = ButtonSet::empty();
    keys.insert(Button::A);
    keys.insert(Button::L);
    assert_eq!(set_keypad_irq_keys(keys), IoWrite::U16 { addr: KEYCNT, value: 0x4201 });
    assert_eq!(set_keypad_irq_combo(keys), IoWrite::U16 { addr: KEYCNT, value: 0xC201 });
    assert_eq!(disable_keypad_irq(), IoWrite::U16 { addr: KEYCNT, value: 0 });
}

#[test]
fn reset_and_vblank_wait() {
    assert_eq!(reset(), IoWrite::U16 { addr: IME, value: 0 });
    assert!(wait_for_vblank(false));
    assert!(!wait_for_vblank(true));
}
