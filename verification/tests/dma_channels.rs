use lgba::dma::{check_align, pause_dma_writes, resume_dma_writes, DmaChannelId};
use lgba::io::TM_CNT_L;
use lgba::mmio::sys::DmaCnt;
use lgba::sync::LockSet;
use lgba::timer::TimerId;

#[test]
fn channel_properties() {
    assert!(DmaChannelId::Dma0.is_source_internal_only());
    assert!(!DmaChannelId::Dma3.is_source_internal_only());
    assert!(DmaChannelId::Dma2.is_target_internal_only());
    assert!(!DmaChannelId::Dma3.is_target_internal_only());
    assert_eq!(DmaChannelId::Dma1.index(), 1);
}

#[test]
fn alignment_picks_unit_size() {
    assert_eq!(check_align(false, false, 0x0200_0000, 0x0600_0000, 64), (true, 16));
    assert_eq!(check_align(false, false, 0x0200_0002, 0x0600_0002, 6), (false, 3));
    // One misaligned address or length means 16-bit units, so every byte is copied.
    assert_eq!(check_align(false, false, 0x0200_0002, 0x0600_0000, 6), (false, 3));
    assert_eq!(check_align(false, false, 0x0200_0000, 0x0600_0002, 6), (false, 3));
    assert_eq!(check_align(false, false, 0x0200_0000, 0x0600_0000, 6), (false, 3));
    assert_eq!(check_align(false, false, 0x0200_0000, 0x0600_0000, 8), (true, 2));
}

#[test]
fn transfer_requests() {
    let mut lock = LockSet::new();
    let ch = DmaChannelId::Dma3.create(&mut lock);
    assert!(lock.locked(3) && !lock.locked(2));
    let r = ch.unsafe_transfer(0x0800_0000, 0x0600_0000, 32);
    assert_eq!(r.channel, DmaChannelId::Dma3);
    assert_eq!((r.src, r.dst, r.word_count), (0x0800_0000, 0x0600_0000, 8));
    assert_eq!(r.cnt.bits(), 0x8400);
    let r = ch.transfer(0x0200_0002, 3, 0x0600_0002, 3, 2);
    assert_eq!(r.word_count, 3);
    assert_eq!(r.cnt.bits(), 0x8000);
    let ch = ch.with_irq_notify();
    let r = ch.unsafe_set(0x0300_0000, 0x0600_0000, 2, 2, 100);
    assert_eq!(r.word_count, 100);
    assert_eq!(r.cnt.bits(), 0xC100);
    ch.release(&mut lock);
    assert!(!lock.locked(3));
}

#[test]
fn pause_then_resume_restores_channels() {
    let cnts = [
        DmaCnt::from_bits(0x8400),
        DmaCnt::from_bits(0x0400),
        DmaCnt::from_bits(0),
        DmaCnt::from_bits(0xC100),
    ];
    let paused = pause_dma_writes(&cnts);
    let paused: Vec<(usize, u16)> = paused.iter().map(|(i, c)| (*i, c.bits())).collect();
    assert_eq!(paused, vec![(0, 0x0400), (3, 0x4100)]);
    let resumed = resume_dma_writes(&cnts);
    let resumed: Vec<(usize, u16)> = resumed.iter().map(|(i, c)| (*i, c.bits())).collect();
    assert_eq!(resumed, vec![(0, 0x8400), (3, 0xC100)]);
    // Applying both in order gives back the registers as they were.
    let mut regs: Vec<u16> = cnts.iter().map(|c| c.bits()).collect();
    for (i, v) in &paused {
        regs[*i] = *v;
    }
    assert!(regs.iter().all(|r| r & 0x8000 == 0));
    for (i, v) in &resumed {
        regs[*i] = *v;
    }
    assert_eq!(regs, cnts.iter().map(|c| c.bits()).collect::<Vec<_>>());
}

#[test]
fn timer_counter_register() {
    let mut lock = LockSet::new();
    let t = TimerId::Timer2.create(&mut lock);
    assert_eq!(t.raw_value().as_ptr(), TM_CNT_L + 8);
    t.release(&mut lock);
}

#[test]
fn each_channel_has_its_own_lock() {
    let mut locks = LockSet::new();
    let a = DmaChannelId::Dma0.create(&mut locks);
    let b = DmaChannelId::Dma3.create(&mut locks);
    assert!(locks.locked(0) && locks.locked(3) && !locks.locked(1) && !locks.locked(2));
    a.release(&mut locks);
    assert!(!locks.locked(0) && locks.locked(3));
    b.release(&mut locks);
    assert!((0..4).all(|i| !locks.locked(i)));
}
