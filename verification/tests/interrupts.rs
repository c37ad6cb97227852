use lgba::io::{IoWrite, BIOS_IF, DISPSTAT, IE, IF, IME};
use lgba::irq::{acknowledge_interrupts, set_interrupts_enabled, InterruptHandler, InterruptState};
use lgba::mmio::display::DispStat;
use lgba::mmio::sets::{Interrupt, InterruptSet};

fn set_of(items: &[Interrupt]) -> InterruptSet {
    let mut s = InterruptSet::empty();
    for i in items {
        s.insert(*i);
    }
    s
}

#[test]
fn new_state_has_no_handlers() {
    let st = InterruptState::new();
    assert!(!st.is_in_interrupt());
    assert!(!st.contains_id(1));
    assert!(st.trigger_interrupts(InterruptSet::all()).is_empty());
}

#[test]
fn most_recent_handler_runs_first_and_bits_in_order() {
    let mut st = InterruptState::new();
    let mut a = InterruptHandler::new(1);
    let mut b = InterruptHandler::new(2);
    let mut c = InterruptHandler::new(3);
    a.register(&mut st, Interrupt::Timer0);
    b.register(&mut st, Interrupt::Timer0);
    c.register(&mut st, Interrupt::VBlank);
    assert!(st.contains_id(1) && st.contains_id(2) && st.contains_id(3));
    let order = st.trigger_interrupts(set_of(&[Interrupt::Timer0, Interrupt::VBlank]));
    assert_eq!(order, vec![3, 2, 1]);
    let only_timer = st.trigger_interrupts(InterruptSet::only(Interrupt::Timer0));
    assert_eq!(only_timer, vec![2, 1]);
    assert!(st.trigger_interrupts(InterruptSet::only(Interrupt::Keypad)).is_empty());
}

#[test]
fn deregister_undoes_register() {
    let mut st = InterruptState::new();
    let mut a = InterruptHandler::new(10);
    let mut b = InterruptHandler::new(11);
    a.register(&mut st, Interrupt::Dma2);
    let before = st.trigger_interrupts(InterruptSet::all());
    b.register(&mut st, Interrupt::Dma2);
    assert_eq!(st.trigger_interrupts(InterruptSet::all()), vec![11, 10]);
    b.deregister(&mut st);
    assert_eq!(st.trigger_interrupts(InterruptSet::all()), before);
    assert!(!st.contains_id(11));
    a.deregister(&mut st);
    assert!(st.trigger_interrupts(InterruptSet::all()).is_empty());
}

#[test]
fn mark_and_restore_in_interrupt() {
    let mut st = InterruptState::new();
    let prev = st.mark_in_interrupt();
    assert!(!prev);
    assert!(st.is_in_interrupt());
    let prev2 = st.mark_in_interrupt();
    assert!(prev2);
    st.restore_in_interrupt(prev2);
    assert!(st.is_in_interrupt());
    st.restore_in_interrupt(prev);
    assert!(!st.is_in_interrupt());
}

#[test]
fn handler_step_ignores_disabled_requests() {
    let mut st = InterruptState::new();
    let mut h = InterruptHandler::new(5);
    h.register(&mut st, Interrupt::HBlank);
    let ie = InterruptSet::only(Interrupt::VBlank);
    let iflags = InterruptSet::only(Interrupt::HBlank);
    assert!(st.handler_step(ie, iflags, 0).is_none());
    let ie = set_of(&[Interrupt::VBlank, Interrupt::HBlank]);
    let iflags = set_of(&[Interrupt::HBlank, Interrupt::Serial]);
    let (w, handlers) = st.handler_step(ie, iflags, 0x0100).unwrap();
    assert_eq!(
        w,
        vec![
            IoWrite::U16 { addr: IF, value: 0x0002 },
            IoWrite::U16 { addr: BIOS_IF, value: 0x0102 },
        ]
    );
    assert_eq!(handlers, vec![5]);
}

#[test]
fn acknowledge_writes_flags_and_bios_flags() {
    let w = acknowledge_interrupts(set_of(&[Interrupt::VBlank, Interrupt::Keypad]), 0x0001);
    assert_eq!(
        w,
        vec![
            IoWrite::U16 { addr: IF, value: 0x1001 },
            IoWrite::U16 { addr: BIOS_IF, value: 0x1001 },
        ]
    );
}

#[test]
fn master_enable_write() {
    assert_eq!(set_interrupts_enabled(true), IoWrite::U16 { addr: IME, value: 1 });
    assert_eq!(set_interrupts_enabled(false), IoWrite::U16 { addr: IME, value: 0 });
}

#[test]
fn enabling_display_interrupts_updates_dispstat() {
    let st = InterruptState::new();
    let w = st.enable(InterruptSet::only(Interrupt::VBlank), InterruptSet::empty(), DispStat::new());
    assert_eq!(
        w,
        vec![
            IoWrite::U16 { addr: IE, value: 0x0001 },
            IoWrite::U16 { addr: DISPSTAT, value: 0x0008 },
        ]
    );
    // A non-display interrupt only touches the enable register.
    let w = st.enable(
        InterruptSet::only(Interrupt::Timer1),
        InterruptSet::only(Interrupt::VBlank),
        DispStat::from_bits(0x0008),
    );
    assert_eq!(w, vec![IoWrite::U16 { addr: IE, value: 0x0011 }]);
    let w = st.disable(
        InterruptSet::only(Interrupt::VBlank),
        set_of(&[Interrupt::VBlank, Interrupt::VCounter]),
        DispStat::from_bits(0x0028),
    );
    assert_eq!(
        w,
        vec![
            IoWrite::U16 { addr: IE, value: 0x0004 },
            IoWrite::U16 { addr: DISPSTAT, value: 0x0020 },
        ]
    );
}
