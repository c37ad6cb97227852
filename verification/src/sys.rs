//! Basic system functions: the keypad, waiting for the vertical blank, and resetting.
use crate::bits::set_bits;
use crate::io::{IoWrite, IME, KEYCNT};
use crate::mmio::sets::ButtonSet;
use crate::mmio::sys::{ButtonCondition, KeyCnt};
use vstd::prelude::*;

verus! {

/// Returns the currently pressed keys, given the key status register, where a bit is clear
/// while its key is held.
///
/// This should be called once a frame, instead of every time button state is checked.
pub fn pressed_keys(keyinput: ButtonSet) -> (r: ButtonSet)
    ensures
        r@ == !keyinput@ & 1023,
{
    keyinput.complement()
}

/// The keypad interrupt control value that raises the interrupt when any of `keys` is
/// pressed, or, for `all`, when all of them are held.
pub open spec fn keypad_irq(keys: u32, all: bool) -> u32 {
    set_bits(set_bits(set_bits(0, 14, 1, 1), 15, 1, if all { 1 } else { 0 }), 0, 10, keys)
}

/// The write that makes any of the given keys trigger a keypad interrupt.
///
/// The interrupt must still be enabled separately.
pub fn set_keypad_irq_keys(keys: ButtonSet) -> (r: IoWrite)
    ensures
        r == (IoWrite::U16 { addr: KEYCNT, value: keypad_irq(keys@, false) as u16 }),
{
    let cnt = KeyCnt::default().with_enable_irq(true).with_condition(ButtonCondition::LogicalOr).with_keys(
        keys,
    );
    IoWrite::U16 { addr: KEYCNT, value: cnt.bits() }
}

/// The write that makes the combination of the given keys trigger a keypad interrupt.
///
/// The interrupt must still be enabled separately.
pub fn set_keypad_irq_combo(combo: ButtonSet) -> (r: IoWrite)
    ensures
        r == (IoWrite::U16 { addr: KEYCNT, value: keypad_irq(combo@, true) as u16 }),
{
    let cnt = KeyCnt::default().with_enable_irq(true).with_condition(ButtonCondition::LogicalAnd).with_keys(
        combo,
    );
    IoWrite::U16 { addr: KEYCNT, value: cnt.bits() }
}

/// The write that stops the keypad from raising interrupts.
pub fn disable_keypad_irq() -> (r: IoWrite)
    ensures
        r == (IoWrite::U16 { addr: KEYCNT, value: 0 }),
{
    IoWrite::U16 { addr: KEYCNT, value: KeyCnt::default().bits() }
}

/// The write made before the BIOS reset: interrupts are switched off so that none arrives
/// during the reset.
pub fn reset() -> (r: IoWrite)
    ensures
        r == (IoWrite::U16 { addr: IME, value: 0 }),
{
    IoWrite::U16 { addr: IME, value: 0 }
}

/// Whether waiting for the vertical blank is allowed: not while an interrupt is processed,
/// since the wait needs the vertical blank interrupt.
pub fn wait_for_vblank(in_interrupt: bool) -> (r: bool)
    ensures
        r == !in_interrupt,
{
    !in_interrupt
}

} // verus!
