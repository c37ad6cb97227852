//! Running code when the GBA receives a hardware interrupt.
//!
//! Handlers are registered per interrupt; when interrupts arrive, the handlers of each
//! triggered interrupt run, interrupts in the order of their bits and, for one interrupt, the
//! most recently registered handler first. Registrations cannot change while an interrupt is
//! being processed.
use crate::bits::{get_bits, set_bits};
use crate::io::{IoWrite, BIOS_IF, DISPSTAT, IE, IF, IME};
use crate::mmio::display::DispStat;
use crate::mmio::sets::{Interrupt, InterruptSet};
use vstd::prelude::*;

verus! {

/// The number of interrupts.
pub const INTERRUPT_COUNT: usize = 14;

/// Whether no handler ID occurs twice in the handler chains.
pub open spec fn unique_ids(chains: Seq<Seq<u64>>) -> bool {
    forall|i1: int, a1: int, i2: int, a2: int|
        0 <= i1 < chains.len() && 0 <= a1 < chains[i1].len() && 0 <= i2 < chains.len() && 0 <= a2
            < chains[i2].len() && (i1 != i2 || a1 != a2) ==> #[trigger] chains[i1][a1]
            != #[trigger] chains[i2][a2]
}

/// Whether a handler ID is registered for some interrupt.
pub open spec fn is_registered_id(chains: Seq<Seq<u64>>, id: u64) -> bool {
    exists|i: int, a: int| 0 <= i < chains.len() && 0 <= a < chains[i].len() && chains[i][a] == id
}

/// The handlers run for the interrupts of `set` among the first `n`, in the order they run.
pub open spec fn handlers_upto(chains: Seq<Seq<u64>>, set: u32, n: nat) -> Seq<u64>
    decreases n,
{
    if n == 0 {
        Seq::empty()
    } else {
        let prev = handlers_upto(chains, set, (n - 1) as nat);
        if crate::bits::get_bits(set, (n - 1) as u32, 1) == 1 {
            prev + chains[n - 1]
        } else {
            prev
        }
    }
}

/// The handlers run for the interrupts of `set`, in the order they run.
pub open spec fn triggered_handlers(chains: Seq<Seq<u64>>, set: u32) -> Seq<u64> {
    handlers_upto(chains, set, 14)
}

/// The interrupt registrations and whether an interrupt is being processed.
pub struct InterruptState {
    chains: Vec<Vec<u64>>,
    in_interrupt: bool,
}

impl InterruptState {
    /// Whether the registrations are well formed: one chain per interrupt, and no handler ID
    /// registered twice.
    pub closed spec fn wf(&self) -> bool {
        &&& self.chains@.len() == INTERRUPT_COUNT
        &&& unique_ids(self.view())
    }

    /// The handler chain of each interrupt, indexed by the interrupt's bit; each chain starts
    /// with the handler that runs first.
    pub closed spec fn view(&self) -> Seq<Seq<u64>> {
        Seq::new(self.chains@.len(), |i: int| self.chains@[i]@)
    }

    /// Whether an interrupt is being processed.
    pub closed spec fn in_interrupt(&self) -> bool {
        self.in_interrupt
    }

    /// No handlers registered, outside of any interrupt.
    pub fn new() -> (r: Self)
        ensures
            r.wf(),
            r@.len() == INTERRUPT_COUNT,
            forall|i: int| 0 <= i < INTERRUPT_COUNT ==> (#[trigger] r@[i]).len() == 0,
            !r.in_interrupt(),
    {
        let mut chains: Vec<Vec<u64>> = Vec::new();
        let mut i: usize = 0;
        while i < INTERRUPT_COUNT
            invariant
                i <= INTERRUPT_COUNT,
                chains@.len() == i,
                forall|j: int| 0 <= j < i ==> (#[trigger] chains@[j])@.len() == 0,
            decreases INTERRUPT_COUNT - i,
        {
            chains.push(Vec::new());
            i = i + 1;
        }
        InterruptState { chains, in_interrupt: false }
    }

    /// Returns whether an interrupt is being processed.
    pub fn is_in_interrupt(&self) -> (r: bool)
        ensures
            r == self.in_interrupt(),
    {
        self.in_interrupt
    }

    /// Marks the start of interrupt processing: until it is restored, registrations cannot
    /// change. Returns the previous mark, to be handed to
    /// [`restore_in_interrupt`](`InterruptState::restore_in_interrupt`).
    pub fn mark_in_interrupt(&mut self) -> (prev: bool)
        requires
            old(self).wf(),
        ensures
            final(self).wf(),
            prev == old(self).in_interrupt(),
            final(self).in_interrupt(),
            final(self)@ == old(self)@,
    {
        let prev = self.in_interrupt;
        self.in_interrupt = true;
        prev
    }

    /// Restores the mark saved by [`mark_in_interrupt`](`InterruptState::mark_in_interrupt`).
    pub fn restore_in_interrupt(&mut self, prev: bool)
        requires
            old(self).wf(),
        ensures
            final(self).wf(),
            final(self).in_interrupt() == prev,
            final(self)@ == old(self)@,
    {
        self.in_interrupt = prev;
    }

    /// Whether a handler ID is registered.
    pub fn contains_id(&self, id: u64) -> (r: bool)
        requires
            self.wf(),
        ensures
            r == is_registered_id(self@, id),
    {
        let mut i: usize = 0;
        while i < INTERRUPT_COUNT
            invariant
                i <= INTERRUPT_COUNT,
                self.chains@.len() == INTERRUPT_COUNT,
                forall|i2: int, a: int|
                    0 <= i2 < i && 0 <= a < self@[i2].len() ==> self@[i2][a] != id,
            decreases INTERRUPT_COUNT - i,
        {
            let mut a: usize = 0;
            while a < self.chains[i].len()
                invariant
                    i < INTERRUPT_COUNT,
                    self.chains@.len() == INTERRUPT_COUNT,
                    a <= self@[i as int].len(),
                    forall|a2: int| 0 <= a2 < a ==> self@[i as int][a2] != id,
                decreases self@[i as int].len() - a,
            {
                if self.chains[i][a] == id {
                    assert(self@[i as int][a as int] == id);
                    return true;
                }
                a = a + 1;
            }
            i = i + 1;
        }
        false
    }

    /// Prepends `id` to the chain of interrupt number `slot`.
    fn push_front(&mut self, slot: usize, id: u64)
        requires
            old(self).wf(),
            slot < INTERRUPT_COUNT,
            !is_registered_id(old(self)@, id),
        ensures
            final(self).wf(),
            final(self)@ == old(self)@.update(slot as int, seq![id] + old(self)@[slot as int]),
            final(self).in_interrupt() == old(self).in_interrupt(),
    {
        let ghost old_view = self@;
        let mut c: Vec<u64> = Vec::new();
        c.push(id);
        let n = self.chains[slot].len();
        let mut k: usize = 0;
        while k < n
            invariant
                slot < INTERRUPT_COUNT,
                self.chains@.len() == INTERRUPT_COUNT,
                self@ == old_view,
                n == old_view[slot as int].len(),
                k <= n,
                c@ == seq![id] + old_view[slot as int].subrange(0, k as int),
            decreases n - k,
        {
            c.push(self.chains[slot][k]);
            k = k + 1;
            assert(c@ =~= seq![id] + old_view[slot as int].subrange(0, k as int));
        }
        assert(old_view[slot as int].subrange(0, n as int) =~= old_view[slot as int]);
        let ghost new_view = old_view.update(slot as int, c@);
        assert forall|i1: int, a1: int, i2: int, a2: int|
            0 <= i1 < new_view.len() && 0 <= a1 < new_view[i1].len() && 0 <= i2 < new_view.len()
                && 0 <= a2 < new_view[i2].len() && (i1 != i2 || a1 != a2) implies #[trigger] new_view[i1][a1]
            != #[trigger] new_view[i2][a2] by {
            if i1 == slot && a1 == 0 {
                if i2 != slot || a2 != 0 {
                    let b2: int = if i2 == slot { a2 - 1 } else { a2 };
                    assert(old_view[i2][b2] == new_view[i2][a2]);
                }
            } else if i2 == slot && a2 == 0 {
                let b1: int = if i1 == slot { a1 - 1 } else { a1 };
                assert(old_view[i1][b1] == new_view[i1][a1]);
            } else {
                let b1: int = if i1 == slot { a1 - 1 } else { a1 };
                let b2: int = if i2 == slot { a2 - 1 } else { a2 };
                assert(old_view[i1][b1] == new_view[i1][a1]);
                assert(old_view[i2][b2] == new_view[i2][a2]);
            }
        }
        self.chains.set(slot, c);
        assert(self@ =~= new_view);
    }

    /// Removes entry `pos` from the chain of interrupt number `slot`.
    fn remove_at(&mut self, slot: usize, pos: usize)
        requires
            old(self).wf(),
            slot < INTERRUPT_COUNT,
            pos < old(self)@[slot as int].len(),
        ensures
            final(self).wf(),
            final(self)@ == old(self)@.update(slot as int, old(self)@[slot as int].remove(pos as int)),
            final(self).in_interrupt() == old(self).in_interrupt(),
    {
        let ghost old_view = self@;
        let ghost target = old_view[slot as int].remove(pos as int);
        let mut c: Vec<u64> = Vec::new();
        let n = self.chains[slot].len();
        let mut k: usize = 0;
        while k < n
            invariant
                slot < INTERRUPT_COUNT,
                self.chains@.len() == INTERRUPT_COUNT,
                self@ == old_view,
                n == old_view[slot as int].len(),
                pos < n,
                k <= n,
                target == old_view[slot as int].remove(pos as int),
                k <= pos ==> c@ == target.subrange(0, k as int),
                k > pos ==> c@ == target.subrange(0, k - 1),
            decreases n - k,
        {
            if k != pos {
                c.push(self.chains[slot][k]);
            }
            k = k + 1;
            assert(k <= pos ==> c@ =~= target.subrange(0, k as int));
            assert(k > pos ==> c@ =~= target.subrange(0, k - 1));
        }
        assert(c@ =~= target);
        let ghost new_view = old_view.update(slot as int, c@);
        assert forall|i1: int, a1: int, i2: int, a2: int|
            0 <= i1 < new_view.len() && 0 <= a1 < new_view[i1].len() && 0 <= i2 < new_view.len()
                && 0 <= a2 < new_view[i2].len() && (i1 != i2 || a1 != a2) implies #[trigger] new_view[i1][a1]
            != #[trigger] new_view[i2][a2] by {
            let b1: int = if i1 == slot && a1 >= pos { a1 + 1 } else { a1 };
            let b2: int = if i2 == slot && a2 >= pos { a2 + 1 } else { a2 };
            assert(old_view[i1][b1] == new_view[i1][a1]);
            assert(old_view[i2][b2] == new_view[i2][a2]);
        }
        self.chains.set(slot, c);
        assert(self@ =~= new_view);
    }

    /// The position of `id` in the chain of interrupt number `slot`, which holds it.
    fn find(&self, slot: usize, id: u64) -> (pos: usize)
        requires
            self.wf(),
            slot < INTERRUPT_COUNT,
            self@[slot as int].contains(id),
        ensures
            pos < self@[slot as int].len(),
            self@[slot as int][pos as int] == id,
    {
        let n = self.chains[slot].len();
        let mut k: usize = 0;
        while k < n
            invariant
                slot < INTERRUPT_COUNT,
                self.chains@.len() == INTERRUPT_COUNT,
                n == self@[slot as int].len(),
                self@[slot as int].contains(id),
                k <= n,
                forall|j: int| 0 <= j < k ==> self@[slot as int][j] != id,
            decreases n - k,
        {
            if self.chains[slot][k] == id {
                return k;
            }
            k = k + 1;
        }
        k
    }

    /// The handler IDs to run for a set of triggered interrupts, in the order they run:
    /// interrupts in the order of their bits, each interrupt's most recent handler first.
    pub fn trigger_interrupts(&self, interrupts: InterruptSet) -> (r: Vec<u64>)
        requires
            self.wf(),
        ensures
            r@ == triggered_handlers(self@, interrupts@),
    {
        let bits = interrupts.as_u32_truncated();
        let mut out: Vec<u64> = Vec::new();
        let mut i: usize = 0;
        while i < INTERRUPT_COUNT
            invariant
                i <= INTERRUPT_COUNT,
                self.chains@.len() == INTERRUPT_COUNT,
                bits == interrupts@,
                out@ == handlers_upto(self@, bits, i as nat),
            decreases INTERRUPT_COUNT - i,
        {
            let set = crate::bits::read_field(bits, i as u32, 1) == 1;
            if set {
                let n = self.chains[i].len();
                let mut a: usize = 0;
                let ghost before = out@;
                while a < n
                    invariant
                        i < INTERRUPT_COUNT,
                        self.chains@.len() == INTERRUPT_COUNT,
                        n == self@[i as int].len(),
                        a <= n,
                        out@ == before + self@[i as int].subrange(0, a as int),
                    decreases n - a,
                {
                    out.push(self.chains[i][a]);
                    a = a + 1;
                    assert(out@ =~= before + self@[i as int].subrange(0, a as int));
                }
                assert(self@[i as int].subrange(0, n as int) =~= self@[i as int]);
            }
            i = i + 1;
        }
        out
    }

    /// One round of interrupt processing: given the enabled interrupts, the requested ones and
    /// the BIOS acknowledgement flags, returns `None` when no enabled interrupt is requested,
    /// and otherwise the writes that acknowledge the triggered interrupts and the handler IDs
    /// to run for them.
    pub fn handler_step(&self, ie: InterruptSet, iflags: InterruptSet, bios_if: u16) -> (r: Option<
        (Vec<IoWrite>, Vec<u64>),
    >)
        requires
            self.wf(),
        ensures
            r is None <==> ie@ & iflags@ == 0,
            r matches Some((w, h)) ==> {
                &&& w@ == acknowledge_writes(ie@ & iflags@, bios_if)
                &&& h@ == triggered_handlers(self@, ie@ & iflags@)
            },
    {
        let triggered = ie.intersection(iflags);
        if triggered.is_empty() {
            None
        } else {
            Some((acknowledge_interrupts(triggered, bios_if), self.trigger_interrupts(triggered)))
        }
    }
}

/// The writes that acknowledge interrupts: the request flags, and the flags the BIOS waits on.
pub open spec fn acknowledge_writes(set: u32, bios_if: u16) -> Seq<IoWrite> {
    seq![
        IoWrite::U16 { addr: IF, value: set as u16 },
        IoWrite::U16 { addr: BIOS_IF, value: (bios_if as u32 | set) as u16 },
    ]
}

/// Acknowledges a set of interrupts, clearing them from the triggered interrupts flags, given
/// the BIOS flags. Returns the register writes.
pub fn acknowledge_interrupts(interrupts: InterruptSet, bios_if: u16) -> (r: Vec<IoWrite>)
    ensures
        r@ == acknowledge_writes(interrupts@, bios_if),
{
    let set = interrupts.as_u32_truncated();
    let b = bios_if as u32 | set;
    let mut r = Vec::new();
    r.push(IoWrite::U16 { addr: IF, value: set as u16 });
    r.push(IoWrite::U16 { addr: BIOS_IF, value: b as u16 });
    r
}

/// The write that sets the master interrupt enable flag.
pub fn set_interrupts_enabled(enabled: bool) -> (r: IoWrite)
    ensures
        r == (IoWrite::U16 { addr: IME, value: if enabled { 1 } else { 0 } }),
{
    IoWrite::U16 { addr: IME, value: if enabled { 1 } else { 0 } }
}

/// The mask of the interrupts that the display status register also enables.
pub open spec fn display_irq_mask() -> u32 {
    7
}

/// The display status value with its interrupt enables taken from the enabled interrupts.
pub open spec fn dispstat_with_irqs(stat: u32, ie: u32) -> u32 {
    set_bits(
        set_bits(set_bits(stat, 3, 1, get_bits(ie, 0, 1)), 4, 1, get_bits(ie, 1, 1)),
        5,
        1,
        get_bits(ie, 2, 1),
    )
}

/// Law: the display status value written when the enabled interrupts change has its VBlank,
/// HBlank and VCounter interrupt enable bits (3, 4 and 5) equal to the VBlank, HBlank and
/// VCounter bits (0, 1 and 2) of the new enabled set, and keeps every other bit of the status
/// value; the writes are the enable register, then that status value exactly when a display
/// interrupt changes.
pub proof fn lemma_dispstat_follows_enabled(old_ie: u32, new_ie: u32, stat: u32)
    ensures
        get_bits(dispstat_with_irqs(stat, new_ie), 3, 1) == get_bits(new_ie, 0, 1),
        get_bits(dispstat_with_irqs(stat, new_ie), 4, 1) == get_bits(new_ie, 1, 1),
        get_bits(dispstat_with_irqs(stat, new_ie), 5, 1) == get_bits(new_ie, 2, 1),
        get_bits(dispstat_with_irqs(stat, new_ie), 0, 3) == get_bits(stat, 0, 3),
        get_bits(dispstat_with_irqs(stat, new_ie), 6, 26) == get_bits(stat, 6, 26),
        set_interrupts_writes(old_ie, new_ie, stat)[0] == (IoWrite::U16 { addr: IE, value: new_ie as u16 }),
        set_interrupts_writes(old_ie, new_ie, stat).len() == if (new_ie ^ old_ie) & display_irq_mask() != 0 {
            2int
        } else {
            1int
        },
        (new_ie ^ old_ie) & display_irq_mask() != 0 ==> set_interrupts_writes(old_ie, new_ie, stat)[1]
            == (IoWrite::U16 { addr: DISPSTAT, value: dispstat_with_irqs(stat, new_ie) as u16 }),
{
    let a = get_bits(new_ie, 0, 1);
    let b = get_bits(new_ie, 1, 1);
    let c = get_bits(new_ie, 2, 1);
    crate::bits::lemma_get_fits(new_ie, 0, 1);
    crate::bits::lemma_get_fits(new_ie, 1, 1);
    crate::bits::lemma_get_fits(new_ie, 2, 1);
    let s1 = set_bits(stat, 3, 1, a);
    let s2 = set_bits(s1, 4, 1, b);
    let s3 = set_bits(s2, 5, 1, c);
    crate::bits::lemma_get_set_same(stat, 3, 1, a);
    crate::bits::lemma_get_set_other(stat, 3, 1, a, 0, 3);
    crate::bits::lemma_get_set_other(stat, 3, 1, a, 6, 26);
    crate::bits::lemma_get_set_same(s1, 4, 1, b);
    crate::bits::lemma_get_set_other(s1, 4, 1, b, 3, 1);
    crate::bits::lemma_get_set_other(s1, 4, 1, b, 0, 3);
    crate::bits::lemma_get_set_other(s1, 4, 1, b, 6, 26);
    crate::bits::lemma_get_set_same(s2, 5, 1, c);
    crate::bits::lemma_get_set_other(s2, 5, 1, c, 3, 1);
    crate::bits::lemma_get_set_other(s2, 5, 1, c, 4, 1);
    crate::bits::lemma_get_set_other(s2, 5, 1, c, 0, 3);
    crate::bits::lemma_get_set_other(s2, 5, 1, c, 6, 26);
}

/// The writes that change the enabled interrupts from `old_ie` to `new_ie`: the enable
/// register, then, where a display interrupt changes, the display status register.
pub open spec fn set_interrupts_writes(old_ie: u32, new_ie: u32, stat: u32) -> Seq<IoWrite> {
    let w = seq![IoWrite::U16 { addr: IE, value: new_ie as u16 }];
    if (new_ie ^ old_ie) & display_irq_mask() != 0 {
        w.push(IoWrite::U16 { addr: DISPSTAT, value: dispstat_with_irqs(stat, new_ie) as u16 })
    } else {
        w
    }
}

fn raw_set_interrupts(old_ie: InterruptSet, new_ie: InterruptSet, dispstat: DispStat) -> (r: Vec<
    IoWrite,
>)
    ensures
        r@ == set_interrupts_writes(old_ie@, new_ie@, dispstat@),
{
    let changed = new_ie.symmetric_difference(old_ie);
    let display = InterruptSet::from_bits_truncated(7);
    let mut r = Vec::new();
    let n = new_ie.as_u32_truncated();
    r.push(IoWrite::U16 { addr: IE, value: n as u16 });
    proof {
        crate::bits::lemma_bit_constants();
    }
    if !changed.is_disjoint(display) {
        let v = new_ie.contains(Interrupt::VBlank);
        let h = new_ie.contains(Interrupt::HBlank);
        let c = new_ie.contains(Interrupt::VCounter);
        proof {
            crate::bits::lemma_get_fits(n, 0, 1);
            crate::bits::lemma_get_fits(n, 1, 1);
            crate::bits::lemma_get_fits(n, 2, 1);
            crate::bits::lemma_fits_small(get_bits(n, 0, 1), 1);
            crate::bits::lemma_fits_small(get_bits(n, 1, 1), 1);
            crate::bits::lemma_fits_small(get_bits(n, 2, 1), 1);
        }
        let stat = dispstat.with_vblank_irq_enabled(v).with_hblank_irq_enabled(h).with_vcount_irq_enabled(
            c,
        );
        r.push(IoWrite::U16 { addr: DISPSTAT, value: stat.bits() });
    }
    r
}

impl InterruptState {
    /// Enables a set of interrupts, given the enabled set and the display status; not allowed
    /// while an interrupt is processed. Returns the register writes.
    pub fn enable(&self, interrupts: InterruptSet, old_ie: InterruptSet, dispstat: DispStat) -> (r: Vec<
        IoWrite,
    >)
        requires
            !self.in_interrupt(),
        ensures
            r@ == set_interrupts_writes(old_ie@, old_ie@ | interrupts@, dispstat@),
    {
        raw_set_interrupts(old_ie, old_ie.union(interrupts), dispstat)
    }

    /// Disables a set of interrupts, given the enabled set and the display status; not allowed
    /// while an interrupt is processed. Returns the register writes.
    pub fn disable(&self, interrupts: InterruptSet, old_ie: InterruptSet, dispstat: DispStat) -> (r: Vec<
        IoWrite,
    >)
        requires
            !self.in_interrupt(),
        ensures
            r@ == set_interrupts_writes(old_ie@, old_ie@ & !interrupts@, dispstat@),
    {
        raw_set_interrupts(old_ie, old_ie.difference(interrupts), dispstat)
    }
}

/// An interrupt handler: an ID for the function the hardware layer runs, and the interrupt it
/// is registered for, if any.
pub struct InterruptHandler {
    id: u64,
    interrupt: Option<Interrupt>,
}

impl InterruptHandler {
    /// The ID of the handler's function.
    pub closed spec fn id(&self) -> u64 {
        self.id
    }

    /// The interrupt the handler is registered for, if any.
    pub closed spec fn registration(&self) -> Option<Interrupt> {
        self.interrupt
    }

    /// Creates a handler for the function with the given ID, not yet registered.
    pub fn new(id: u64) -> (r: Self)
        ensures
            r.id() == id,
            r.registration() is None,
    {
        InterruptHandler { id, interrupt: None }
    }

    /// Registers the handler for an interrupt, where it runs before the handlers registered
    /// earlier. It must not be registered yet, and registrations cannot change while an
    /// interrupt is processed.
    pub fn register(&mut self, state: &mut InterruptState, irq: Interrupt)
        requires
            old(state).wf(),
            !old(state).in_interrupt(),
            old(self).registration() is None,
            !is_registered_id(old(state)@, old(self).id()),
        ensures
            final(self).id() == old(self).id(),
            final(self).registration() == Some(irq),
            final(state).wf(),
            final(state)@ == old(state)@.update(
                irq.code() as int,
                seq![old(self).id()] + old(state)@[irq.code() as int],
            ),
            final(state).in_interrupt() == old(state).in_interrupt(),
    {
        state.push_front(irq.bit() as usize, self.id);
        self.interrupt = Some(irq);
    }

    /// Deregisters the handler, which must be registered; registrations cannot change while an
    /// interrupt is processed.
    pub fn deregister(&mut self, state: &mut InterruptState)
        requires
            old(state).wf(),
            !old(state).in_interrupt(),
            old(self).registration() is Some,
            old(state)@[old(self).registration()->0.code() as int].contains(old(self).id()),
        ensures
            final(self).id() == old(self).id(),
            final(self).registration() is None,
            final(state).wf(),
            exists|pos: int|
                0 <= pos < old(state)@[old(self).registration()->0.code() as int].len()
                    && old(state)@[old(self).registration()->0.code() as int][pos] == old(self).id()
                    && final(state)@ == old(state)@.update(
                    old(self).registration()->0.code() as int,
                    old(state)@[old(self).registration()->0.code() as int].remove(pos),
                ),
            !is_registered_id(final(state)@, old(self).id()),
            final(state).in_interrupt() == old(state).in_interrupt(),
    {
        let irq = self.interrupt.unwrap();
        let b = irq.bit() as usize;
        let ghost before = state@;
        let ghost id = self.id;
        let pos = state.find(b, self.id);
        state.remove_at(b, pos);
        self.interrupt = None;
        proof {
            let code = irq.code() as int;
            let p = choose|p: int|
                0 <= p < before[code].len() && before[code][p] == id && state@ == before.update(
                    code,
                    before[code].remove(p),
                );
            assert(unique_ids(before));
            before[code].remove_ensures(p);
            assert forall|i: int, a: int|
                0 <= i < state@.len() && 0 <= a < state@[i].len() implies state@[i][a] != id by {
                if i != code {
                    assert(state@[i][a] == before[i][a]);
                    assert(before[i][a] != before[code][p]);
                } else if a < p {
                    assert(state@[i][a] == before[code][a]);
                    assert(before[code][a] != before[code][p]);
                } else {
                    assert(state@[i][a] == before[code][a + 1]);
                    assert(before[code][a + 1] != before[code][p]);
                }
            }
        }
    }
}

/// Registering a handler and deregistering it again leaves the registrations as they were.
pub proof fn lemma_deregister_undoes_register(
    chains: Seq<Seq<u64>>,
    irq: Interrupt,
    id: u64,
    pos: int,
)
    requires
        chains.len() == INTERRUPT_COUNT,
        !is_registered_id(chains, id),
        0 <= pos < (seq![id] + chains[irq.code() as int]).len(),
        (seq![id] + chains[irq.code() as int])[pos] == id,
    ensures
        chains.update(irq.code() as int, seq![id] + chains[irq.code() as int]).update(
            irq.code() as int,
            (seq![id] + chains[irq.code() as int]).remove(pos),
        ) == chains,
{
    let c = chains[irq.code() as int];
    if pos > 0 {
        assert(c[pos - 1] == id);
        assert(false);
    }
    assert((seq![id] + c).remove(0) =~= c);
    assert(chains.update(irq.code() as int, seq![id] + c).update(irq.code() as int, c) =~= chains);
}

} // verus!
