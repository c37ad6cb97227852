//! The GBA's DMA hardware: channel properties and the control words of transfers.
use crate::bits::set_bits;
use crate::mmio::sys::{DmaAddrCnt, DmaCnt};
use crate::sync::{LockSet, RawMutexGuard};
use vstd::prelude::*;

verus! {

/// Used to specify a particular DMA channel ID.
#[derive(Copy, Clone, Debug, PartialEq, Eq, Structural)]
pub enum DmaChannelId {
    /// The first channel.
    Dma0,
    /// The second channel.
    Dma1,
    /// The third channel.
    Dma2,
    /// The fourth channel.
    Dma3,
}

impl DmaChannelId {
    /// The number of the channel.
    pub open spec fn spec_index(self) -> nat {
        match self {
            DmaChannelId::Dma0 => 0,
            DmaChannelId::Dma1 => 1,
            DmaChannelId::Dma2 => 2,
            DmaChannelId::Dma3 => 3,
        }
    }

    /// The number of the channel.
    pub fn index(&self) -> (r: usize)
        ensures
            r == self.spec_index(),
            r < 4,
    {
        match self {
            DmaChannelId::Dma0 => 0,
            DmaChannelId::Dma1 => 1,
            DmaChannelId::Dma2 => 2,
            DmaChannelId::Dma3 => 3,
        }
    }

    /// Returns whether the source address for DMA on this channel must be internal to the GBA.
    pub fn is_source_internal_only(&self) -> (r: bool)
        ensures
            r == (*self == DmaChannelId::Dma0),
    {
        match self {
            DmaChannelId::Dma0 => true,
            _ => false,
        }
    }

    /// Returns whether the target address for DMA on this channel must be internal to the GBA.
    pub fn is_target_internal_only(&self) -> (r: bool)
        ensures
            r == (self.spec_index() <= 2),
    {
        self.index() <= 2
    }

    /// Creates a new DMA channel for this ID, taking the channel's lock among the locks of
    /// the four channels.
    ///
    /// The channel must not already be in use.
    pub fn create(&self, locks: &mut LockSet) -> (r: DmaChannel)
        requires
            !old(locks).is_locked(self.spec_index() as int),
        ensures
            final(locks).is_locked(self.spec_index() as int),
            final(locks).same_except(old(locks), self.spec_index() as int),
            r.channel() == *self,
            !r.irq_notify(),
    {
        DmaChannel { channel: *self, irq_notify: false, _lock: locks.lock(self.index()) }
    }
}

/// Whether an address lies outside the GBA's internal memory.
pub open spec fn is_external(addr: usize) -> bool {
    addr >= 0x8000000
}

/// Whether a transfer between `src` and `dst` of `byte_count` bytes is accepted.
pub open spec fn transfer_ok(
    src_internal: bool,
    dst_internal: bool,
    src: usize,
    dst: usize,
    byte_count: usize,
) -> bool {
    &&& !(src_internal && is_external(src))
    &&& !(dst_internal && is_external(dst))
    &&& src % 2 == 0 && dst % 2 == 0 && byte_count % 2 == 0
    &&& (byte_count >> transfer_shift(src, dst, byte_count)) < 0x10000
}

/// Whether a transfer is made of 32-bit units: both addresses and the length are multiples of
/// four bytes. Otherwise it is made of 16-bit units.
pub open spec fn transfer_is_u32(src: usize, dst: usize, byte_count: usize) -> bool {
    src % 4 == 0 && dst % 4 == 0 && byte_count % 4 == 0
}

/// The bytes of one unit of a transfer.
pub open spec fn transfer_unit(src: usize, dst: usize, byte_count: usize) -> int {
    if transfer_is_u32(src, dst, byte_count) {
        4
    } else {
        2
    }
}

/// Shifting right by one or two bits divides by two or four.
proof fn lemma_shr_div(x: usize)
    by (bit_vector)
    ensures
        x >> 1usize == x / 2,
        x >> 2usize == x / 4,
{
}

/// The shift that turns a byte count into a unit count.
pub open spec fn transfer_shift(src: usize, dst: usize, byte_count: usize) -> usize {
    if transfer_is_u32(src, dst, byte_count) {
        2
    } else {
        1
    }
}

/// Checks the alignment of a transfer and computes its unit size and unit count.
///
/// Returns whether 32-bit units are used, and the number of units.
pub fn check_align(src_internal: bool, dst_internal: bool, src: usize, dst: usize, byte_count: usize)
    -> (r: (bool, u16))
    requires
        transfer_ok(src_internal, dst_internal, src, dst, byte_count),
    ensures
        r.0 == transfer_is_u32(src, dst, byte_count),
        r.1 == byte_count >> transfer_shift(src, dst, byte_count),
        r.1 * transfer_unit(src, dst, byte_count) == byte_count,
{
    proof {
        lemma_shr_div(byte_count);
    }
    let is_u32 = src % 4 == 0 && dst % 4 == 0 && byte_count % 4 == 0;
    let word_shift: usize = if is_u32 {
        2
    } else {
        1
    };
    let word_count = byte_count >> word_shift;
    (is_u32, word_count as u16)
}

/// A DMA request: the registers to program on a channel to start a transfer.
#[derive(Copy, Clone, Debug)]
pub struct DmaRequest {
    /// The channel to use.
    pub channel: DmaChannelId,
    /// The source address.
    pub src: usize,
    /// The destination address.
    pub dst: usize,
    /// The number of units to copy.
    pub word_count: u16,
    /// The control word.
    pub cnt: DmaCnt,
}

/// A DMA channel.
pub struct DmaChannel {
    channel: DmaChannelId,
    irq_notify: bool,
    _lock: RawMutexGuard,
}

/// The control word of a transfer that copies a block.
pub open spec fn transfer_cnt(irq_notify: bool, is_u32: bool) -> u32 {
    set_bits(
        set_bits(set_bits(0, 14, 1, if irq_notify { 1 } else { 0 }), 10, 1, if is_u32 { 1 } else { 0 }),
        15,
        1,
        1,
    )
}

/// The control word of a transfer that fills a block with one value.
pub open spec fn fill_cnt(irq_notify: bool, is_u32: bool) -> u32 {
    set_bits(
        set_bits(
            set_bits(set_bits(0, 7, 2, 2), 14, 1, if irq_notify { 1 } else { 0 }),
            10,
            1,
            if is_u32 { 1 } else { 0 },
        ),
        15,
        1,
        1,
    )
}

impl DmaChannel {
    /// The channel this object controls.
    pub closed spec fn channel(&self) -> DmaChannelId {
        self.channel
    }

    /// Whether an IRQ is raised when a transfer completes.
    pub closed spec fn irq_notify(&self) -> bool {
        self.irq_notify
    }

    /// Triggers an IRQ whenever this DMA transfer completes successfully.
    pub fn with_irq_notify(self) -> (r: Self)
        ensures
            r.channel() == self.channel(),
            r.irq_notify(),
    {
        DmaChannel { irq_notify: true, ..self }
    }

    /// The request that sets `word_count` units at `dst` to the value at `src`.
    ///
    /// The unit must be two bytes with an alignment of two, or four bytes with an alignment of
    /// four, both addresses must be even, and fewer than 65536 units may be set at once.
    pub fn unsafe_set(
        &self,
        src: usize,
        dst: usize,
        elem_size: usize,
        elem_align: usize,
        word_count: usize,
    ) -> (r: DmaRequest)
        requires
            (elem_size == 2 && elem_align == 2) || (elem_size == 4 && elem_align == 4),
            word_count < 0x10000,
            src % 2 == 0,
            dst % 2 == 0,
        ensures
            r.channel == self.channel(),
            r.src == src,
            r.dst == dst,
            r.word_count == word_count,
            r.cnt@ == fill_cnt(self.irq_notify(), elem_size == 4),
    {
        let is_u32 = elem_size == 4;
        let cnt = DmaCnt::default().with_src_ctl(DmaAddrCnt::Fixed).with_send_irq(
            self.irq_notify,
        ).with_transfer_u32(is_u32).with_enabled(true);
        DmaRequest { channel: self.channel, src, dst, word_count: word_count as u16, cnt }
    }

    /// The request that copies `byte_count` bytes from `src` to `dst`.
    ///
    /// Both addresses and the byte count must be even, and channels that only reach internal
    /// memory must not be given cartridge addresses.
    pub fn unsafe_transfer(&self, src: usize, dst: usize, byte_count: usize) -> (r: DmaRequest)
        requires
            transfer_ok(
                self.channel().spec_index() == 0,
                self.channel().spec_index() <= 2,
                src,
                dst,
                byte_count,
            ),
        ensures
            r.channel == self.channel(),
            r.src == src,
            r.dst == dst,
            r.word_count == byte_count >> transfer_shift(src, dst, byte_count),
            r.word_count * transfer_unit(src, dst, byte_count) == byte_count,
            r.cnt@ == transfer_cnt(self.irq_notify(), transfer_is_u32(src, dst, byte_count)),
    {
        let (is_u32, word_count) = check_align(
            self.channel.is_source_internal_only(),
            self.channel.is_target_internal_only(),
            src,
            dst,
            byte_count,
        );
        let cnt = DmaCnt::default().with_send_irq(self.irq_notify).with_transfer_u32(
            is_u32,
        ).with_enabled(true);
        DmaRequest { channel: self.channel, src, dst, word_count, cnt }
    }

    /// The request that copies `len` elements of `elem_size` bytes from `src` to `dst`; the two
    /// blocks must have the same length.
    pub fn transfer(
        &self,
        src: usize,
        src_len: usize,
        dst: usize,
        dst_len: usize,
        elem_size: usize,
    ) -> (r: DmaRequest)
        requires
            src_len == dst_len,
            src_len * elem_size <= usize::MAX,
            transfer_ok(
                self.channel().spec_index() == 0,
                self.channel().spec_index() <= 2,
                src,
                dst,
                (src_len * elem_size) as usize,
            ),
        ensures
            r.channel == self.channel(),
            r.src == src,
            r.dst == dst,
            r.word_count == ((src_len * elem_size) as usize) >> transfer_shift(
                src,
                dst,
                (src_len * elem_size) as usize,
            ),
            r.word_count * transfer_unit(src, dst, (src_len * elem_size) as usize) == src_len * elem_size,
            r.cnt@ == transfer_cnt(
                self.irq_notify(),
                transfer_is_u32(src, dst, (src_len * elem_size) as usize),
            ),
    {
        self.unsafe_transfer(src, dst, src_len * elem_size)
    }

    /// Releases the channel's lock among the locks of the four channels.
    pub fn release(self, locks: &mut LockSet)
        requires
            old(locks).is_locked(self.channel().spec_index() as int),
        ensures
            !final(locks).is_locked(self.channel().spec_index() as int),
            final(locks).same_except(old(locks), self.channel().spec_index() as int),
    {
        let i = self.channel.index();
        locks.unlock(i, self._lock);
    }
}

/// Whether the control word of a channel has the channel running.
pub open spec fn dma_enabled(cnt: DmaCnt) -> bool {
    crate::bits::get_bits(cnt@, 15, 1) == 1
}

/// Whether `r` lists the writes that pause the channels with control words `cnts`: only
/// running channels are written, each with its enable bit cleared, and every running channel
/// is written.
pub open spec fn is_pause_writes(cnts: Seq<DmaCnt>, r: Seq<(usize, DmaCnt)>) -> bool {
    &&& forall|k: int|
        0 <= k < r.len() ==> (#[trigger] r[k]).0 < 4 && r[k].1@ == set_bits(
            cnts[r[k].0 as int]@,
            15,
            1,
            0,
        )
    &&& forall|i: int|
        0 <= i < 4 ==> (dma_enabled(cnts[i]) <==> exists|k: int| 0 <= k < r.len() && (#[trigger] r[k]).0 == i)
}

/// Whether `r` lists the writes that resume the channels paused from control words `cnts`:
/// every channel that was running gets its control word back, and no other is written.
pub open spec fn is_resume_writes(cnts: Seq<DmaCnt>, r: Seq<(usize, DmaCnt)>) -> bool {
    &&& forall|k: int| 0 <= k < r.len() ==> (#[trigger] r[k]).0 < 4 && r[k].1 == cnts[r[k].0 as int]
    &&& forall|i: int|
        0 <= i < 4 ==> (dma_enabled(cnts[i]) <==> exists|k: int| 0 <= k < r.len() && (#[trigger] r[k]).0 == i)
}

/// The control registers `regs` after the writes `ws`, made in order.
pub open spec fn apply_cnt_writes(regs: Seq<u32>, ws: Seq<(usize, DmaCnt)>) -> Seq<u32>
    decreases ws.len(),
{
    if ws.len() == 0 {
        regs
    } else {
        apply_cnt_writes(regs, ws.drop_last()).update(ws.last().0 as int, ws.last().1@)
    }
}

/// The values of control words.
pub open spec fn cnt_views(cnts: Seq<DmaCnt>) -> Seq<u32> {
    Seq::new(cnts.len(), |i: int| cnts[i]@)
}

/// Writes to registers that exist keep the number of registers, and a register that no write
/// names keeps its value.
proof fn lemma_apply_untouched(regs: Seq<u32>, ws: Seq<(usize, DmaCnt)>, i: int)
    requires
        forall|k: int| 0 <= k < ws.len() ==> (#[trigger] ws[k]).0 < regs.len(),
        forall|k: int| 0 <= k < ws.len() ==> (#[trigger] ws[k]).0 != i,
    ensures
        apply_cnt_writes(regs, ws).len() == regs.len(),
        0 <= i < regs.len() ==> apply_cnt_writes(regs, ws)[i] == regs[i],
    decreases ws.len(),
{
    if ws.len() > 0 {
        let w = ws.drop_last();
        assert forall|k: int| 0 <= k < w.len() implies (#[trigger] w[k]).0 < regs.len() && w[k].0 != i by {
            assert(w[k] == ws[k]);
        }
        lemma_apply_untouched(regs, w, i);
        assert(ws.last() == ws[ws.len() - 1]);
    }
}

/// A register that some write names holds the value all writes to it carry.
proof fn lemma_apply_written(regs: Seq<u32>, ws: Seq<(usize, DmaCnt)>, i: int, v: u32)
    requires
        0 <= i < regs.len(),
        forall|k: int| 0 <= k < ws.len() ==> (#[trigger] ws[k]).0 < regs.len(),
        forall|k: int| 0 <= k < ws.len() && (#[trigger] ws[k]).0 == i ==> ws[k].1@ == v,
        exists|k: int| 0 <= k < ws.len() && (#[trigger] ws[k]).0 == i,
    ensures
        apply_cnt_writes(regs, ws).len() == regs.len(),
        apply_cnt_writes(regs, ws)[i] == v,
    decreases ws.len(),
{
    let n = ws.len();
    let w = ws.drop_last();
    assert(ws.last() == ws[n - 1]);
    assert forall|k: int| 0 <= k < w.len() implies (#[trigger] w[k]).0 < regs.len() && (w[k].0 == i ==> w[k].1@ == v) by {
        assert(w[k] == ws[k]);
    }
    if ws[n - 1].0 == i {
        if exists|k: int| 0 <= k < w.len() && (#[trigger] w[k]).0 == i {
            lemma_apply_written(regs, w, i, v);
        } else {
            lemma_apply_untouched(regs, w, i);
        }
    } else {
        let k0 = choose|k: int| 0 <= k < ws.len() && (#[trigger] ws[k]).0 == i;
        assert(w[k0] == ws[k0]);
        assert(exists|k: int| 0 <= k < w.len() && (#[trigger] w[k]).0 == i);
        lemma_apply_written(regs, w, i, v);
    }
}

/// Pausing stops every channel: after the pause writes, no control register has the enable
/// bit set.
pub proof fn lemma_pause_stops_all(cnts: Seq<DmaCnt>, p: Seq<(usize, DmaCnt)>)
    requires
        cnts.len() == 4,
        is_pause_writes(cnts, p),
    ensures
        apply_cnt_writes(cnt_views(cnts), p).len() == 4,
        forall|i: int| 0 <= i < 4 ==> crate::bits::get_bits(#[trigger] apply_cnt_writes(cnt_views(cnts), p)[i], 15, 1) == 0,
{
    let regs = cnt_views(cnts);
    crate::bits::lemma_fits_small(0, 1);
    assert forall|i: int| 0 <= i < 4 implies crate::bits::get_bits(#[trigger] apply_cnt_writes(regs, p)[i], 15, 1) == 0 by {
        if dma_enabled(cnts[i]) {
            let v = set_bits(cnts[i]@, 15, 1, 0);
            crate::bits::lemma_get_set_same(cnts[i]@, 15, 1, 0);
            lemma_apply_written(regs, p, i, v);
        } else {
            lemma_apply_untouched(regs, p, i);
            crate::bits::lemma_get_fits(cnts[i]@, 15, 1);
            crate::bits::lemma_fits_small(crate::bits::get_bits(cnts[i]@, 15, 1), 1);
        }
    }
    lemma_apply_untouched(regs, p, 4);
}

/// Resuming after a pause restores every channel's control register as it was before the
/// pause.
pub proof fn lemma_resume_restores(cnts: Seq<DmaCnt>, p: Seq<(usize, DmaCnt)>, q: Seq<(usize, DmaCnt)>)
    requires
        cnts.len() == 4,
        is_pause_writes(cnts, p),
        is_resume_writes(cnts, q),
    ensures
        apply_cnt_writes(apply_cnt_writes(cnt_views(cnts), p), q) == cnt_views(cnts),
{
    let regs = cnt_views(cnts);
    lemma_apply_untouched(regs, p, 4);
    let mid = apply_cnt_writes(regs, p);
    lemma_apply_untouched(mid, q, 4);
    assert forall|i: int| 0 <= i < 4 implies #[trigger] apply_cnt_writes(mid, q)[i] == regs[i] by {
        if dma_enabled(cnts[i]) {
            lemma_apply_written(mid, q, i, cnts[i]@);
        } else {
            lemma_apply_untouched(regs, p, i);
            lemma_apply_untouched(mid, q, i);
        }
    }
    assert(apply_cnt_writes(mid, q) =~= regs);
}

/// The control words to write to pause the running DMA channels, given their current control
/// words: each enabled channel is written with its enable bit cleared.
pub fn pause_dma_writes(cnts: &[DmaCnt; 4]) -> (r: Vec<(usize, DmaCnt)>)
    ensures
        is_pause_writes(cnts@, r@),
{
    let mut r: Vec<(usize, DmaCnt)> = Vec::new();
    for i in 0..4
        invariant
            forall|k: int|
                0 <= k < r@.len() ==> (#[trigger] r@[k]).0 < i && r@[k].1@ == set_bits(
                    cnts[r@[k].0 as int]@,
                    15,
                    1,
                    0,
                ),
            forall|j: int|
                0 <= j < i ==> (crate::bits::get_bits(cnts[j]@, 15, 1) == 1 <==> exists|k: int|
                    0 <= k < r@.len() && (#[trigger] r@[k]).0 == j),
    {
        let ghost old_r = r@;
        if cnts[i].enabled() {
            let paused = cnts[i].with_enabled(false);
            r.push((i, paused));
            assert(r@[r@.len() - 1].0 == i);
        }
        proof {
            assert forall|j: int|
                0 <= j < i + 1 implies (crate::bits::get_bits(cnts[j]@, 15, 1) == 1 <==> exists|
                k: int,
            | 0 <= k < r@.len() && (#[trigger] r@[k]).0 == j) by {
                if j < i {
                    if crate::bits::get_bits(cnts[j]@, 15, 1) == 1 {
                        let k = choose|k: int| 0 <= k < old_r.len() && (#[trigger] old_r[k]).0 == j;
                        assert(r@[k] == old_r[k]);
                    } else {
                        assert forall|k: int| 0 <= k < r@.len() implies (#[trigger] r@[k]).0 != j by {
                            if k < old_r.len() {
                                assert(r@[k] == old_r[k]);
                            }
                        }
                    }
                } else {
                    if crate::bits::get_bits(cnts[j]@, 15, 1) == 1 {
                        assert(r@[r@.len() - 1].0 == j);
                    } else {
                        assert forall|k: int| 0 <= k < r@.len() implies (#[trigger] r@[k]).0 != j by {
                            assert(r@[k] == old_r[k]);
                        }
                    }
                }
            }
        }
    }
    r
}

/// The control words to write to resume the channels paused by [`pause_dma_writes`]: each
/// channel that was enabled gets back the control word it had before the pause.
pub fn resume_dma_writes(cnts: &[DmaCnt; 4]) -> (r: Vec<(usize, DmaCnt)>)
    ensures
        is_resume_writes(cnts@, r@),
{
    let mut r: Vec<(usize, DmaCnt)> = Vec::new();
    for i in 0..4
        invariant
            forall|k: int|
                0 <= k < r@.len() ==> (#[trigger] r@[k]).0 < i && r@[k].1 == cnts[r@[k].0 as int],
            forall|j: int|
                0 <= j < i ==> (crate::bits::get_bits(cnts[j]@, 15, 1) == 1 <==> exists|k: int|
                    0 <= k < r@.len() && (#[trigger] r@[k]).0 == j),
    {
        let ghost old_r = r@;
        if cnts[i].enabled() {
            r.push((i, cnts[i]));
            assert(r@[r@.len() - 1].0 == i);
        }
        proof {
            assert forall|j: int|
                0 <= j < i + 1 implies (crate::bits::get_bits(cnts[j]@, 15, 1) == 1 <==> exists|
                k: int,
            | 0 <= k < r@.len() && (#[trigger] r@[k]).0 == j) by {
                if j < i {
                    if crate::bits::get_bits(cnts[j]@, 15, 1) == 1 {
                        let k = choose|k: int| 0 <= k < old_r.len() && (#[trigger] old_r[k]).0 == j;
                        assert(r@[k] == old_r[k]);
                    } else {
                        assert forall|k: int| 0 <= k < r@.len() implies (#[trigger] r@[k]).0 != j by {
                            if k < old_r.len() {
                                assert(r@[k] == old_r[k]);
                            }
                        }
                    }
                } else {
                    if crate::bits::get_bits(cnts[j]@, 15, 1) == 1 {
                        assert(r@[r@.len() - 1].0 == j);
                    } else {
                        assert forall|k: int| 0 <= k < r@.len() implies (#[trigger] r@[k]).0 != j by {
                            assert(r@[k] == old_r[k]);
                        }
                    }
                }
            }
        }
    }
    r
}

} // verus!
