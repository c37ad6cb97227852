//! The bookkeeping of the heap allocator: the layout adjustment, the zones of free memory the
//! heaps live in, where the heap table goes, which zone an address belongs to, and how many
//! bytes are in use.
use vstd::prelude::*;

verus! {

/// A range of addresses, from `start` up to but not including `end`.
pub type AddrRange = (usize, usize);

/// The number of bytes of a range; an inverted range is empty.
pub open spec fn range_len(r: AddrRange) -> int {
    if r.1 < r.0 {
        0
    } else {
        r.1 - r.0
    }
}

/// A range, made empty at its start where its end lies before it.
pub open spec fn valid_range(r: AddrRange) -> AddrRange {
    if r.1 < r.0 {
        (r.0, r.0)
    } else {
        r
    }
}

/// Makes an inverted range empty.
pub fn check_range_validity(range: AddrRange) -> (r: AddrRange)
    ensures
        r == valid_range(range),
{
    if range.1 < range.0 {
        (range.0, range.0)
    } else {
        range
    }
}

/// `x` rounded up to a multiple of `m`.
pub open spec fn round_up(x: usize, m: usize) -> int {
    (x + m - 1) / (m as int) * m
}

/// Rounding up with a mask is rounding up to a multiple, for 8 and 64.
proof fn lemma_round_up_mask(x: usize)
    by (bit_vector)
    requires
        x <= 0xFFFF_FF00,
    ensures
        ((x + 7) as usize) & !7usize == (x + 7) / 8 * 8,
        ((x + 63) as usize) & !63usize == (x + 63) / 64 * 64,
{
}

/// A range with its start rounded up to a multiple of 8, for an array of heap records.
pub fn align_array(range: AddrRange) -> (r: AddrRange)
    requires
        range.0 <= 0xFFFF_FF00,
    ensures
        r == valid_range((round_up(range.0, 8) as usize, range.1)),
{
    proof {
        lemma_round_up_mask(range.0);
    }
    check_range_validity(((range.0 + 7) & !7usize, range.1))
}

/// A range with its start rounded up to a multiple of 64, for a heap.
pub fn align_alloc(range: AddrRange) -> (r: AddrRange)
    requires
        range.0 <= 0xFFFF_FF00,
    ensures
        r == valid_range((round_up(range.0, 64) as usize, range.1)),
{
    proof {
        lemma_round_up_mask(range.0);
    }
    check_range_validity(((range.0 + 63) & !63usize, range.1))
}

/// Whether a zone can hold `size` bytes of heap records after its start is aligned.
pub open spec fn fits_records(zone: AddrRange, size: usize) -> bool {
    size <= range_len(valid_range((round_up(zone.0, 8) as usize, zone.1)))
}

/// Whether all zones start low enough to be aligned.
pub open spec fn zones_ok(zones: Seq<AddrRange>) -> bool {
    forall|i: int| 0 <= i < zones.len() ==> (#[trigger] zones[i]).0 <= 0xFFFF_FF00
}

/// The zone that holds the table of heap records: the first zone in internal work RAM that
/// can hold them, or else the first zone at all that can. Some zone must be able to.
pub fn find_control_zone(size: usize, zones: &[AddrRange]) -> (r: usize)
    requires
        zones_ok(zones@),
        exists|i: int| 0 <= i < zones@.len() && fits_records(zones@[i], size),
    ensures
        r < zones@.len(),
        fits_records(zones@[r as int], size),
        (exists|i: int| 0 <= i < zones@.len() && fits_records(zones@[i], size) && zones@[i].0 >= 0x3000000)
            ==> zones@[r as int].0 >= 0x3000000 && forall|i: int|
            0 <= i < r ==> !(fits_records(zones@[i], size) && zones@[i].0 >= 0x3000000),
        !(exists|i: int| 0 <= i < zones@.len() && fits_records(zones@[i], size) && zones@[i].0 >= 0x3000000)
            ==> forall|i: int| 0 <= i < r ==> !fits_records(zones@[i], size),
{
    // try to find an appropriate iwram zone
    let mut i: usize = 0;
    while i < zones.len()
        invariant
            zones_ok(zones@),
            i <= zones@.len(),
            forall|j: int| 0 <= j < i ==> !(fits_records(zones@[j], size) && zones@[j].0 >= 0x3000000),
        decreases zones@.len() - i,
    {
        let a = align_array(zones[i]);
        let len = if a.1 < a.0 {
            0
        } else {
            a.1 - a.0
        };
        if size <= len && zones[i].0 >= 0x3000000 {
            return i;
        }
        i = i + 1;
    }
    // try to find an appropriate zone
    let mut i: usize = 0;
    while i < zones.len()
        invariant
            zones_ok(zones@),
            i <= zones@.len(),
            exists|j: int| 0 <= j < zones@.len() && fits_records(zones@[j], size),
            !(exists|j: int| 0 <= j < zones@.len() && fits_records(zones@[j], size) && zones@[j].0 >= 0x3000000),
            forall|j: int| 0 <= j < i ==> !fits_records(zones@[j], size),
        decreases zones@.len() - i,
    {
        let a = align_array(zones[i]);
        let len = if a.1 < a.0 {
            0
        } else {
            a.1 - a.0
        };
        if size <= len {
            return i;
        }
        i = i + 1;
    }
    i
}

/// The heap zones: where the table of heap records goes, and the range of each heap. The
/// control zone holds the table at its aligned start; its heap takes the rest of it.
pub open spec fn planned_heaps(zones: Seq<AddrRange>, control: int, table_size: usize) -> Seq<AddrRange> {
    let table = valid_range((round_up(zones[control].0, 8) as usize, zones[control].1));
    Seq::new(
        zones.len(),
        |i: int|
            if i == control {
                valid_range((round_up((table.0 + table_size) as usize, 64) as usize, table.1))
            } else {
                valid_range((round_up(zones[i].0, 64) as usize, zones[i].1))
            },
    )
}

/// `round_up` gives a multiple of the step, at or above the value and less than a step above.
proof fn lemma_round_up_bounds(x: usize, m: usize)
    requires
        m == 8 || m == 64,
    ensures
        x <= round_up(x, m) < x + m,
        round_up(x, m) % (m as int) == 0,
{
    let q = (x + m - 1) / (m as int);
    let r = (x + m - 1) % (m as int);
    assert(x + m - 1 == q * m + r && 0 <= r < m) by (nonlinear_arith)
        requires
            m > 0,
            q == (x + m - 1) / (m as int),
            r == (x + m - 1) % (m as int),
    ;
    assert((q * m) % (m as int) == 0) by (nonlinear_arith)
        requires
            m > 0,
    ;
}

/// Law: the planned heaps stay out of the heap-record table and inside their zones. The table
/// starts at the control zone's start rounded up to 8 and, where not empty, fits in the zone; the control
/// zone's heap, where not empty, starts at or after the table's end. Every heap that is not
/// empty starts on a multiple of 64, at or after its zone's start, and ends at its zone's end.
pub proof fn lemma_heaps_clear_of_table(zones: Seq<AddrRange>, control: int, table_size: usize)
    requires
        zones_ok(zones),
        forall|i: int| 0 <= i < zones.len() ==> (#[trigger] zones[i]).1 <= 0xFFFF_FF00,
        0 <= control < zones.len(),
        fits_records(zones[control], table_size),
    ensures
        table_size > 0 ==> round_up(zones[control].0, 8) + table_size <= zones[control].1,
        ({
            let h = planned_heaps(zones, control, table_size)[control];
            h.0 < h.1 ==> h.0 >= round_up(zones[control].0, 8) + table_size
        }),
        forall|i: int|
            0 <= i < zones.len() && #[trigger] planned_heaps(zones, control, table_size)[i].0
                < planned_heaps(zones, control, table_size)[i].1 ==> {
                let h = planned_heaps(zones, control, table_size)[i];
                &&& h.0 % 64 == 0
                &&& h.0 >= zones[i].0
                &&& h.1 == zones[i].1
            },
{
    let z = zones[control];
    lemma_round_up_bounds(z.0, 8);
    let t = round_up(z.0, 8);
    assert(t <= usize::MAX);
    assert((t as usize) as int == t);
    if table_size > 0 {
        assert(t + table_size <= z.1);
    }
    let tend = (t as usize + table_size) as usize;
    if t + table_size <= usize::MAX {
        lemma_round_up_bounds(tend, 64);
    }
    assert forall|i: int|
        0 <= i < zones.len() && #[trigger] planned_heaps(zones, control, table_size)[i].0
            < planned_heaps(zones, control, table_size)[i].1 implies {
            let h = planned_heaps(zones, control, table_size)[i];
            &&& h.0 % 64 == 0
            &&& h.0 >= zones[i].0
            &&& h.1 == zones[i].1
        } by {
        lemma_round_up_bounds(zones[i].0, 64);
    }
}

/// Plans the heaps over the zones of free memory: `record_size` bytes of heap record per zone
/// go into the control zone, and every zone gets a heap of its aligned range. Returns the
/// control zone, the address of the table and the heap ranges.
pub fn plan_heap_zones(zones: &[AddrRange], record_size: usize) -> (r: (usize, usize, Vec<AddrRange>))
    requires
        zones_ok(zones@),
        zones@.len() * record_size <= usize::MAX,
        forall|i: int| 0 <= i < zones@.len() ==> (#[trigger] zones@[i]).1 <= 0xFFFF_FF00,
        exists|i: int| 0 <= i < zones@.len() && fits_records(zones@[i], (zones@.len() * record_size) as usize),
    ensures
        r.0 < zones@.len(),
        fits_records(zones@[r.0 as int], (zones@.len() * record_size) as usize),
        r.1 == valid_range((round_up(zones@[r.0 as int].0, 8) as usize, zones@[r.0 as int].1)).0,
        r.2@ == planned_heaps(zones@, r.0 as int, (zones@.len() * record_size) as usize),
{
    let required = zones.len() * record_size;
    let control = find_control_zone(required, zones);
    let table = align_array(zones[control]);
    let mut heaps: Vec<AddrRange> = Vec::new();
    let mut i: usize = 0;
    while i < zones.len()
        invariant
            zones_ok(zones@),
            forall|j: int| 0 <= j < zones@.len() ==> (#[trigger] zones@[j]).1 <= 0xFFFF_FF00,
            control < zones@.len(),
            required == zones@.len() * record_size,
            fits_records(zones@[control as int], required),
            table == valid_range((round_up(zones@[control as int].0, 8) as usize, zones@[control as int].1)),
            i <= zones@.len(),
            heaps@ == planned_heaps(zones@, control as int, required).subrange(0, i as int),
        decreases zones@.len() - i,
    {
        let range = if i == control {
            align_alloc((table.0 + required, table.1))
        } else {
            align_alloc(zones[i])
        };
        heaps.push(range);
        i = i + 1;
        proof {
            assert(heaps@ =~= planned_heaps(zones@, control as int, required).subrange(0, i as int));
        }
    }
    proof {
        assert(heaps@ =~= planned_heaps(zones@, control as int, required));
    }
    (control, table.0, heaps)
}

/// A layout adjusted for the allocator: alignments below 4 are raised to 4.
pub fn map_layout(size: usize, align: usize) -> (r: (usize, usize))
    ensures
        r == (size, if align < 4 {
            4
        } else {
            align
        }),
{
    if align < 4 {
        (size, 4)
    } else {
        (size, align)
    }
}

/// The zone an address belongs to: the first whose range holds it, if any.
pub fn zone_for_address(ranges: &[AddrRange], addr: usize) -> (r: Option<usize>)
    ensures
        r matches Some(i) ==> i < ranges@.len() && ranges@[i as int].0 <= addr < ranges@[i as int].1
            && forall|j: int| 0 <= j < i ==> !((#[trigger] ranges@[j]).0 <= addr < ranges@[j].1),
        r is None ==> forall|j: int| 0 <= j < ranges@.len() ==> !((#[trigger] ranges@[j]).0 <= addr < ranges@[j].1),
{
    let mut i: usize = 0;
    while i < ranges.len()
        invariant
            i <= ranges@.len(),
            forall|j: int| 0 <= j < i ==> !((#[trigger] ranges@[j]).0 <= addr < ranges@[j].1),
        decreases ranges@.len() - i,
    {
        if ranges[i].0 <= addr && addr < ranges[i].1 {
            return Some(i);
        }
        i = i + 1;
    }
    None
}

/// The heap's byte counts: the total bytes of the heaps and the bytes allocated.
pub struct HeapAccounting {
    capacity: usize,
    used: usize,
}

impl HeapAccounting {
    /// The total bytes of the heaps.
    pub closed spec fn capacity(&self) -> usize {
        self.capacity
    }

    /// The bytes allocated.
    pub closed spec fn used(&self) -> usize {
        self.used
    }

    /// The bytes allocated never exceed the total bytes of the heaps.
    #[verifier::type_invariant]
    spec fn used_within_capacity(&self) -> bool {
        self.used <= self.capacity
    }

    /// The accounting of heaps over the given ranges, with nothing allocated: the capacity is
    /// the sum of their lengths, at most the largest address.
    pub fn new(heaps: &[AddrRange]) -> (r: Self)
        ensures
            r.used() == 0,
            r.capacity() == if ranges_total(heaps@, heaps@.len() as int) <= usize::MAX {
                ranges_total(heaps@, heaps@.len() as int) as usize
            } else {
                usize::MAX
            },
    {
        let mut total: usize = 0;
        let mut saturated = false;
        let mut i: usize = 0;
        while i < heaps.len()
            invariant
                i <= heaps@.len(),
                !saturated ==> total == ranges_total(heaps@, i as int),
                saturated ==> ranges_total(heaps@, i as int) > usize::MAX && total == usize::MAX,
            decreases heaps@.len() - i,
        {
            let r = heaps[i];
            let len = if r.1 < r.0 {
                0
            } else {
                r.1 - r.0
            };
            if !saturated {
                if total <= usize::MAX - len {
                    total = total + len;
                } else {
                    saturated = true;
                    total = usize::MAX;
                }
            }
            proof {
                lemma_ranges_total_grows(heaps@, i as int);
            }
            i = i + 1;
        }
        HeapAccounting { capacity: total, used: 0 }
    }

    /// Returns the total amount of bytes of heap available.
    pub fn heap_capacity(&self) -> (r: usize)
        ensures
            r == self.capacity(),
    {
        self.capacity
    }

    /// Returns the number of bytes of heap that are already allocated, which is at most the
    /// capacity.
    pub fn heap_used(&self) -> (r: usize)
        ensures
            r == self.used(),
            r <= self.capacity(),
    {
        proof {
            use_type_invariant(self);
        }
        self.used
    }

    /// Records an allocation of `size` bytes, which the heaps can only have served where it
    /// fits in what is left of their capacity.
    pub fn record_alloc(&mut self, size: usize)
        requires
            old(self).used() + size <= old(self).capacity(),
        ensures
            final(self).capacity() == old(self).capacity(),
            final(self).used() == old(self).used() + size,
    {
        self.used = self.used + size;
    }

    /// Records that `size` bytes were freed.
    pub fn record_dealloc(&mut self, size: usize)
        ensures
            final(self).capacity() == old(self).capacity(),
            final(self).used() == used_after_dealloc(old(self).used(), size),
    {
        proof {
            use_type_invariant(&*self);
        }
        if self.used >= size {
            self.used = self.used - size;
        } else {
            self.used = 0;
        }
    }
}

/// The sum of the lengths of the first `n` ranges.
pub open spec fn ranges_total(heaps: Seq<AddrRange>, n: int) -> int
    decreases n,
{
    if n <= 0 {
        0
    } else {
        ranges_total(heaps, n - 1) + range_len(heaps[n - 1])
    }
}

/// Sums of range lengths only grow.
proof fn lemma_ranges_total_grows(heaps: Seq<AddrRange>, n: int)
    requires
        0 <= n < heaps.len(),
    ensures
        ranges_total(heaps, n + 1) == ranges_total(heaps, n) + range_len(heaps[n]),
        ranges_total(heaps, n + 1) >= ranges_total(heaps, n),
{
}

/// The bytes in use after freeing `size` bytes; the count stops at zero.
pub open spec fn used_after_dealloc(used: usize, size: usize) -> usize {
    if used >= size {
        (used - size) as usize
    } else {
        0
    }
}

/// Allocating and then freeing the same number of bytes leaves the count of bytes in use as
/// it was.
pub proof fn lemma_alloc_dealloc(used: usize, size: usize)
    requires
        used + size <= usize::MAX,
    ensures
        used_after_dealloc((used + size) as usize, size) == used,
{
}

} // verus!
