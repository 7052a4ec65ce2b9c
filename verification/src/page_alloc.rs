//! The kernel MMIO virtual-address allocator: a bump allocator carving
//! whole-page regions out of the reserved MMIO remap window. Allocations
//! are monotonic — MMIO virtual space is never freed — and the cursor
//! stays page-aligned inside the reserved window.

use vstd::prelude::*;
use vstd::arithmetic::div_mod::{lemma_fundamental_div_mod, lemma_mod_multiples_vanish};
use crate::address::{Address, Virtual, MemoryRegion, GRANULE_SIZE, page_aligned};

verus! {

/// Allocator state: the reserved virtual window and the bump cursor.
pub struct MmioVaAllocator {
    pub initialized: bool,
    pub reserved_region: MemoryRegion<Virtual>,
    pub next_free: Address<Virtual>,
}

impl MmioVaAllocator {
    /// Once initialized, the cursor is page-aligned and inside the
    /// reserved window.
    pub open spec fn wf(self) -> bool {
        self.initialized ==> {
            &&& self.reserved_region.wf()
            &&& page_aligned(self.next_free.value as int)
            &&& self.reserved_region.start.value <= self.next_free.value
                <= self.reserved_region.end.value
        }
    }

    /// Pages still available in the reserved window.
    pub open spec fn spec_pages_left(self) -> int {
        (self.reserved_region.end.value - self.next_free.value) / (GRANULE_SIZE as int)
    }

    /// Whether a request for this many pages can be satisfied.
    pub open spec fn can_alloc(self, num_pages: int) -> bool {
        self.initialized && num_pages <= self.spec_pages_left()
    }

    /// The region a successful request for this many pages hands out.
    pub open spec fn spec_alloc_region(self, num_pages: int) -> MemoryRegion<Virtual> {
        MemoryRegion {
            start: self.next_free,
            end: Address {
                value: (self.next_free.value + num_pages * GRANULE_SIZE) as usize,
                kind: core::marker::PhantomData,
            },
        }
    }

    /// The allocator state after a successful request for this many pages.
    pub open spec fn spec_after_alloc(self, num_pages: int) -> MmioVaAllocator {
        MmioVaAllocator {
            next_free: Address {
                value: (self.next_free.value + num_pages * GRANULE_SIZE) as usize,
                kind: core::marker::PhantomData,
            },
            ..self
        }
    }

    /// A fresh allocator, not yet bound to a window.
    pub fn new() -> (r: Self)
        ensures
            !r.initialized,
            r.wf(),
    {
        MmioVaAllocator {
            initialized: false,
            reserved_region: MemoryRegion {
                start: Address { value: 0, kind: core::marker::PhantomData },
                end: Address { value: 0, kind: core::marker::PhantomData },
            },
            next_free: Address { value: 0, kind: core::marker::PhantomData },
        }
    }

    /// One-time setup binding the allocator to its reserved virtual
    /// window. A second call is a logic error and is rejected.
    pub fn initialize(&mut self, region: MemoryRegion<Virtual>) -> (r: Result<(), &'static str>)
        requires
            old(self).wf(),
            region.wf(),
        ensures
            final(self).wf(),
            !old(self).initialized ==> {
                &&& r is Ok
                &&& final(self).initialized
                &&& final(self).reserved_region == region
                &&& final(self).next_free == region.start
            },
            old(self).initialized ==> {
                &&& r matches Err(e) && e@ == "MMIO VA allocator already initialized"@
                &&& *final(self) == *old(self)
            },
    {
        if self.initialized {
            return Err("MMIO VA allocator already initialized");
        }
        self.initialized = true;
        self.reserved_region = region;
        self.next_free = region.start_addr();
        Ok(())
    }

    /// Hands out a fresh region of exactly `num_pages` pages and bumps
    /// the cursor. Fails when the allocator was never initialized or the
    /// reserved window is exhausted; the caller guards against zero-page
    /// requests.
    pub fn alloc_pages(&mut self, num_pages: usize) -> (r: Result<MemoryRegion<Virtual>, &'static str>)
        requires
            old(self).wf(),
            num_pages >= 1,
        ensures
            final(self).wf(),
            !old(self).initialized ==> {
                &&& r matches Err(e) && e@ == "MMIO VA allocator not initialized"@
                &&& *final(self) == *old(self)
            },
            old(self).initialized && !old(self).can_alloc(num_pages as int) ==> {
                &&& r matches Err(e) && e@ == "out of MMIO virtual memory"@
                &&& *final(self) == *old(self)
            },
            old(self).can_alloc(num_pages as int) ==> {
                &&& *final(self) == old(self).spec_after_alloc(num_pages as int)
                &&& (r matches Ok(region) && region == old(self).spec_alloc_region(
                    num_pages as int,
                ) && region.wf() && region.spec_num_pages() == num_pages)
            },
    {
        if !self.initialized {
            return Err("MMIO VA allocator not initialized");
        }
        let avail: usize = (self.reserved_region.end.value - self.next_free.value) / GRANULE_SIZE;
        if num_pages > avail {
            return Err("out of MMIO virtual memory");
        }
        proof {
            let g = GRANULE_SIZE as int;
            let d = self.reserved_region.end.value - self.next_free.value;
            lemma_fundamental_div_mod(d, g);
            assert(num_pages * g <= (d / g) * g) by (nonlinear_arith)
                requires
                    num_pages as int <= d / g,
                    g > 0,
            ;
            assert((d / g) * g <= d) by (nonlinear_arith)
                requires
                    d == g * (d / g) + d % g,
                    d % g >= 0,
            ;
            // the bumped cursor stays page-aligned
            lemma_mod_multiples_vanish(num_pages as int, self.next_free.value as int, g);
        }
        let start = self.next_free;
        let end = Address::new(self.next_free.into_usize() + num_pages * GRANULE_SIZE);
        self.next_free = end;
        Ok(MemoryRegion { start, end })
    }
}

/// Law: two sequential allocations hand out well-formed, page-aligned,
/// non-overlapping regions of exactly the requested sizes, the second
/// region starting exactly where the first one ends.
pub proof fn lemma_sequential_allocs_adjacent(a0: MmioVaAllocator, n1: int, n2: int)
    requires
        a0.wf(),
        n1 >= 1,
        n2 >= 1,
        a0.can_alloc(n1),
        a0.spec_after_alloc(n1).can_alloc(n2),
    ensures
        a0.spec_alloc_region(n1).wf(),
        a0.spec_after_alloc(n1).spec_alloc_region(n2).wf(),
        a0.spec_alloc_region(n1).spec_num_pages() == n1,
        a0.spec_after_alloc(n1).spec_alloc_region(n2).spec_num_pages() == n2,
        a0.spec_after_alloc(n1).spec_alloc_region(n2).start == a0.spec_alloc_region(n1).end,
        !a0.spec_alloc_region(n1).spec_overlaps(a0.spec_after_alloc(n1).spec_alloc_region(n2)),
{
    let g = GRANULE_SIZE as int;
    let a1 = a0.spec_after_alloc(n1);
    let next0 = a0.next_free.value as int;
    let end0 = a0.reserved_region.end.value as int;
    lemma_fundamental_div_mod(end0 - next0, g);
    assert(n1 * g <= ((end0 - next0) / g) * g) by (nonlinear_arith)
        requires
            n1 <= (end0 - next0) / g,
            g > 0,
    ;
    assert(((end0 - next0) / g) * g <= end0 - next0) by (nonlinear_arith)
        requires
            end0 - next0 == g * ((end0 - next0) / g) + (end0 - next0) % g,
            (end0 - next0) % g >= 0,
    ;
    lemma_mod_multiples_vanish(n1, next0, g);
    let next1 = a1.next_free.value as int;
    lemma_fundamental_div_mod(end0 - next1, g);
    assert(n2 * g <= ((end0 - next1) / g) * g) by (nonlinear_arith)
        requires
            n2 <= (end0 - next1) / g,
            g > 0,
    ;
    assert(((end0 - next1) / g) * g <= end0 - next1) by (nonlinear_arith)
        requires
            end0 - next1 == g * ((end0 - next1) / g) + (end0 - next1) % g,
            (end0 - next1) % g >= 0,
    ;
    lemma_mod_multiples_vanish(n2, next1, g);
    assert(n1 * g >= g) by (nonlinear_arith)
        requires
            n1 >= 1,
            g > 0,
    ;
    assert(n2 * g >= g) by (nonlinear_arith)
        requires
            n2 >= 1,
            g > 0,
    ;
    assert(a0.spec_alloc_region(n1).spec_num_pages() == n1) by {
        crate::address::lemma_num_pages_exact(a0.spec_alloc_region(n1));
        assert(n1 * g / g == n1) by (nonlinear_arith)
            requires
                g > 0,
        ;
    }
    assert(a1.spec_alloc_region(n2).spec_num_pages() == n2) by {
        crate::address::lemma_num_pages_exact(a1.spec_alloc_region(n2));
        assert(n2 * g / g == n2) by (nonlinear_arith)
            requires
                g > 0,
        ;
    }
}

} // verus!
