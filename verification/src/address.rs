//! The kernel's address model: integer addresses tagged at compile time as
//! physical or virtual, page-aligned addresses, page-aligned memory regions,
//! mapping attributes, and MMIO window descriptors.

use vstd::prelude::*;
use vstd::arithmetic::div_mod::{lemma_fundamental_div_mod, lemma_div_multiples_vanish};

verus! {

/// Page size of the kernel's translation granule, in bytes.
pub const GRANULE_SIZE: usize = 4096;

/// Marker trait for the two kinds of addresses the kernel works with.
/// No operation mixes the two kinds; translating between them is the
/// translation table's job alone.
pub trait AddressType {}

/// Marker for physical addresses.
#[derive(Clone, Copy, Debug)]
pub struct Physical;

/// Marker for virtual addresses.
#[derive(Clone, Copy, Debug)]
pub struct Virtual;

impl AddressType for Physical {}

impl AddressType for Virtual {}

/// An integer address tagged with its kind. A plain value: copied freely,
/// no resource semantics.
#[derive(Debug)]
pub struct Address<ATYPE: AddressType> {
    pub value: usize,
    pub kind: core::marker::PhantomData<ATYPE>,
}

impl<ATYPE: AddressType> Clone for Address<ATYPE> {
    fn clone(&self) -> (r: Self)
        ensures
            r == *self,
    {
        Address { value: self.value, kind: core::marker::PhantomData }
    }
}

impl<ATYPE: AddressType> Copy for Address<ATYPE> {

}

/// True when `a` lies on a granule boundary.
pub open spec fn page_aligned(a: int) -> bool {
    a % (GRANULE_SIZE as int) == 0
}

/// `a` rounded down to the enclosing granule boundary.
pub open spec fn align_down_spec(a: int) -> int {
    a - a % (GRANULE_SIZE as int)
}

/// `a` rounded up to the next granule boundary (identity when aligned).
pub open spec fn align_up_spec(a: int) -> int {
    if page_aligned(a) {
        a
    } else {
        align_down_spec(a) + GRANULE_SIZE
    }
}

/// A page-aligned address never sits in the top, partial page of the
/// address space: there is always room for the rest of its page.
pub proof fn lemma_aligned_headroom(a: usize)
    requires
        page_aligned(a as int),
    ensures
        a + (GRANULE_SIZE - 1) <= usize::MAX,
{
    let g = GRANULE_SIZE as int;
    lemma_fundamental_div_mod(a as int, g);
    let q = a as int / g;
    assert(a as int == g * q);
    assert(q <= 0xf_ffff_ffff_ffff) by (nonlinear_arith)
        requires
            4096 * q <= 0xffff_ffff_ffff_ffffu64,
            g * q == 4096 * q,
    ;
    assert(a as int <= 4096 * 0xf_ffff_ffff_ffff) by (nonlinear_arith)
        requires
            a as int == 4096 * q,
            q <= 0xf_ffff_ffff_ffff,
    ;
}

impl<ATYPE: AddressType> Address<ATYPE> {
    /// Builds an address of the given kind from a raw integer.
    pub fn new(value: usize) -> (r: Self)
        ensures
            r.value == value,
    {
        Address { value, kind: core::marker::PhantomData }
    }

    /// The raw integer behind the address.
    pub fn into_usize(self) -> (r: usize)
        ensures
            r == self.value,
    {
        self.value
    }

    /// Moves the address forward by `offset` bytes, same kind only.
    /// Wrapping around the top of the address space is a defect, so the
    /// sum must fit.
    pub fn add_offset(self, offset: usize) -> (r: Self)
        requires
            self.value + offset <= usize::MAX,
        ensures
            r.value == self.value + offset,
    {
        Address { value: self.value + offset, kind: core::marker::PhantomData }
    }

    /// The address's offset from the start of its enclosing page.
    pub fn offset_into_page(self) -> (r: usize)
        ensures
            r == self.value as int % (GRANULE_SIZE as int),
            r < GRANULE_SIZE,
    {
        self.value % GRANULE_SIZE
    }

    /// The address rounded down to its enclosing page boundary.
    pub fn align_down_page(self) -> (r: Self)
        ensures
            r.value == align_down_spec(self.value as int),
            page_aligned(r.value as int),
    {
        Address { value: self.value - self.value % GRANULE_SIZE, kind: core::marker::PhantomData }
    }
}

/// An address known to lie exactly on a page boundary.
#[derive(Debug)]
pub struct PageAddress<ATYPE: AddressType> {
    pub inner: Address<ATYPE>,
}

impl<ATYPE: AddressType> Clone for PageAddress<ATYPE> {
    fn clone(&self) -> (r: Self)
        ensures
            r == *self,
    {
        PageAddress { inner: self.inner }
    }
}

impl<ATYPE: AddressType> Copy for PageAddress<ATYPE> {

}

impl<ATYPE: AddressType> PageAddress<ATYPE> {
    /// Page alignment is the type's defining invariant.
    pub open spec fn wf(self) -> bool {
        page_aligned(self.inner.value as int)
    }

    /// Wraps an address that is already page-aligned.
    pub fn new(addr: Address<ATYPE>) -> (r: Self)
        requires
            page_aligned(addr.value as int),
        ensures
            r.inner == addr,
            r.wf(),
    {
        PageAddress { inner: addr }
    }

    /// The underlying address.
    pub fn into_inner(self) -> (r: Address<ATYPE>)
        ensures
            r == self.inner,
    {
        self.inner
    }
}

/// A half-open range `[start, end)` of page-aligned addresses of one kind.
#[derive(Debug)]
pub struct MemoryRegion<ATYPE: AddressType> {
    pub start: Address<ATYPE>,
    pub end: Address<ATYPE>,
}

impl<ATYPE: AddressType> Clone for MemoryRegion<ATYPE> {
    fn clone(&self) -> (r: Self)
        ensures
            r == *self,
    {
        MemoryRegion { start: self.start, end: self.end }
    }
}

impl<ATYPE: AddressType> Copy for MemoryRegion<ATYPE> {

}

impl<ATYPE: AddressType> MemoryRegion<ATYPE> {
    /// Both bounds page-aligned, start not past end.
    pub open spec fn wf(self) -> bool {
        &&& page_aligned(self.start.value as int)
        &&& page_aligned(self.end.value as int)
        &&& self.start.value <= self.end.value
    }

    /// Number of whole pages the region covers.
    pub open spec fn spec_num_pages(self) -> int {
        (self.end.value - self.start.value) / (GRANULE_SIZE as int)
    }

    /// True when `a` lies inside the region.
    pub open spec fn contains_addr(self, a: int) -> bool {
        self.start.value <= a < self.end.value
    }

    /// True when the two regions share at least one address.
    pub open spec fn spec_overlaps(self, other: MemoryRegion<ATYPE>) -> bool {
        self.start.value < other.end.value && other.start.value < self.end.value
    }

    /// Two regions cover exactly the same range.
    pub open spec fn same_range<BTYPE: AddressType>(self, other: MemoryRegion<BTYPE>) -> bool {
        self.start.value == other.start.value && self.end.value == other.end.value
    }

    /// Builds a region from two page-aligned bounds.
    pub fn new(start: Address<ATYPE>, end_exclusive: Address<ATYPE>) -> (r: Self)
        requires
            page_aligned(start.value as int),
            page_aligned(end_exclusive.value as int),
            start.value <= end_exclusive.value,
        ensures
            r.start == start,
            r.end == end_exclusive,
            r.wf(),
    {
        MemoryRegion { start, end: end_exclusive }
    }

    /// First address of the region.
    pub fn start_addr(&self) -> (r: Address<ATYPE>)
        ensures
            r == self.start,
    {
        self.start
    }

    /// First address past the region.
    pub fn end_exclusive_addr(&self) -> (r: Address<ATYPE>)
        ensures
            r == self.end,
    {
        self.end
    }

    /// Number of whole pages the region covers.
    pub fn num_pages(&self) -> (r: usize)
        requires
            self.wf(),
        ensures
            r == self.spec_num_pages(),
    {
        (self.end.value - self.start.value) / GRANULE_SIZE
    }

    /// True when the two regions share at least one address.
    pub fn overlaps(&self, other: &MemoryRegion<ATYPE>) -> (r: bool)
        ensures
            r == self.spec_overlaps(*other),
    {
        self.start.value < other.end.value && other.start.value < self.end.value
    }
}

/// The page count of a well-formed region accounts for its whole byte
/// length: `num_pages() * GRANULE_SIZE == end - start`.
pub proof fn lemma_num_pages_exact<ATYPE: AddressType>(r: MemoryRegion<ATYPE>)
    requires
        r.wf(),
    ensures
        r.spec_num_pages() * GRANULE_SIZE == r.end.value - r.start.value,
{
    let g = GRANULE_SIZE as int;
    let s = r.start.value as int;
    let e = r.end.value as int;
    lemma_fundamental_div_mod(s, g);
    lemma_fundamental_div_mod(e, g);
    let qs = s / g;
    let qe = e / g;
    assert(e - s == g * (qe - qs)) by (nonlinear_arith)
        requires
            s == g * qs,
            e == g * qe,
    ;
    lemma_div_multiples_vanish(qe - qs, g);
    assert((e - s) / g == qe - qs);
    assert((qe - qs) * g == e - s) by (nonlinear_arith)
        requires
            e - s == g * (qe - qs),
    ;
}

/// How a mapped range may be accessed.
#[derive(Clone, Copy, Debug, PartialEq, Eq, Structural)]
pub enum AccessPermissions {
    ReadOnly,
    ReadWrite,
}

/// Caching policy of a mapped range.
#[derive(Clone, Copy, Debug, PartialEq, Eq, Structural)]
pub enum MemAttributes {
    CacheableDRAM,
    Device,
}

/// Protection and caching policy of one mapping; immutable once the
/// mapping is installed.
#[derive(Clone, Copy, Debug, PartialEq, Eq, Structural)]
pub struct AttributeFields {
    pub mem_attributes: MemAttributes,
    pub acc_perms: AccessPermissions,
    pub execute_never: bool,
}

/// A device's register window: physical start address plus byte length.
/// Source of truth for one physical memory region.
#[derive(Clone, Copy, Debug)]
pub struct MMIODescriptor {
    pub start: Address<Physical>,
    pub size: usize,
}

impl MMIODescriptor {
    /// The window, rounded out to page boundaries, must fit in the
    /// address space.
    pub open spec fn wf(self) -> bool {
        self.start.value + self.size + (GRANULE_SIZE - 1) <= usize::MAX
    }

    /// The physical region the descriptor stands for: its window rounded
    /// out to page boundaries; empty when the length is zero.
    pub open spec fn spec_phys_region(self) -> MemoryRegion<Physical> {
        let s = align_down_spec(self.start.value as int);
        let e = if self.size == 0 {
            s
        } else {
            align_up_spec(self.start.value + self.size)
        };
        MemoryRegion {
            start: Address { value: s as usize, kind: core::marker::PhantomData },
            end: Address { value: e as usize, kind: core::marker::PhantomData },
        }
    }

    /// Builds a descriptor for a device window.
    pub fn new(start: Address<Physical>, size: usize) -> (r: Self)
        requires
            start.value + size + (GRANULE_SIZE - 1) <= usize::MAX,
        ensures
            r.start == start,
            r.size == size,
            r.wf(),
    {
        MMIODescriptor { start, size }
    }

    /// Physical start address of the window.
    pub fn start_addr(&self) -> (r: Address<Physical>)
        ensures
            r == self.start,
    {
        self.start
    }

    /// Byte length of the window.
    pub fn size(&self) -> (r: usize)
        ensures
            r == self.size,
    {
        self.size
    }

    /// The physical region the descriptor stands for.
    pub fn phys_region(&self) -> (r: MemoryRegion<Physical>)
        requires
            self.wf(),
        ensures
            r == self.spec_phys_region(),
            r.wf(),
            self.size > 0 ==> r.spec_num_pages() >= 1,
            self.size == 0 ==> r.spec_num_pages() == 0,
    {
        let s = self.start.value - self.start.value % GRANULE_SIZE;
        let e = if self.size == 0 {
            s
        } else {
            let raw = self.start.value + self.size;
            if raw % GRANULE_SIZE == 0 {
                raw
            } else {
                raw - raw % GRANULE_SIZE + GRANULE_SIZE
            }
        };
        proof {
            let g = GRANULE_SIZE as int;
            if self.size > 0 {
                assert(e as int >= self.start.value + self.size);
                assert(e > s);
                let reg = MemoryRegion::<Physical> {
                    start: Address { value: s, kind: core::marker::PhantomData },
                    end: Address { value: e, kind: core::marker::PhantomData },
                };
                assert(reg.wf());
                lemma_num_pages_exact(reg);
            }
        }
        MemoryRegion {
            start: Address { value: s, kind: core::marker::PhantomData },
            end: Address { value: e, kind: core::marker::PhantomData },
        }
    }
}

} // verus!
