//! The translation-table abstraction and the MMU driver: the table owns
//! the kernel's installed mappings and is the only component that
//! translates between address kinds; the MMU driver gates the hardware's
//! translation-enable state, which flips from off to on exactly once.

use vstd::prelude::*;
use vstd::arithmetic::div_mod::{lemma_add_mod_noop, lemma_sub_mod_noop};
use crate::address::{
    Address, Physical, Virtual, PageAddress, MemoryRegion, AttributeFields, GRANULE_SIZE,
    page_aligned, lemma_num_pages_exact,
};

verus! {

/// Why enabling the MMU failed.
#[derive(Debug, PartialEq, Eq)]
pub enum MMUEnableError {
    AlreadyEnabled,
    Other(&'static str),
}

impl MMUEnableError {
    /// A printable description of the error.
    pub fn message(&self) -> (r: &'static str)
        ensures
            *self matches MMUEnableError::AlreadyEnabled ==> r@ == "MMU is already enabled"@,
            forall|x: &'static str| *self == MMUEnableError::Other(x) ==> r == x,
    {
        match self {
            MMUEnableError::AlreadyEnabled => "MMU is already enabled",
            MMUEnableError::Other(x) => x,
        }
    }
}

/// The hardware's memory management unit: translation enable is a
/// one-way transition, and a second enable is reported, never ignored.
pub trait MMU: Sized {
    /// Whether translation is on.
    spec fn spec_is_enabled(&self) -> bool;

    /// Programs the hardware to walk the tables at the given physical
    /// base and turns on translation and caching. The second call, or
    /// any call once the unit is on, fails with `AlreadyEnabled`; a
    /// first call never reports that error, and on success the unit
    /// is on.
    fn enable_mmu_and_caching(&mut self, phys_tables_base_addr: Address<Physical>) -> (r: Result<
        (),
        MMUEnableError,
    >)
        ensures
            old(self).spec_is_enabled() ==> (r matches Err(MMUEnableError::AlreadyEnabled)
                && *final(self) == *old(self)),
            !old(self).spec_is_enabled() ==> !(r matches Err(MMUEnableError::AlreadyEnabled)),
            !old(self).spec_is_enabled() && r is Ok ==> final(self).spec_is_enabled(),
    ;

    /// Pure query of the enable flag.
    fn is_enabled(&self) -> (r: bool)
        ensures
            r == self.spec_is_enabled(),
    ;
}

/// The kernel's memory management unit.
#[derive(Debug)]
pub struct MemoryManagementUnit {
    pub enabled: bool,
}

impl MemoryManagementUnit {
    /// The unit as it comes out of reset: translation off.
    pub fn new() -> (r: Self)
        ensures
            !r.spec_is_enabled(),
    {
        MemoryManagementUnit { enabled: false }
    }
}

impl MMU for MemoryManagementUnit {
    open spec fn spec_is_enabled(&self) -> bool {
        self.enabled
    }

    fn enable_mmu_and_caching(&mut self, phys_tables_base_addr: Address<Physical>) -> (r: Result<
        (),
        MMUEnableError,
    >)
        ensures
            !old(self).spec_is_enabled() ==> r is Ok && final(self).spec_is_enabled(),
    {
        if self.enabled {
            return Err(MMUEnableError::AlreadyEnabled);
        }
        self.enabled = true;
        Ok(())
    }

    fn is_enabled(&self) -> (r: bool) {
        self.enabled
    }
}

/// Ties an address-space layout to the translation-table type the
/// architecture walks for it, from either end of the space.
pub trait AssociatedTranslationTable {
    type TableStartFromTop;

    type TableStartFromBottom;
}

/// One installed mapping: a virtual region, the physical region backing
/// it, and the attributes its page-table entries carry.
#[derive(Clone, Copy, Debug)]
pub struct MappingEntry {
    pub virt_region: MemoryRegion<Virtual>,
    pub phys_region: MemoryRegion<Physical>,
    pub attr: AttributeFields,
}

impl MappingEntry {
    /// Both regions well formed and of equal page counts.
    pub open spec fn wf(self) -> bool {
        &&& self.virt_region.wf()
        &&& self.phys_region.wf()
        &&& self.virt_region.spec_num_pages() == self.phys_region.spec_num_pages()
    }
}

/// Index of the first entry whose virtual region holds the address.
pub open spec fn find_virt_entry(entries: Seq<MappingEntry>, a: int) -> Option<int>
    decreases entries.len(),
{
    if entries.len() == 0 {
        None
    } else if entries[0].virt_region.contains_addr(a) {
        Some(0int)
    } else {
        match find_virt_entry(entries.drop_first(), a) {
            Some(i) => Some(i + 1),
            None => None,
        }
    }
}

/// What `find_virt_entry` returns: the first entry holding the address,
/// or nothing when no entry holds it.
pub proof fn lemma_find_virt_entry_spec(entries: Seq<MappingEntry>, a: int)
    ensures
        match find_virt_entry(entries, a) {
            Some(i) => {
                &&& 0 <= i < entries.len()
                &&& entries[i].virt_region.contains_addr(a)
                &&& forall|j: int| 0 <= j < i ==> !entries[j].virt_region.contains_addr(a)
            },
            None => forall|j: int|
                0 <= j < entries.len() ==> !entries[j].virt_region.contains_addr(a),
        },
    decreases entries.len(),
{
    if entries.len() > 0 {
        let rest = entries.drop_first();
        lemma_find_virt_entry_spec(rest, a);
        if !entries[0].virt_region.contains_addr(a) {
            match find_virt_entry(rest, a) {
                Some(i) => {
                    assert(entries[i + 1] == rest[i]);
                    assert forall|j: int| 0 <= j < i + 1 implies !entries[j].virt_region.contains_addr(
                        a,
                    ) by {
                        if j > 0 {
                            assert(entries[j] == rest[j - 1]);
                        }
                    }
                },
                None => {
                    assert forall|j: int|
                        0 <= j < entries.len() implies !entries[j].virt_region.contains_addr(a) by {
                        if j > 0 {
                            assert(entries[j] == rest[j - 1]);
                        }
                    }
                },
            }
        }
    }
}

/// True when the region shares an address with some installed entry.
pub open spec fn overlaps_any(entries: Seq<MappingEntry>, region: MemoryRegion<Virtual>) -> bool {
    exists|i: int|
        0 <= i < entries.len() && (#[trigger] entries[i]).virt_region.spec_overlaps(region)
}

/// Law: once a region is installed into a table it did not overlap, every
/// address of the region resolves to exactly that new entry — so lookups
/// report the installed physical backing and the installed attributes.
pub proof fn lemma_mapped_lookup(entries: Seq<MappingEntry>, e: MappingEntry, a: int)
    requires
        !overlaps_any(entries, e.virt_region),
        e.virt_region.contains_addr(a),
    ensures
        find_virt_entry(entries.push(e), a) == Some(entries.len() as int),
    decreases entries.len(),
{
    if entries.len() == 0 {
        assert(entries.push(e)[0] == e);
        assert(entries.push(e).drop_first() =~= Seq::<MappingEntry>::empty());
        assert(find_virt_entry(Seq::<MappingEntry>::empty(), a) is None);
    } else {
        let rest = entries.drop_first();
        assert(!entries[0].virt_region.spec_overlaps(e.virt_region));
        assert(!entries[0].virt_region.contains_addr(a));
        assert forall|j: int|
            0 <= j < rest.len() implies !(#[trigger] rest[j]).virt_region.spec_overlaps(
            e.virt_region,
        ) by {
            assert(rest[j] == entries[j + 1]);
        }
        lemma_mapped_lookup(rest, e, a);
        assert(entries.push(e)[0] == entries[0]);
        assert(entries.push(e).drop_first() =~= rest.push(e));
        assert(find_virt_entry(entries.push(e), a) == Some(rest.len() as int + 1));
    }
}

/// The kernel's translation table: owner of all installed mappings.
/// Installed virtual regions never overlap.
pub struct TranslationTable {
    pub entries: Vec<MappingEntry>,
}

impl TranslationTable {
    /// Every entry is well formed and no two virtual regions overlap.
    pub open spec fn wf(self) -> bool {
        &&& forall|i: int| 0 <= i < self.entries@.len() ==> (#[trigger] self.entries@[i]).wf()
        &&& forall|i: int, j: int|
            0 <= i < self.entries@.len() && 0 <= j < self.entries@.len() && i != j ==> !(
            #[trigger] self.entries@[i]).virt_region.spec_overlaps(
                (#[trigger] self.entries@[j]).virt_region,
            )
    }

    /// An empty table: nothing mapped.
    pub fn new() -> (r: Self)
        ensures
            r.entries@.len() == 0,
            r.wf(),
    {
        TranslationTable { entries: Vec::new() }
    }

    /// Installs page-table entries covering the virtual region, backed
    /// one page to one page by the physical region, with the given
    /// attributes. The regions must cover equally many pages; a virtual
    /// region that overlaps an installed mapping is rejected defensively,
    /// since replacing entries without an unmap is undefined.
    pub fn map_at(
        &mut self,
        virt_region: &MemoryRegion<Virtual>,
        phys_region: &MemoryRegion<Physical>,
        attr: &AttributeFields,
    ) -> (r: Result<(), &'static str>)
        requires
            old(self).wf(),
            virt_region.wf(),
            phys_region.wf(),
            virt_region.spec_num_pages() == phys_region.spec_num_pages(),
        ensures
            final(self).wf(),
            overlaps_any(old(self).entries@, *virt_region) ==> {
                &&& r matches Err(e) && e@ == "virtual region overlaps an existing mapping"@
                &&& *final(self) == *old(self)
            },
            !overlaps_any(old(self).entries@, *virt_region) ==> {
                &&& r is Ok
                &&& final(self).entries@ == old(self).entries@.push(
                    MappingEntry {
                        virt_region: *virt_region,
                        phys_region: *phys_region,
                        attr: *attr,
                    },
                )
            },
    {
        let mut i: usize = 0;
        while i < self.entries.len()
            invariant
                *self == *old(self),
                self.wf(),
                i <= self.entries@.len(),
                forall|j: int|
                    0 <= j < i ==> !(#[trigger] self.entries@[j]).virt_region.spec_overlaps(
                        *virt_region,
                    ),
            decreases self.entries@.len() - i,
        {
            if self.entries[i].virt_region.overlaps(virt_region) {
                proof {
                    assert(overlaps_any(self.entries@, *virt_region));
                }
                return Err("virtual region overlaps an existing mapping");
            }
            i = i + 1;
        }
        let entry = MappingEntry {
            virt_region: *virt_region,
            phys_region: *phys_region,
            attr: *attr,
        };
        proof {
            assert(!overlaps_any(self.entries@, *virt_region));
        }
        let ghost pre = self.entries@;
        self.entries.push(entry);
        proof {
            assert forall|i2: int, j2: int|
                0 <= i2 < self.entries@.len() && 0 <= j2 < self.entries@.len() && i2
                    != j2 implies !(#[trigger] self.entries@[i2]).virt_region.spec_overlaps(
                (#[trigger] self.entries@[j2]).virt_region,
            ) by {
                if i2 < pre.len() && j2 < pre.len() {
                    assert(self.entries@[i2] == pre[i2]);
                    assert(self.entries@[j2] == pre[j2]);
                } else if i2 == pre.len() {
                    // the new entry against an old one: overlap is symmetric
                    assert(self.entries@[j2] == pre[j2]);
                    assert(!pre[j2].virt_region.spec_overlaps(*virt_region));
                } else {
                    assert(self.entries@[i2] == pre[i2]);
                    assert(!pre[i2].virt_region.spec_overlaps(*virt_region));
                }
            }
        }
        Ok(())
    }

    /// Walks the table for the address. A mapped address translates to
    /// the backing physical region's start plus the address's offset
    /// into its mapped region; an unmapped address is an error.
    pub fn try_virt_addr_to_phys_addr(&self, virt_addr: Address<Virtual>) -> (r: Result<
        Address<Physical>,
        &'static str,
    >)
        requires
            self.wf(),
        ensures
            match find_virt_entry(self.entries@, virt_addr.value as int) {
                Some(i) => r matches Ok(pa) && pa.value == self.entries@[i].phys_region.start.value
                    + (virt_addr.value - self.entries@[i].virt_region.start.value),
                None => r matches Err(e) && e@ == "address is not mapped"@,
            },
    {
        let a = virt_addr.into_usize();
        let mut i: usize = 0;
        while i < self.entries.len()
            invariant
                self.wf(),
                i <= self.entries@.len(),
                a == virt_addr.value,
                forall|j: int|
                    0 <= j < i ==> !(#[trigger] self.entries@[j]).virt_region.contains_addr(a as int),
            decreases self.entries@.len() - i,
        {
            let entry = &self.entries[i];
            if entry.virt_region.start_addr().into_usize() <= a
                && a < entry.virt_region.end_exclusive_addr().into_usize() {
                proof {
                    assert(self.entries@[i as int].wf());
                    lemma_num_pages_exact(self.entries@[i as int].virt_region);
                    lemma_num_pages_exact(self.entries@[i as int].phys_region);
                    lemma_find_virt_entry_spec(self.entries@, a as int);
                    match find_virt_entry(self.entries@, a as int) {
                        Some(k) => {
                            assert(self.entries@[k].virt_region.contains_addr(a as int));
                            assert(k == i as int);
                        },
                        None => {
                            assert(!self.entries@[i as int].virt_region.contains_addr(a as int));
                        },
                    }
                }
                let delta = a - entry.virt_region.start_addr().into_usize();
                let pa = Address::<Physical>::new(
                    entry.phys_region.start_addr().into_usize() + delta,
                );
                return Ok(pa);
            }
            i = i + 1;
        }
        proof {
            lemma_find_virt_entry_spec(self.entries@, a as int);
        }
        Err("address is not mapped")
    }

    /// Page-granular translation: a mapped page translates to the page
    /// backing it, which is page-aligned again.
    pub fn try_virt_page_addr_to_phys_page_addr(
        &self,
        virt_page_addr: PageAddress<Virtual>,
    ) -> (r: Result<PageAddress<Physical>, &'static str>)
        requires
            self.wf(),
            virt_page_addr.wf(),
        ensures
            match find_virt_entry(self.entries@, virt_page_addr.inner.value as int) {
                Some(i) => r matches Ok(pa) && pa.wf() && pa.inner.value
                    == self.entries@[i].phys_region.start.value + (virt_page_addr.inner.value
                    - self.entries@[i].virt_region.start.value),
                None => r matches Err(e) && e@ == "address is not mapped"@,
            },
    {
        let a = virt_page_addr.into_inner();
        let r = self.try_virt_addr_to_phys_addr(a);
        match r {
            Ok(pa) => {
                proof {
                    let g = GRANULE_SIZE as int;
                    lemma_find_virt_entry_spec(self.entries@, a.value as int);
                    match find_virt_entry(self.entries@, a.value as int) {
                        Some(i) => {
                            let entry = self.entries@[i];
                            lemma_sub_mod_noop(a.value as int, entry.virt_region.start.value as int, g);
                            lemma_add_mod_noop(
                                entry.phys_region.start.value as int,
                                a.value - entry.virt_region.start.value,
                                g,
                            );
                            assert(page_aligned(pa.value as int));
                        },
                        None => {},
                    }
                }
                Ok(PageAddress::new(pa))
            },
            Err(e) => Err(e),
        }
    }

    /// Reports the attributes a mapped page was installed with; an
    /// unmapped page is an error.
    pub fn try_page_attributes(&self, virt_page_addr: PageAddress<Virtual>) -> (r: Result<
        AttributeFields,
        &'static str,
    >)
        requires
            self.wf(),
            virt_page_addr.wf(),
        ensures
            match find_virt_entry(self.entries@, virt_page_addr.inner.value as int) {
                Some(i) => r == Ok::<AttributeFields, &'static str>(self.entries@[i].attr),
                None => r matches Err(e) && e@ == "page is not mapped"@,
            },
    {
        let a = virt_page_addr.into_inner().into_usize();
        let mut i: usize = 0;
        while i < self.entries.len()
            invariant
                self.wf(),
                i <= self.entries@.len(),
                a == virt_page_addr.inner.value,
                forall|j: int|
                    0 <= j < i ==> !(#[trigger] self.entries@[j]).virt_region.contains_addr(a as int),
            decreases self.entries@.len() - i,
        {
            let entry = &self.entries[i];
            if entry.virt_region.start_addr().into_usize() <= a
                && a < entry.virt_region.end_exclusive_addr().into_usize() {
                proof {
                    lemma_find_virt_entry_spec(self.entries@, a as int);
                    match find_virt_entry(self.entries@, a as int) {
                        Some(k) => {
                            assert(self.entries@[k].virt_region.contains_addr(a as int));
                            assert(k == i as int);
                        },
                        None => {
                            assert(!self.entries@[i as int].virt_region.contains_addr(a as int));
                        },
                    }
                }
                return Ok(entry.attr);
            }
            i = i + 1;
        }
        proof {
            lemma_find_virt_entry_spec(self.entries@, a as int);
        }
        Err("page is not mapped")
    }
}

} // verus!
