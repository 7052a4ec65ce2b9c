//! The mapping record ledger: run-time bookkeeping of every active
//! virtual→physical mapping. It deduplicates MMIO windows — each physical
//! device region is mapped into exactly one virtual region for the
//! lifetime of the kernel — and records grow monotonically: no unmap path
//! exists, on purpose.

use vstd::prelude::*;
use crate::address::{Address, Virtual, Physical, MemoryRegion, AttributeFields, MMIODescriptor};

verus! {

/// One active virtual→physical mapping: created exactly once when the
/// mapping is installed, never mutated, never removed.
#[derive(Clone, Copy, Debug)]
pub struct MappingRecord {
    pub name: &'static str,
    pub virt_region: MemoryRegion<Virtual>,
    pub phys_region: MemoryRegion<Physical>,
    pub attr: AttributeFields,
}

impl MappingRecord {
    /// Both regions are well formed and cover the same number of pages.
    pub open spec fn wf(self) -> bool {
        &&& self.virt_region.wf()
        &&& self.phys_region.wf()
        &&& self.virt_region.spec_num_pages() == self.phys_region.spec_num_pages()
    }
}

/// Index of the first record whose physical region covers exactly the
/// given range, if any. Lookup is by exact range equality, not overlap.
pub open spec fn find_phys_dup(records: Seq<MappingRecord>, phys: MemoryRegion<Physical>) -> Option<
    int,
>
    decreases records.len(),
{
    if records.len() == 0 {
        None
    } else if records[0].phys_region.same_range(phys) {
        Some(0int)
    } else {
        match find_phys_dup(records.drop_first(), phys) {
            Some(i) => Some(i + 1),
            None => None,
        }
    }
}

/// How many records cover exactly the given physical range.
pub open spec fn count_phys(records: Seq<MappingRecord>, phys: MemoryRegion<Physical>) -> int
    decreases records.len(),
{
    if records.len() == 0 {
        0
    } else {
        (if records[0].phys_region.same_range(phys) {
            1int
        } else {
            0int
        }) + count_phys(records.drop_first(), phys)
    }
}

/// What `find_phys_dup` returns: the first matching index, or nothing
/// when no record matches.
pub proof fn lemma_find_phys_dup_spec(records: Seq<MappingRecord>, phys: MemoryRegion<Physical>)
    ensures
        match find_phys_dup(records, phys) {
            Some(i) => {
                &&& 0 <= i < records.len()
                &&& records[i].phys_region.same_range(phys)
                &&& forall|j: int| 0 <= j < i ==> !records[j].phys_region.same_range(phys)
            },
            None => forall|j: int|
                0 <= j < records.len() ==> !records[j].phys_region.same_range(phys),
        },
    decreases records.len(),
{
    if records.len() > 0 {
        let rest = records.drop_first();
        lemma_find_phys_dup_spec(rest, phys);
        if !records[0].phys_region.same_range(phys) {
            match find_phys_dup(rest, phys) {
                Some(i) => {
                    assert(find_phys_dup(records, phys) == Some(i + 1));
                    assert(records[i + 1] == rest[i]);
                    assert forall|j: int| 0 <= j < i + 1 implies !records[j].phys_region.same_range(
                        phys,
                    ) by {
                        if j > 0 {
                            assert(records[j] == rest[j - 1]);
                        }
                    }
                },
                None => {
                    assert forall|j: int|
                        0 <= j < records.len() implies !records[j].phys_region.same_range(phys) by {
                        if j > 0 {
                            assert(records[j] == rest[j - 1]);
                        }
                    }
                },
            }
        }
    }
}

/// Law: after a fresh MMIO mapping is recorded, a later identical
/// descriptor finds exactly that record — its virtual region is reused —
/// and the ledger holds exactly one record for the physical region.
pub proof fn lemma_mmio_duplicate_reused(
    records: Seq<MappingRecord>,
    rec: MappingRecord,
    phys: MemoryRegion<Physical>,
)
    requires
        find_phys_dup(records, phys) is None,
        rec.phys_region.same_range(phys),
    ensures
        find_phys_dup(records.push(rec), phys) == Some(records.len() as int),
        count_phys(records.push(rec), phys) == 1,
    decreases records.len(),
{
    if records.len() == 0 {
        assert(records.push(rec)[0] == rec);
        assert(records.push(rec).drop_first() =~= Seq::<MappingRecord>::empty());
        assert(find_phys_dup(Seq::<MappingRecord>::empty(), phys) is None);
        assert(count_phys(Seq::<MappingRecord>::empty(), phys) == 0);
        assert(count_phys(records.push(rec), phys) == 1);
    } else {
        let rest = records.drop_first();
        assert(!records[0].phys_region.same_range(phys));
        assert(find_phys_dup(rest, phys) is None);
        lemma_mmio_duplicate_reused(rest, rec, phys);
        assert(records.push(rec)[0] == records[0]);
        assert(records.push(rec).drop_first() =~= rest.push(rec));
        assert(find_phys_dup(records.push(rec), phys) == Some(rest.len() as int + 1));
        assert(count_phys(records.push(rec), phys) == count_phys(rest.push(rec), phys));
    }
}

/// Law: descriptors whose regions differ — overlapping or not — stay
/// distinct to the ledger: recording the one leaves lookups and counts of
/// the other unchanged, so each gets a record of its own.
pub proof fn lemma_distinct_regions_not_deduplicated(
    records: Seq<MappingRecord>,
    rec: MappingRecord,
    phys: MemoryRegion<Physical>,
)
    requires
        !rec.phys_region.same_range(phys),
    ensures
        find_phys_dup(records.push(rec), phys) == find_phys_dup(records, phys),
        count_phys(records.push(rec), phys) == count_phys(records, phys),
    decreases records.len(),
{
    if records.len() == 0 {
        assert(records.push(rec)[0] == rec);
        assert(records.push(rec).drop_first() =~= Seq::<MappingRecord>::empty());
        assert(find_phys_dup(Seq::<MappingRecord>::empty(), phys) is None);
        assert(count_phys(Seq::<MappingRecord>::empty(), phys) == 0);
    } else {
        let rest = records.drop_first();
        lemma_distinct_regions_not_deduplicated(rest, rec, phys);
        assert(records.push(rec)[0] == records[0]);
        assert(records.push(rec).drop_first() =~= rest.push(rec));
        assert(count_phys(records.push(rec), phys) == (if records[0].phys_region.same_range(phys) {
            1int
        } else {
            0int
        }) + count_phys(rest.push(rec), phys));
    }
}

/// The kernel's mapping record ledger. A diagnostic and reuse aid, not
/// the source of truth for installed mappings.
pub struct MappingRecordLedger {
    pub records: Vec<MappingRecord>,
}

impl MappingRecordLedger {
    /// Every record in the ledger is well formed.
    pub open spec fn wf(self) -> bool {
        forall|i: int| 0 <= i < self.records@.len() ==> (#[trigger] self.records@[i]).wf()
    }

    /// An empty ledger, set up once at boot.
    pub fn new() -> (r: Self)
        ensures
            r.records@.len() == 0,
            r.wf(),
    {
        MappingRecordLedger { records: Vec::new() }
    }

    /// Number of records held.
    pub fn len(&self) -> (r: usize)
        ensures
            r == self.records@.len(),
    {
        self.records.len()
    }

    /// The record at an index.
    pub fn record_at(&self, i: usize) -> (r: MappingRecord)
        requires
            i < self.records@.len(),
        ensures
            r == self.records@[i as int],
    {
        self.records[i]
    }

    /// Appends a new record. Fails — non-fatally, for the caller to log —
    /// on a malformed pair of regions whose page counts differ; the
    /// mapping itself stands regardless.
    pub fn add(
        &mut self,
        name: &'static str,
        virt_region: &MemoryRegion<Virtual>,
        phys_region: &MemoryRegion<Physical>,
        attr: &AttributeFields,
    ) -> (r: Result<(), &'static str>)
        requires
            old(self).wf(),
            virt_region.wf(),
            phys_region.wf(),
        ensures
            final(self).wf(),
            virt_region.spec_num_pages() == phys_region.spec_num_pages() ==> {
                &&& r is Ok
                &&& final(self).records@ == old(self).records@.push(
                    MappingRecord {
                        name,
                        virt_region: *virt_region,
                        phys_region: *phys_region,
                        attr: *attr,
                    },
                )
            },
            virt_region.spec_num_pages() != phys_region.spec_num_pages() ==> {
                &&& r matches Err(e) && e@ == "mapping record has mismatched region sizes"@
                &&& *final(self) == *old(self)
            },
    {
        if virt_region.num_pages() != phys_region.num_pages() {
            return Err("mapping record has mismatched region sizes");
        }
        self.records.push(
            MappingRecord {
                name,
                virt_region: *virt_region,
                phys_region: *phys_region,
                attr: *attr,
            },
        );
        Ok(())
    }

    /// Scans for a record whose physical region exactly matches the
    /// descriptor's region. On a hit, hands back that record's virtual
    /// start address so the existing mapping is reused for the new
    /// driver; no new record is inserted either way.
    pub fn find_and_insert_mmio_duplicate(
        &self,
        mmio_descriptor: &MMIODescriptor,
        _name: &'static str,
    ) -> (r: Option<Address<Virtual>>)
        requires
            mmio_descriptor.wf(),
        ensures
            match find_phys_dup(self.records@, mmio_descriptor.spec_phys_region()) {
                Some(i) => r == Some(self.records@[i].virt_region.start),
                None => r is None,
            },
    {
        let phys = mmio_descriptor.phys_region();
        let ghost target = mmio_descriptor.spec_phys_region();
        let mut i: usize = 0;
        while i < self.records.len()
            invariant
                i <= self.records@.len(),
                target == mmio_descriptor.spec_phys_region(),
                phys == target,
                forall|j: int| 0 <= j < i ==> !(#[trigger] self.records@[j]).phys_region.same_range(
                    target,
                ),
            decreases self.records@.len() - i,
        {
            let rec = &self.records[i];
            if rec.phys_region.start_addr().into_usize() == phys.start_addr().into_usize()
                && rec.phys_region.end_exclusive_addr().into_usize()
                    == phys.end_exclusive_addr().into_usize() {
                let out = rec.virt_region.start_addr();
                proof {
                    assert(*rec == self.records@[i as int]);
                    assert(self.records@[i as int].phys_region.same_range(target));
                    lemma_find_phys_dup_spec(self.records@, target);
                    match find_phys_dup(self.records@, target) {
                        Some(k) => {
                            // the found index matches, so the scan cannot have
                            // passed it; the scan found i first, so k is i
                            assert(self.records@[k].phys_region.same_range(target));
                            assert(k == i as int);
                            assert(out == self.records@[k].virt_region.start);
                        },
                        None => {
                            assert(!self.records@[i as int].phys_region.same_range(target));
                        },
                    }
                }
                return Some(out);
            }
            i = i + 1;
        }
        proof {
            lemma_find_phys_dup_spec(self.records@, target);
        }
        None
    }
}

} // verus!
