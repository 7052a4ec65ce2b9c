//! The VMM facade: the kernel-wide entry points that sequence the MMU
//! driver, the translation table, the MMIO virtual-address allocator and
//! the mapping record ledger. Boot enables the MMU once, then initializes
//! the MMIO allocator once; after that every driver maps its registers
//! through `kernel_map_mmio`, which reuses an identical physical window
//! already mapped for another driver.

use vstd::prelude::*;
use crate::address::{
    Address, Physical, Virtual, PageAddress, MemoryRegion, AttributeFields, MemAttributes,
    AccessPermissions, MMIODescriptor, GRANULE_SIZE, lemma_aligned_headroom,
};
use crate::mapping_record::{MappingRecord, MappingRecordLedger, find_phys_dup, lemma_find_phys_dup_spec};
use crate::page_alloc::MmioVaAllocator;
use crate::translation_table::{
    MMU, MMUEnableError, MemoryManagementUnit, MappingEntry, TranslationTable, overlaps_any,
    find_virt_entry,
};

verus! {

/// Start of the board's reserved virtual window for remapped MMIO.
pub const MMIO_REMAP_REGION_START: usize = 0xF000_0000;

/// Size of the reserved MMIO remap window, in bytes.
pub const MMIO_REMAP_REGION_SIZE: usize = 0x0080_0000;

/// The reserved virtual window out of which MMIO mappings are carved,
/// supplied by the board's memory map.
pub fn virt_mmio_remap_region() -> (r: MemoryRegion<Virtual>)
    ensures
        r.start.value == MMIO_REMAP_REGION_START,
        r.end.value == MMIO_REMAP_REGION_START + MMIO_REMAP_REGION_SIZE,
        r.wf(),
{
    MemoryRegion::new(
        Address::new(MMIO_REMAP_REGION_START),
        Address::new(MMIO_REMAP_REGION_START + MMIO_REMAP_REGION_SIZE),
    )
}

/// The attributes every remapped MMIO window is installed with:
/// device memory, read-write, never executable.
pub open spec fn spec_mmio_attributes() -> AttributeFields {
    AttributeFields {
        mem_attributes: MemAttributes::Device,
        acc_perms: AccessPermissions::ReadWrite,
        execute_never: true,
    }
}

/// The kernel's memory-management context: exactly one instance,
/// created at boot, owning the MMU driver, the translation table, the
/// MMIO virtual-address allocator and the mapping record ledger.
pub struct KernelVmm {
    pub mmu: MemoryManagementUnit,
    pub translation_tables: TranslationTable,
    pub mmio_va_allocator: MmioVaAllocator,
    pub mapping_records: MappingRecordLedger,
}

impl KernelVmm {
    /// All owned components well formed.
    pub open spec fn wf(self) -> bool {
        &&& self.translation_tables.wf()
        &&& self.mmio_va_allocator.wf()
        &&& self.mapping_records.wf()
    }

    /// The context as boot finds it: MMU off, nothing mapped, allocator
    /// not yet bound, ledger empty.
    pub fn new() -> (r: Self)
        ensures
            r.wf(),
            !r.mmu.spec_is_enabled(),
            !r.mmio_va_allocator.initialized,
            r.translation_tables.entries@.len() == 0,
            r.mapping_records.records@.len() == 0,
    {
        KernelVmm {
            mmu: MemoryManagementUnit::new(),
            translation_tables: TranslationTable::new(),
            mmio_va_allocator: MmioVaAllocator::new(),
            mapping_records: MappingRecordLedger::new(),
        }
    }
}

/// The kernel's very first VMM action: programs the hardware with the
/// physical table base and turns on translation and caching. The second
/// call fails with `AlreadyEnabled`.
pub fn enable_mmu_and_caching(vmm: &mut KernelVmm, phys_tables_base_addr: Address<Physical>) -> (r:
    Result<(), MMUEnableError>)
    requires
        old(vmm).wf(),
    ensures
        final(vmm).wf(),
        final(vmm).translation_tables == old(vmm).translation_tables,
        final(vmm).mmio_va_allocator == old(vmm).mmio_va_allocator,
        final(vmm).mapping_records == old(vmm).mapping_records,
        old(vmm).mmu.spec_is_enabled() ==> (r matches Err(MMUEnableError::AlreadyEnabled)
            && final(vmm).mmu == old(vmm).mmu),
        !old(vmm).mmu.spec_is_enabled() ==> r is Ok && final(vmm).mmu.spec_is_enabled(),
{
    vmm.mmu.enable_mmu_and_caching(phys_tables_base_addr)
}

/// Binds the MMIO virtual-address allocator to the board's reserved
/// remap window. A repeated call leaves the allocator untouched.
pub fn kernel_init_mmio_va_allocator(vmm: &mut KernelVmm)
    requires
        old(vmm).wf(),
    ensures
        final(vmm).wf(),
        final(vmm).mmu == old(vmm).mmu,
        final(vmm).translation_tables == old(vmm).translation_tables,
        final(vmm).mapping_records == old(vmm).mapping_records,
        !old(vmm).mmio_va_allocator.initialized ==> {
            &&& final(vmm).mmio_va_allocator.initialized
            &&& final(vmm).mmio_va_allocator.reserved_region.start.value
                == MMIO_REMAP_REGION_START
            &&& final(vmm).mmio_va_allocator.reserved_region.end.value == MMIO_REMAP_REGION_START
                + MMIO_REMAP_REGION_SIZE
            &&& final(vmm).mmio_va_allocator.next_free.value == MMIO_REMAP_REGION_START
        },
        old(vmm).mmio_va_allocator.initialized ==> final(vmm).mmio_va_allocator == old(vmm).mmio_va_allocator,
{
    let region = virt_mmio_remap_region();
    let _ = vmm.mmio_va_allocator.initialize(region);
}

/// Runs once, directly after the MMU is enabled: sets up the MMIO
/// virtual-address allocator.
pub fn post_enable_init(vmm: &mut KernelVmm)
    requires
        old(vmm).wf(),
    ensures
        final(vmm).wf(),
        final(vmm).mmu == old(vmm).mmu,
        final(vmm).translation_tables == old(vmm).translation_tables,
        final(vmm).mapping_records == old(vmm).mapping_records,
        !old(vmm).mmio_va_allocator.initialized ==> {
            &&& final(vmm).mmio_va_allocator.initialized
            &&& final(vmm).mmio_va_allocator.reserved_region.start.value
                == MMIO_REMAP_REGION_START
            &&& final(vmm).mmio_va_allocator.reserved_region.end.value == MMIO_REMAP_REGION_START
                + MMIO_REMAP_REGION_SIZE
            &&& final(vmm).mmio_va_allocator.next_free.value == MMIO_REMAP_REGION_START
        },
        old(vmm).mmio_va_allocator.initialized ==> final(vmm).mmio_va_allocator == old(vmm).mmio_va_allocator,
{
    kernel_init_mmio_va_allocator(vmm);
}

/// Records an installed mapping in the ledger. A ledger failure is
/// non-fatal and swallowed: the ledger is a diagnostic and reuse aid,
/// and the mapping already stands.
pub fn kernel_add_mapping_record(
    vmm: &mut KernelVmm,
    name: &'static str,
    virt_region: &MemoryRegion<Virtual>,
    phys_region: &MemoryRegion<Physical>,
    attr: &AttributeFields,
)
    requires
        old(vmm).wf(),
        virt_region.wf(),
        phys_region.wf(),
    ensures
        final(vmm).wf(),
        final(vmm).mmu == old(vmm).mmu,
        final(vmm).translation_tables == old(vmm).translation_tables,
        final(vmm).mmio_va_allocator == old(vmm).mmio_va_allocator,
        virt_region.spec_num_pages() == phys_region.spec_num_pages() ==> final(vmm).mapping_records.records@ == old(vmm).mapping_records.records@.push(
            MappingRecord {
                name,
                virt_region: *virt_region,
                phys_region: *phys_region,
                attr: *attr,
            },
        ),
        virt_region.spec_num_pages() != phys_region.spec_num_pages() ==> final(vmm).mapping_records == old(vmm).mapping_records,
{
    let _ = vmm.mapping_records.add(name, virt_region, phys_region, attr);
}

/// Installs a fixed mapping — page-table write first, ledger record
/// second — with no duplicate check. The regions must cover equally many
/// pages; a virtual region overlapping an installed mapping is rejected.
pub fn kernel_map_at_unchecked(
    vmm: &mut KernelVmm,
    name: &'static str,
    virt_region: &MemoryRegion<Virtual>,
    phys_region: &MemoryRegion<Physical>,
    attr: &AttributeFields,
) -> (r: Result<(), &'static str>)
    requires
        old(vmm).wf(),
        virt_region.wf(),
        phys_region.wf(),
        virt_region.spec_num_pages() == phys_region.spec_num_pages(),
    ensures
        final(vmm).wf(),
        final(vmm).mmu == old(vmm).mmu,
        final(vmm).mmio_va_allocator == old(vmm).mmio_va_allocator,
        overlaps_any(old(vmm).translation_tables.entries@, *virt_region) ==> {
            &&& r matches Err(e) && e@ == "virtual region overlaps an existing mapping"@
            &&& final(vmm).translation_tables == old(vmm).translation_tables
            &&& final(vmm).mapping_records == old(vmm).mapping_records
        },
        !overlaps_any(old(vmm).translation_tables.entries@, *virt_region) ==> {
            &&& r is Ok
            &&& final(vmm).translation_tables.entries@ == old(vmm).translation_tables.entries@.push(
                MappingEntry {
                    virt_region: *virt_region,
                    phys_region: *phys_region,
                    attr: *attr,
                },
            )
            &&& final(vmm).mapping_records.records@ == old(vmm).mapping_records.records@.push(
                MappingRecord {
                    name,
                    virt_region: *virt_region,
                    phys_region: *phys_region,
                    attr: *attr,
                },
            )
        },
{
    match vmm.translation_tables.map_at(virt_region, phys_region, attr) {
        Ok(()) => {
            kernel_add_mapping_record(vmm, name, virt_region, phys_region, attr);
            Ok(())
        },
        Err(e) => Err(e),
    }
}

/// Maps a device's MMIO window into the kernel's MMIO remap region and
/// returns the virtual address of the device's registers — the window's
/// offset into its first page included. An identical physical window
/// already mapped for another driver is reused, not mapped again; a
/// zero-length window is rejected before it reaches the allocator.
pub fn kernel_map_mmio(
    vmm: &mut KernelVmm,
    name: &'static str,
    mmio_descriptor: &MMIODescriptor,
) -> (r: Result<Address<Virtual>, &'static str>)
    requires
        old(vmm).wf(),
        mmio_descriptor.wf(),
    ensures
        final(vmm).wf(),
        final(vmm).mmu == old(vmm).mmu,
        // an identical window is reused: same virtual address, no new state
        find_phys_dup(
            old(vmm).mapping_records.records@,
            mmio_descriptor.spec_phys_region(),
        ) matches Some(i) ==> (r matches Ok(va) && va.value == old(vmm).mapping_records.records@[i].virt_region.start.value + mmio_descriptor.start.value as int
            % (GRANULE_SIZE as int) && *final(vmm) == *old(vmm)),
        // a zero-length window asks for zero pages and is rejected
        find_phys_dup(old(vmm).mapping_records.records@, mmio_descriptor.spec_phys_region()) is None
            && mmio_descriptor.spec_phys_region().spec_num_pages() == 0 ==> (r matches Err(e) && e@
            == "Requested 0 pages"@ && *final(vmm) == *old(vmm)),
        // allocator failures pass through, changing nothing
        find_phys_dup(old(vmm).mapping_records.records@, mmio_descriptor.spec_phys_region()) is None
            && mmio_descriptor.spec_phys_region().spec_num_pages() > 0 && !old(vmm).mmio_va_allocator.initialized ==> (r matches Err(e) && e@
            == "MMIO VA allocator not initialized"@ && *final(vmm) == *old(vmm)),
        find_phys_dup(old(vmm).mapping_records.records@, mmio_descriptor.spec_phys_region()) is None
            && mmio_descriptor.spec_phys_region().spec_num_pages() > 0 && old(vmm).mmio_va_allocator.initialized && !old(vmm).mmio_va_allocator.can_alloc(
            mmio_descriptor.spec_phys_region().spec_num_pages(),
        ) ==> (r matches Err(e) && e@ == "out of MMIO virtual memory"@ && *final(vmm) == *old(vmm)),
        // the fresh window is allocated, installed and recorded
        find_phys_dup(old(vmm).mapping_records.records@, mmio_descriptor.spec_phys_region()) is None
            && mmio_descriptor.spec_phys_region().spec_num_pages() > 0 && old(vmm).mmio_va_allocator.can_alloc(mmio_descriptor.spec_phys_region().spec_num_pages())
            ==> {
            let fresh = old(vmm).mmio_va_allocator.spec_alloc_region(
                mmio_descriptor.spec_phys_region().spec_num_pages(),
            );
            &&& final(vmm).mmio_va_allocator == old(vmm).mmio_va_allocator.spec_after_alloc(
                mmio_descriptor.spec_phys_region().spec_num_pages(),
            )
            &&& overlaps_any(old(vmm).translation_tables.entries@, fresh) ==> (r matches Err(e)
                && e@ == "virtual region overlaps an existing mapping"@ && final(vmm).translation_tables == old(vmm).translation_tables && final(vmm).mapping_records
                == old(vmm).mapping_records)
            &&& !overlaps_any(old(vmm).translation_tables.entries@, fresh) ==> {
                &&& r matches Ok(va) && va.value == fresh.start.value
                    + mmio_descriptor.start.value as int % (GRANULE_SIZE as int)
                &&& final(vmm).translation_tables.entries@ == old(vmm).translation_tables.entries@.push(
                    MappingEntry {
                        virt_region: fresh,
                        phys_region: mmio_descriptor.spec_phys_region(),
                        attr: spec_mmio_attributes(),
                    },
                )
                &&& final(vmm).mapping_records.records@ == old(vmm).mapping_records.records@.push(
                    MappingRecord {
                        name,
                        virt_region: fresh,
                        phys_region: mmio_descriptor.spec_phys_region(),
                        attr: spec_mmio_attributes(),
                    },
                )
            }
        },
{
    let phys_region = mmio_descriptor.phys_region();
    let offset_into_start_page = mmio_descriptor.start_addr().offset_into_page();

    // Check if an identical region has been mapped for another driver; if
    // so, reuse it.
    match vmm.mapping_records.find_and_insert_mmio_duplicate(mmio_descriptor, name) {
        Some(addr) => {
            proof {
                lemma_find_phys_dup_spec(
                    vmm.mapping_records.records@,
                    mmio_descriptor.spec_phys_region(),
                );
                match find_phys_dup(
                    vmm.mapping_records.records@,
                    mmio_descriptor.spec_phys_region(),
                ) {
                    Some(i) => {
                        assert(vmm.mapping_records.records@[i].wf());
                        lemma_aligned_headroom(
                            vmm.mapping_records.records@[i].virt_region.start.value,
                        );
                    },
                    None => {},
                }
            }
            Ok(addr.add_offset(offset_into_start_page))
        },
        // Otherwise, allocate a new region and map it.
        None => {
            let num_pages = phys_region.num_pages();
            if num_pages == 0 {
                return Err("Requested 0 pages");
            }
            let virt_region = match vmm.mmio_va_allocator.alloc_pages(num_pages) {
                Ok(region) => region,
                Err(e) => {
                    return Err(e);
                },
            };
            let attr = AttributeFields {
                mem_attributes: MemAttributes::Device,
                acc_perms: AccessPermissions::ReadWrite,
                execute_never: true,
            };
            match kernel_map_at_unchecked(vmm, name, &virt_region, &phys_region, &attr) {
                Ok(()) => {
                    proof {
                        lemma_aligned_headroom(virt_region.start.value);
                    }
                    Ok(virt_region.start_addr().add_offset(offset_into_start_page))
                },
                Err(e) => Err(e),
            }
        },
    }
}

/// Translates a kernel virtual address through the installed tables.
pub fn try_kernel_virt_addr_to_phys_addr(
    vmm: &KernelVmm,
    virt_addr: Address<Virtual>,
) -> (r: Result<Address<Physical>, &'static str>)
    requires
        vmm.wf(),
    ensures
        match find_virt_entry(vmm.translation_tables.entries@, virt_addr.value as int) {
            Some(i) => r matches Ok(pa) && pa.value
                == vmm.translation_tables.entries@[i].phys_region.start.value + (virt_addr.value
                - vmm.translation_tables.entries@[i].virt_region.start.value),
            None => r matches Err(e) && e@ == "address is not mapped"@,
        },
{
    vmm.translation_tables.try_virt_addr_to_phys_addr(virt_addr)
}

/// Translates a kernel virtual page to the physical page backing it.
pub fn try_kernel_virt_page_addr_to_phys_page_addr(
    vmm: &KernelVmm,
    virt_page_addr: PageAddress<Virtual>,
) -> (r: Result<PageAddress<Physical>, &'static str>)
    requires
        vmm.wf(),
        virt_page_addr.wf(),
    ensures
        match find_virt_entry(vmm.translation_tables.entries@, virt_page_addr.inner.value as int) {
            Some(i) => r matches Ok(pa) && pa.wf() && pa.inner.value
                == vmm.translation_tables.entries@[i].phys_region.start.value + (
                virt_page_addr.inner.value
                - vmm.translation_tables.entries@[i].virt_region.start.value),
            None => r matches Err(e) && e@ == "address is not mapped"@,
        },
{
    vmm.translation_tables.try_virt_page_addr_to_phys_page_addr(virt_page_addr)
}

/// Reports the attributes a mapped kernel page was installed with.
pub fn try_kernel_page_attributes(
    vmm: &KernelVmm,
    virt_page_addr: PageAddress<Virtual>,
) -> (r: Result<AttributeFields, &'static str>)
    requires
        vmm.wf(),
        virt_page_addr.wf(),
    ensures
        match find_virt_entry(vmm.translation_tables.entries@, virt_page_addr.inner.value as int) {
            Some(i) => r == Ok::<AttributeFields, &'static str>(
                vmm.translation_tables.entries@[i].attr,
            ),
            None => r matches Err(e) && e@ == "page is not mapped"@,
        },
{
    vmm.translation_tables.try_page_attributes(virt_page_addr)
}

} // verus!
