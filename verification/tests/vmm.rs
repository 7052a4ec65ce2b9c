use neutron_kernel::address::{
    Address, Physical, Virtual, PageAddress, MemoryRegion, MMIODescriptor, AttributeFields,
    MemAttributes, AccessPermissions, GRANULE_SIZE,
};
use neutron_kernel::granule::{TranslationGranule, AddressSpace};
use neutron_kernel::page_alloc::MmioVaAllocator;
use neutron_kernel::translation_table::{MMU, MMUEnableError, MemoryManagementUnit};
use neutron_kernel::mmu::{
    KernelVmm, MMIO_REMAP_REGION_START, enable_mmu_and_caching, post_enable_init,
    kernel_map_mmio, kernel_map_at_unchecked, kernel_add_mapping_record,
    try_kernel_virt_addr_to_phys_addr, try_kernel_virt_page_addr_to_phys_page_addr,
    try_kernel_page_attributes, virt_mmio_remap_region,
};

fn vregion(start: usize, end: usize) -> MemoryRegion<Virtual> {
    MemoryRegion::new(Address::new(start), Address::new(end))
}

fn pregion(start: usize, end: usize) -> MemoryRegion<Physical> {
    MemoryRegion::new(Address::new(start), Address::new(end))
}

fn normal_rw() -> AttributeFields {
    AttributeFields {
        mem_attributes: MemAttributes::CacheableDRAM,
        acc_perms: AccessPermissions::ReadWrite,
        execute_never: false,
    }
}

fn booted_vmm() -> KernelVmm {
    let mut vmm = KernelVmm::new();
    assert!(enable_mmu_and_caching(&mut vmm, Address::new(0x8_0000)).is_ok());
    post_enable_init(&mut vmm);
    vmm
}

#[test]
fn granule_mask_and_shift() {
    assert_eq!(TranslationGranule::<4096>::size_checked(), 4096);
    assert_eq!(TranslationGranule::<4096>::mask(), 4095);
    assert_eq!(TranslationGranule::<4096>::shift(), 12);
    assert_eq!(TranslationGranule::<65536>::size_checked(), 65536);
    assert_eq!(TranslationGranule::<65536>::mask(), 65535);
    assert_eq!(TranslationGranule::<65536>::shift(), 16);
    assert_eq!(1usize << TranslationGranule::<65536>::shift(), 65536);
}

#[test]
fn address_space_constants() {
    assert_eq!(AddressSpace::<0x1_0000_0000>::size_checked(), 0x1_0000_0000);
    assert_eq!(AddressSpace::<0x1_0000_0000>::size_shift(), 32);
}

#[test]
fn region_pages_cover_bytes() {
    let r = vregion(0x1000, 0x5000);
    assert_eq!(r.num_pages(), 4);
    assert_eq!(r.num_pages() * GRANULE_SIZE, 0x5000 - 0x1000);
    let empty = vregion(0x1000, 0x1000);
    assert_eq!(empty.num_pages(), 0);
}

#[test]
fn descriptor_region_rounds_to_pages() {
    let d = MMIODescriptor::new(Address::new(0xfe20_0000), 0xb4);
    assert_eq!(d.start_addr().into_usize(), 0xfe20_0000);
    assert_eq!(d.size(), 0xb4);
    let r = d.phys_region();
    assert_eq!(r.start_addr().into_usize(), 0xfe20_0000);
    assert_eq!(r.end_exclusive_addr().into_usize(), 0xfe20_1000);
    let unaligned = MMIODescriptor::new(Address::new(0xfe20_0010), 0x1000);
    let r2 = unaligned.phys_region();
    assert_eq!(r2.start_addr().into_usize(), 0xfe20_0000);
    assert_eq!(r2.end_exclusive_addr().into_usize(), 0xfe20_2000);
    assert_eq!(r2.num_pages(), 2);
}

#[test]
fn mmu_enable_is_one_way() {
    let mut vmm = KernelVmm::new();
    let first = enable_mmu_and_caching(&mut vmm, Address::new(0x8_0000));
    assert!(first.is_ok());
    let second = enable_mmu_and_caching(&mut vmm, Address::new(0x8_0000));
    assert!(matches!(second, Err(MMUEnableError::AlreadyEnabled)));
    assert_eq!(second.unwrap_err().message(), "MMU is already enabled");
}

#[test]
fn mmu_driver_flag() {
    let mut unit = MemoryManagementUnit::new();
    assert!(!unit.is_enabled());
    assert!(unit.enable_mmu_and_caching(Address::new(0x8_0000)).is_ok());
    assert!(unit.is_enabled());
}

#[test]
fn mmio_identical_window_is_reused() {
    let mut vmm = booted_vmm();
    let d = MMIODescriptor::new(Address::new(0xfe20_0000), 0xb4);
    let va1 = kernel_map_mmio(&mut vmm, "BCM GPIO", &d).unwrap();
    let va2 = kernel_map_mmio(&mut vmm, "BCM GPIO (second user)", &d).unwrap();
    assert_eq!(va1.into_usize(), MMIO_REMAP_REGION_START);
    assert_eq!(va1.into_usize(), va2.into_usize());
    assert_eq!(vmm.mapping_records.len(), 1);
}

#[test]
fn mmio_overlapping_windows_stay_distinct() {
    let mut vmm = booted_vmm();
    let wide = MMIODescriptor::new(Address::new(0xfe20_0000), 0x2000);
    let narrow = MMIODescriptor::new(Address::new(0xfe20_0000), 0x1000);
    let va1 = kernel_map_mmio(&mut vmm, "wide window", &wide).unwrap();
    let va2 = kernel_map_mmio(&mut vmm, "narrow window", &narrow).unwrap();
    assert_eq!(va1.into_usize(), MMIO_REMAP_REGION_START);
    assert_eq!(va2.into_usize(), MMIO_REMAP_REGION_START + 2 * GRANULE_SIZE);
    assert_ne!(va1.into_usize(), va2.into_usize());
    assert_eq!(vmm.mapping_records.len(), 2);
}

#[test]
fn mmio_zero_length_window_is_rejected() {
    let mut vmm = booted_vmm();
    let d = MMIODescriptor::new(Address::new(0xfe20_0000), 0);
    let r = kernel_map_mmio(&mut vmm, "empty window", &d);
    assert_eq!(r.unwrap_err(), "Requested 0 pages");
    assert_eq!(vmm.mapping_records.len(), 0);
}

#[test]
fn mmio_keeps_offset_into_first_page() {
    let mut vmm = booted_vmm();
    let d = MMIODescriptor::new(Address::new(0xfe20_0010), 0x48);
    let va = kernel_map_mmio(&mut vmm, "offset window", &d).unwrap();
    assert_eq!(va.into_usize(), MMIO_REMAP_REGION_START + 0x10);
}

#[test]
fn mmio_before_allocator_init_fails() {
    let mut vmm = KernelVmm::new();
    assert!(enable_mmu_and_caching(&mut vmm, Address::new(0x8_0000)).is_ok());
    let d = MMIODescriptor::new(Address::new(0xfe20_0000), 0xb4);
    let r = kernel_map_mmio(&mut vmm, "too early", &d);
    assert_eq!(r.unwrap_err(), "MMIO VA allocator not initialized");
}

#[test]
fn allocator_sequential_allocs_are_adjacent() {
    let mut va = MmioVaAllocator::new();
    assert!(va.initialize(virt_mmio_remap_region()).is_ok());
    let r1 = va.alloc_pages(2).unwrap();
    let r2 = va.alloc_pages(3).unwrap();
    assert_eq!(r1.start_addr().into_usize(), MMIO_REMAP_REGION_START);
    assert_eq!(r1.num_pages(), 2);
    assert_eq!(r2.num_pages(), 3);
    assert_eq!(r1.end_exclusive_addr().into_usize(), r2.start_addr().into_usize());
    assert_eq!(r1.start_addr().into_usize() % GRANULE_SIZE, 0);
    assert_eq!(r2.start_addr().into_usize() % GRANULE_SIZE, 0);
    assert!(!r1.overlaps(&r2));
}

#[test]
fn allocator_rejects_second_initialize() {
    let mut va = MmioVaAllocator::new();
    assert!(va.initialize(virt_mmio_remap_region()).is_ok());
    let again = va.initialize(virt_mmio_remap_region());
    assert_eq!(again.unwrap_err(), "MMIO VA allocator already initialized");
}

#[test]
fn allocator_alloc_needs_initialize() {
    let mut va = MmioVaAllocator::new();
    assert_eq!(va.alloc_pages(1).unwrap_err(), "MMIO VA allocator not initialized");
}

#[test]
fn allocator_window_exhaustion() {
    let mut va = MmioVaAllocator::new();
    assert!(va.initialize(vregion(0x10_0000, 0x10_2000)).is_ok());
    assert_eq!(va.alloc_pages(3).unwrap_err(), "out of MMIO virtual memory");
    assert!(va.alloc_pages(2).is_ok());
    assert_eq!(va.alloc_pages(1).unwrap_err(), "out of MMIO virtual memory");
}

#[test]
fn translation_follows_in_page_delta() {
    let mut vmm = booted_vmm();
    let attr = normal_rw();
    let virt = vregion(0x2000, 0x4000);
    let phys = pregion(0x8000, 0xa000);
    assert!(kernel_map_at_unchecked(&mut vmm, "kernel image", &virt, &phys, &attr).is_ok());
    let pa = try_kernel_virt_addr_to_phys_addr(&vmm, Address::new(0x2010)).unwrap();
    assert_eq!(pa.into_usize(), 0x8010);
    let pa2 = try_kernel_virt_addr_to_phys_addr(&vmm, Address::new(0x3fff)).unwrap();
    assert_eq!(pa2.into_usize(), 0x9fff);
    let unmapped = try_kernel_virt_addr_to_phys_addr(&vmm, Address::new(0x9000_0000));
    assert_eq!(unmapped.unwrap_err(), "address is not mapped");
}

#[test]
fn page_translation_is_page_aligned() {
    let mut vmm = booted_vmm();
    let attr = normal_rw();
    let virt = vregion(0x2000, 0x4000);
    let phys = pregion(0x8000, 0xa000);
    assert!(kernel_map_at_unchecked(&mut vmm, "kernel image", &virt, &phys, &attr).is_ok());
    let page = PageAddress::new(Address::new(0x3000));
    let ppage = try_kernel_virt_page_addr_to_phys_page_addr(&vmm, page).unwrap();
    assert_eq!(ppage.into_inner().into_usize(), 0x9000);
    let missing = PageAddress::new(Address::new(0x7000));
    let r = try_kernel_virt_page_addr_to_phys_page_addr(&vmm, missing);
    assert_eq!(r.unwrap_err(), "address is not mapped");
}

#[test]
fn attributes_round_trip() {
    let mut vmm = booted_vmm();
    let attr = AttributeFields {
        mem_attributes: MemAttributes::CacheableDRAM,
        acc_perms: AccessPermissions::ReadOnly,
        execute_never: true,
    };
    let virt = vregion(0x2000, 0x3000);
    let phys = pregion(0x8000, 0x9000);
    assert!(kernel_map_at_unchecked(&mut vmm, "rodata", &virt, &phys, &attr).is_ok());
    let got = try_kernel_page_attributes(&vmm, PageAddress::new(Address::new(0x2000))).unwrap();
    assert_eq!(got, attr);
    let d = MMIODescriptor::new(Address::new(0xfe20_0000), 0xb4);
    let va = kernel_map_mmio(&mut vmm, "BCM GPIO", &d).unwrap();
    let mmio_attr =
        try_kernel_page_attributes(&vmm, PageAddress::new(Address::new(va.into_usize()))).unwrap();
    assert_eq!(mmio_attr.mem_attributes, MemAttributes::Device);
    assert_eq!(mmio_attr.acc_perms, AccessPermissions::ReadWrite);
    assert!(mmio_attr.execute_never);
    let missing = try_kernel_page_attributes(&vmm, PageAddress::new(Address::new(0x7000)));
    assert_eq!(missing.unwrap_err(), "page is not mapped");
}

#[test]
fn overlapping_map_at_is_rejected() {
    let mut vmm = booted_vmm();
    let attr = normal_rw();
    let virt = vregion(0x2000, 0x4000);
    let phys = pregion(0x8000, 0xa000);
    assert!(kernel_map_at_unchecked(&mut vmm, "first", &virt, &phys, &attr).is_ok());
    let clash = vregion(0x3000, 0x5000);
    let phys2 = pregion(0xc000, 0xe000);
    let r = kernel_map_at_unchecked(&mut vmm, "second", &clash, &phys2, &attr);
    assert_eq!(r.unwrap_err(), "virtual region overlaps an existing mapping");
    assert_eq!(vmm.mapping_records.len(), 1);
}

#[test]
fn malformed_ledger_record_is_swallowed() {
    let mut vmm = booted_vmm();
    let virt = vregion(0x2000, 0x4000);
    let phys = pregion(0x8000, 0x9000);
    kernel_add_mapping_record(&mut vmm, "mismatched", &virt, &phys, &normal_rw());
    assert_eq!(vmm.mapping_records.len(), 0);
    let mut ledger = neutron_kernel::mapping_record::MappingRecordLedger::new();
    let r = ledger.add("mismatched", &virt, &phys, &normal_rw());
    assert_eq!(r.unwrap_err(), "mapping record has mismatched region sizes");
}

#[test]
fn address_helpers() {
    let a: Address<Virtual> = Address::new(0x1234);
    assert_eq!(a.into_usize(), 0x1234);
    assert_eq!(a.offset_into_page(), 0x234);
    assert_eq!(a.align_down_page().into_usize(), 0x1000);
    assert_eq!(a.add_offset(0x10).into_usize(), 0x1244);
}
