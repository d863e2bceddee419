use lib::memory::{
    is_less, Addr, AddrRange, E820MemRegion, EFIMemRegion, EFIMemRegionType, MemAllocator, MemChunk, MemMap,
    MemMapError, MemRegion, MemRegionType, MAX_MEM_MAP_SIZE,
};

fn region(start: u64, end: u64, region_type: MemRegionType) -> MemRegion {
    MemRegion { range: AddrRange { start_addr: Addr(start), end_addr: Addr(end) }, region_type }
}

#[test]
fn addresses_are_made_canonical() {
    assert_eq!(Addr::new(0x1000).as_u64(), 0x1000);
    assert_eq!(Addr::new(0x8000_0000_0000).as_u64(), 0xffff_8000_0000_0000);
    assert_eq!(Addr::new_trunc(0x1_8000_0000_0000).as_u64(), 0xffff_8000_0000_0000);
}

#[test]
fn regions_from_the_firmware() {
    let e820 = E820MemRegion { start_addr: 0x1000, len: 0x2000, region_type: 1, acpi_extended_attrs: 0 };
    assert_eq!(MemRegion::from_e820(e820), region(0x1000, 0x3000, MemRegionType::Usable));
    let e820 = E820MemRegion { start_addr: 0x1000, len: 0x10, region_type: 2, acpi_extended_attrs: 0 };
    assert_eq!(MemRegion::from_e820(e820).region_type, MemRegionType::Reserved);
    let efi = EFIMemRegion {
        type_: EFIMemRegionType::Conventional,
        physical_start: Addr(0x10_0000),
        virtual_start: Addr(0),
        no_of_pages: 2,
        attribute: 0,
    };
    assert_eq!(MemRegion::from_efi(efi), region(0x10_0000, 0x10_2000, MemRegionType::Usable));
    let efi = EFIMemRegion { type_: EFIMemRegionType::LoaderCode, ..efi };
    assert_eq!(MemRegion::from_efi(efi).region_type, MemRegionType::App);
}

#[test]
fn adding_regions_keeps_the_map_sorted() {
    let mut mmap = MemMap::new();
    mmap.add_region(region(0x5000, 0x6000, MemRegionType::Usable)).unwrap();
    mmap.add_region(region(0x1000, 0x2000, MemRegionType::Reserved)).unwrap();
    mmap.add_region(region(0x1000, 0x1800, MemRegionType::Usable)).unwrap();
    assert_eq!(mmap.next_entry_index, 3);
    assert_eq!(mmap.index(0), region(0x1000, 0x1800, MemRegionType::Usable));
    assert_eq!(mmap.index(1), region(0x1000, 0x2000, MemRegionType::Reserved));
    assert_eq!(mmap.index(2), region(0x5000, 0x6000, MemRegionType::Usable));
    assert_eq!(mmap.index(3), MemRegion::empty());
}

#[test]
fn a_full_map_refuses_regions() {
    let mut mmap = MemMap::new();
    for i in 0..MAX_MEM_MAP_SIZE as u64 {
        mmap.add_region(region(i * 0x1000 + 1, i * 0x1000 + 0x800, MemRegionType::Usable)).unwrap();
    }
    assert_eq!(
        mmap.add_region(region(0x100_0000, 0x200_0000, MemRegionType::Usable)),
        Err(MemMapError::EntriesFull)
    );
}

#[test]
fn empty_regions_sort_last() {
    let empty = MemRegion::empty();
    let some = region(0x1000, 0x2000, MemRegionType::Usable);
    assert!(is_less(some, empty));
    assert!(!is_less(empty, some));
    assert!(is_less(region(0x1000, 0x1fff, MemRegionType::Usable), some));
}

#[test]
fn usable_overlaps_are_trimmed() {
    let mut mmap = MemMap::new();
    mmap.add_region(region(0x1000, 0x3000, MemRegionType::Usable)).unwrap();
    mmap.add_region(region(0x2000, 0x4000, MemRegionType::Reserved)).unwrap();
    mmap.remove_usable_region_overlaps();
    assert_eq!(mmap.index(0), region(0x1000, 0x2000, MemRegionType::Usable));
    assert_eq!(mmap.index(1), region(0x2000, 0x4000, MemRegionType::Reserved));
}

#[test]
fn from_regions_sorts_and_trims() {
    let regions = vec![region(0x2000, 0x4000, MemRegionType::Reserved), region(0x1000, 0x3000, MemRegionType::Usable)];
    let mmap = MemMap::from_regions(&regions);
    assert_eq!(mmap.next_entry_index, 2);
    assert_eq!(mmap.index(0), region(0x1000, 0x2000, MemRegionType::Usable));
    assert_eq!(mmap.index(1), region(0x2000, 0x4000, MemRegionType::Reserved));
}

#[test]
fn allocation_takes_the_start_of_a_usable_region() {
    let mut mmap = MemMap::new();
    mmap.add_region(region(0x1000, 0x1_0000, MemRegionType::Usable)).unwrap();
    let mut allocator = MemAllocator::new(&mut mmap);
    let chunk = allocator.alloc_mem(MemRegionType::Heap, 0x2000).unwrap();
    assert_eq!(chunk, MemChunk { start_addr: Addr(0x1000), size: 0x2000 });
    assert_eq!(mmap.next_entry_index, 2);
    assert_eq!(mmap.index(0), region(0x1000, 0x3000, MemRegionType::Heap));
    assert_eq!(mmap.index(1), region(0x3000, 0x1_0000, MemRegionType::Usable));
}

#[test]
fn allocation_grows_a_region_of_the_same_type() {
    let mut mmap = MemMap::new();
    mmap.add_region(region(0x1000, 0x1_0000, MemRegionType::Usable)).unwrap();
    let mut allocator = MemAllocator::new(&mut mmap);
    allocator.alloc_mem(MemRegionType::Heap, 0x2000).unwrap();
    let chunk = allocator.alloc_mem(MemRegionType::Heap, 0x3000).unwrap();
    assert_eq!(chunk.start_addr, Addr(0x1000));
    assert_eq!(mmap.next_entry_index, 2);
    assert_eq!(mmap.index(0), region(0x1000, 0x4000, MemRegionType::Heap));
    assert_eq!(mmap.index(1), region(0x4000, 0x1_0000, MemRegionType::Usable));
}

#[test]
fn allocation_without_room_fails() {
    let mut mmap = MemMap::new();
    mmap.add_region(region(0x1000, 0x2000, MemRegionType::Usable)).unwrap();
    let mut allocator = MemAllocator::new(&mut mmap);
    assert_eq!(allocator.alloc_mem(MemRegionType::Heap, 0x2000), None);
    assert_eq!(mmap.index(0), region(0x1000, 0x2000, MemRegionType::Usable));
}

#[test]
fn marking_an_allocated_region_splits_the_usable_one() {
    let mut mmap = MemMap::new();
    mmap.add_region(region(0x1000, 0x9000, MemRegionType::Usable)).unwrap();
    let mut allocator = MemAllocator::new(&mut mmap);
    allocator.mark_alloc_region(region(0x3000, 0x4000, MemRegionType::App));
    assert_eq!(mmap.next_entry_index, 3);
    assert_eq!(mmap.index(0), region(0x1000, 0x3000, MemRegionType::Usable));
    assert_eq!(mmap.index(1), region(0x3000, 0x4000, MemRegionType::App));
    assert_eq!(mmap.index(2), region(0x4000, 0x9000, MemRegionType::Usable));
}

#[test]
fn chunk_accessors() {
    let chunk = MemChunk { start_addr: Addr(0x1000), size: 0x100 };
    assert_eq!(chunk.start_addr(), Addr(0x1000));
    assert_eq!(chunk.size(), 0x100);
    assert_eq!(chunk.end_addr(), Addr(0x1100));
    assert_eq!(chunk.range(), AddrRange { start_addr: Addr(0x1000), end_addr: Addr(0x1100) });
    assert_eq!(AddrRange::new(0x1000, 0x2000).size(), 0x1000);
    assert_eq!(AddrRange::new(5, 6).size(), 1);
    assert!(!AddrRange::new(0x1000, 0x1001).is_empty());
    assert!(AddrRange::new(0x1000, 0x1000).is_empty());
}

#[test]
fn marking_is_defined_inside_a_usable_region() {
    let mut mmap = MemMap::new();
    mmap.add_region(region(0x1000, 0x9000, MemRegionType::Usable)).unwrap();
    mmap.add_region(region(0x9000, 0xa000, MemRegionType::Reserved)).unwrap();
    assert!(mmap.mark_is_defined(region(0x3000, 0x4000, MemRegionType::App)));
    assert!(!mmap.mark_is_defined(region(0x9100, 0x9200, MemRegionType::App)));
    assert!(!mmap.mark_is_defined(region(0x10_0000, 0x10_1000, MemRegionType::App)));
}

#[test]
fn allocation_is_defined_on_sound_regions() {
    let mut mmap = MemMap::new();
    mmap.add_region(region(0x1000, 0x1_0000, MemRegionType::Usable)).unwrap();
    assert!(mmap.alloc_is_defined(MemRegionType::Heap, 0x2000));
    let mut broken = MemMap::new();
    broken.add_region(region(0x5000, 0x1000, MemRegionType::Usable)).unwrap();
    assert!(!broken.alloc_is_defined(MemRegionType::Heap, 0x2000));
}

#[test]
fn regions_with_the_same_range_keep_the_order_they_came_in() {
    let mut mmap = MemMap::new();
    mmap.add_region(region(0x3000, 0x4000, MemRegionType::Usable)).unwrap();
    mmap.add_region(region(0x1000, 0x2000, MemRegionType::Reserved)).unwrap();
    mmap.add_region(region(0x1000, 0x2000, MemRegionType::Usable)).unwrap();
    mmap.add_region(region(0x1000, 0x2000, MemRegionType::App)).unwrap();
    assert_eq!(mmap.index(0), region(0x1000, 0x2000, MemRegionType::Reserved));
    assert_eq!(mmap.index(1), region(0x1000, 0x2000, MemRegionType::Usable));
    assert_eq!(mmap.index(2), region(0x1000, 0x2000, MemRegionType::App));
    assert_eq!(mmap.index(3), region(0x3000, 0x4000, MemRegionType::Usable));
}
