use rust_boy::rust_boy::{MemoryAllocator, MemoryRegion};

#[test]
fn test_vram_allocation() {
    let mut alloc = MemoryAllocator::new(MemoryRegion::Vram);

    // Allocate 16 bytes (one tile)
    let addr1 = alloc.allocate(16).unwrap();
    assert_eq!(addr1, 0x8000);

    let addr2 = alloc.allocate(16).unwrap();
    assert_eq!(addr2, 0x8010);

    assert_eq!(alloc.bytes_allocated(), 32);
}

#[test]
fn test_wram_allocation() {
    let mut alloc = MemoryAllocator::new(MemoryRegion::Wram);

    let addr = alloc.allocate(1).unwrap();
    assert_eq!(addr, 0xC000);

    let addr2 = alloc.allocate(2).unwrap();
    assert_eq!(addr2, 0xC001);
}

#[test]
fn test_format_address() {
    assert_eq!(MemoryAllocator::format_address(0x8000), "$8000");
    assert_eq!(MemoryAllocator::format_address(0x9000), "$9000");
}

#[test]
fn format_address_pads_and_uses_upper_case() {
    assert_eq!(MemoryAllocator::format_address(0), "$0000");
    assert_eq!(MemoryAllocator::format_address(0x00AF), "$00AF");
    assert_eq!(MemoryAllocator::format_address(0xFFFF), "$FFFF");
    assert_eq!(MemoryAllocator::format_address(0xC0DE), "$C0DE");
}

#[test]
fn regions_have_their_bounds() {
    assert_eq!(MemoryRegion::Vram.start_address(), 0x8000);
    assert_eq!(MemoryRegion::Vram.end_address(), 0x9800);
    assert_eq!(MemoryRegion::Wram.start_address(), 0xC000);
    assert_eq!(MemoryRegion::Wram.end_address(), 0xE000);
    assert_eq!(MemoryRegion::Oam.start_address(), 0xFE00);
    assert_eq!(MemoryRegion::Oam.end_address(), 0xFEA0);
}

#[test]
fn an_exhausted_region_refuses() {
    let mut alloc = MemoryAllocator::new(MemoryRegion::Oam);
    assert_eq!(alloc.bytes_remaining(), 160);
    assert_eq!(alloc.allocate(160), Some(0xFE00));
    assert_eq!(alloc.bytes_remaining(), 0);
    assert_eq!(alloc.allocate(1), None);
    assert_eq!(alloc.current_address(), 0xFEA0);
    assert_eq!(alloc.allocate(0), Some(0xFEA0));
}

#[test]
fn a_request_beyond_the_region_changes_nothing() {
    let mut alloc = MemoryAllocator::new(MemoryRegion::Vram);
    assert_eq!(alloc.allocate(0x1801), None);
    assert_eq!(alloc.current_address(), 0x8000);
    assert_eq!(alloc.allocate(0xFFFF), None);
    assert_eq!(alloc.bytes_allocated(), 0);
    assert_eq!(alloc.allocate(0x1800), Some(0x8000));
    assert_eq!(alloc.bytes_allocated(), 0x1800);
}
