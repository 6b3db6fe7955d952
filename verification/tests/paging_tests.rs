use x86_64::paging::{
    AddressNotAligned, Page, PageSize, PhysFrame, Size1GiB, Size2MiB, Size4KiB,
};
use x86_64::{PhysAddr, VirtAddr};

#[test]
fn page_size_constants() {
    assert_eq!(Size4KiB::size(), 4096);
    assert_eq!(Size2MiB::size(), 2 * 1024 * 1024);
    assert_eq!(Size1GiB::size(), 1024 * 1024 * 1024);
    assert!(!Size4KiB::is_huge());
    assert!(Size2MiB::is_huge());
    assert!(Size1GiB::is_huge());
}

#[test]
fn page_containing_address_rounds_down() {
    let a = VirtAddr::new(0x1234).unwrap();
    let p: Page<Size4KiB> = Page::containing_address(a);
    assert_eq!(p.start_address().as_u64(), 0x1000);
    assert_eq!(p.size(), 4096);

    let big: Page<Size2MiB> = Page::containing_address(a);
    assert_eq!(big.start_address().as_u64(), 0);

    let high = VirtAddr::new(0xffff_8000_0012_3456).unwrap();
    let hp: Page<Size4KiB> = Page::containing_address(high);
    assert_eq!(hp.start_address().as_u64(), 0xffff_8000_0012_3000);

    let gp: Page<Size1GiB> = Page::containing_address(VirtAddr::new(0x7fff_ffff_ffff).unwrap());
    assert_eq!(gp.start_address().as_u64(), 0x7fff_c000_0000);
}

#[test]
fn page_from_start_address_checks_alignment() {
    let aligned = VirtAddr::new(0x2000).unwrap();
    let p: Page<Size4KiB> = Page::from_start_address(aligned).unwrap();
    assert_eq!(p.start_address(), aligned);

    let unaligned = VirtAddr::new(0x2001).unwrap();
    let r: Result<Page<Size4KiB>, AddressNotAligned> = Page::from_start_address(unaligned);
    assert_eq!(r, Err(AddressNotAligned));

    // Aligned for 4 KiB but not for 2 MiB.
    let r2: Result<Page<Size2MiB>, AddressNotAligned> = Page::from_start_address(aligned);
    assert_eq!(r2, Err(AddressNotAligned));
}

#[test]
fn page_range_walks_pages_in_order() {
    let start: Page<Size4KiB> =
        Page::from_start_address(VirtAddr::new(0x1000).unwrap()).unwrap();
    let end: Page<Size4KiB> = Page::from_start_address(VirtAddr::new(0x4000).unwrap()).unwrap();
    let mut range = Page::range(start, end);
    let restart = range;
    assert!(!range.is_empty());
    assert_eq!(range.len(), 3);
    assert_eq!(range.next().unwrap().start_address().as_u64(), 0x1000);
    assert_eq!(range.next().unwrap().start_address().as_u64(), 0x2000);
    assert_eq!(range.next().unwrap().start_address().as_u64(), 0x3000);
    assert_eq!(range.next(), None);
    assert!(range.is_empty());

    // The copy taken before iteration starts over.
    let mut again = restart;
    assert_eq!(again.next().unwrap().start_address().as_u64(), 0x1000);
}

#[test]
fn page_range_empty_when_start_not_below_end() {
    let a: Page<Size4KiB> = Page::from_start_address(VirtAddr::new(0x5000).unwrap()).unwrap();
    let b: Page<Size4KiB> = Page::from_start_address(VirtAddr::new(0x5000).unwrap()).unwrap();
    let mut range = Page::range(a, b);
    assert!(range.is_empty());
    assert_eq!(range.next(), None);
    let c: Page<Size4KiB> = Page::from_start_address(VirtAddr::new(0x1000).unwrap()).unwrap();
    let mut backwards = Page::range(a, c);
    assert_eq!(backwards.next(), None);
}

#[test]
fn frame_containing_address_rounds_down() {
    let a = PhysAddr::new(0xdead_beef).unwrap();
    let f: PhysFrame<Size4KiB> = PhysFrame::containing_address(a);
    assert_eq!(f.start_address().as_u64(), 0xdead_b000);
    assert_eq!(f.size(), 4096);
    let f2: PhysFrame<Size2MiB> = PhysFrame::containing_address(a);
    assert_eq!(f2.start_address().as_u64(), 0xdea0_0000);
}

#[test]
fn frame_from_start_address_checks_alignment() {
    let aligned = PhysAddr::new(0x20_0000).unwrap();
    let f: PhysFrame<Size2MiB> = PhysFrame::from_start_address(aligned).unwrap();
    assert_eq!(f.start_address(), aligned);
    let r: Result<PhysFrame<Size2MiB>, AddressNotAligned> =
        PhysFrame::from_start_address(PhysAddr::new(0x10_0000).unwrap());
    assert_eq!(r, Err(AddressNotAligned));
}

#[test]
fn frame_range_walks_frames_in_order() {
    let start: PhysFrame<Size4KiB> =
        PhysFrame::from_start_address(PhysAddr::new(0).unwrap()).unwrap();
    let end: PhysFrame<Size4KiB> =
        PhysFrame::from_start_address(PhysAddr::new(0x2000).unwrap()).unwrap();
    let mut range = PhysFrame::range(start, end);
    assert_eq!(range.len(), 2);
    assert_eq!(range.next().unwrap().start_address().as_u64(), 0);
    assert_eq!(range.len(), 1);
    assert_eq!(range.next().unwrap().start_address().as_u64(), 0x1000);
    assert_eq!(range.next(), None);
}

#[test]
fn pages_order_by_start_address() {
    let p1: Page<Size4KiB> = Page::from_start_address(VirtAddr::new(0x1000).unwrap()).unwrap();
    let p2: Page<Size4KiB> = Page::from_start_address(VirtAddr::new(0x2000).unwrap()).unwrap();
    assert!(p1 < p2);
    assert_eq!(p1, p1.clone());
}
