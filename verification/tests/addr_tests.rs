use x86_64::addr::AddressError;
use x86_64::{align_down, align_up, PhysAddr, VirtAddr};

#[test]
fn virt_new_accepts_canonical_low_half() {
    let a = VirtAddr::new(0).unwrap();
    assert_eq!(a.as_u64(), 0);
    let b = VirtAddr::new(0x0000_7fff_ffff_ffff).unwrap();
    assert_eq!(b.as_u64(), 0x0000_7fff_ffff_ffff);
    let c = VirtAddr::new(0xdead_beef).unwrap();
    assert_eq!(c.as_u64(), 0xdead_beef);
}

#[test]
fn virt_new_accepts_canonical_high_half() {
    let a = VirtAddr::new(0xffff_8000_0000_0000).unwrap();
    assert_eq!(a.as_u64(), 0xffff_8000_0000_0000);
    let b = VirtAddr::new(0xffff_ffff_ffff_ffff).unwrap();
    assert_eq!(b.as_u64(), 0xffff_ffff_ffff_ffff);
}

#[test]
fn virt_new_rejects_non_canonical() {
    assert_eq!(
        VirtAddr::new(0x0000_8000_0000_0000),
        Err(AddressError::NonCanonical(0x0000_8000_0000_0000))
    );
    assert_eq!(
        VirtAddr::new(0xdead_beef_0000_0000),
        Err(AddressError::NonCanonical(0xdead_beef_0000_0000))
    );
    assert_eq!(
        VirtAddr::new(0x8000_0000_0000_0000),
        Err(AddressError::NonCanonical(0x8000_0000_0000_0000))
    );
}

#[test]
fn virt_new_truncate_forces_canonical() {
    // Bit 47 set: the upper 16 bits are filled with ones.
    let a = VirtAddr::new_truncate(0x0000_8000_0000_0000);
    assert_eq!(a.as_u64(), 0xffff_8000_0000_0000);
    // Bit 47 clear: the upper 16 bits are cleared.
    let b = VirtAddr::new_truncate(0x1234_0000_dead_beef);
    assert_eq!(b.as_u64(), 0x0000_0000_dead_beef);
    // Already canonical values are unchanged.
    let c = VirtAddr::new_truncate(0xffff_ffff_ffff_ffff);
    assert_eq!(c.as_u64(), 0xffff_ffff_ffff_ffff);
    let d = VirtAddr::new_truncate(0x0000_7fff_0000_0001);
    assert_eq!(d.as_u64(), 0x0000_7fff_0000_0001);
}

#[test]
fn virt_wrapping_arithmetic() {
    let a = VirtAddr::new(0x0000_7fff_ffff_ffff).unwrap();
    // Crossing the canonical gap sign-extends the 48-bit sum.
    assert_eq!(a.wrapping_add(1).as_u64(), 0xffff_8000_0000_0000);
    let b = VirtAddr::new(8).unwrap();
    assert_eq!(b.wrapping_add(8).as_u64(), 16);
    assert_eq!(b.wrapping_sub(8).as_u64(), 0);
    // Wrap below zero: modulo 2^64, then canonicalized.
    assert_eq!(b.wrapping_sub(9).as_u64(), 0xffff_ffff_ffff_ffff);
}

#[test]
fn free_align_down_exact() {
    assert_eq!(align_down(0x1234, 0x1000), 0x1000);
    assert_eq!(align_down(0x1000, 0x1000), 0x1000);
    assert_eq!(align_down(0xfff, 0x1000), 0);
    assert_eq!(align_down(37, 1), 37);
    assert_eq!(align_down(u64::MAX, 2), u64::MAX - 1);
}

#[test]
fn free_align_up_exact() {
    assert_eq!(align_up(0x1234, 0x1000), 0x2000);
    assert_eq!(align_up(0x1000, 0x1000), 0x1000);
    assert_eq!(align_up(0, 0x1000), 0);
    assert_eq!(align_up(1, 0x1000), 0x1000);
    assert_eq!(align_up(37, 1), 37);
}

#[test]
fn free_align_up_wraps_at_boundary() {
    // No multiple of 0x1000 at or above this value fits in 64 bits.
    assert_eq!(align_up(u64::MAX - 5, 0x1000), 0);
    // The largest multiple itself is representable.
    assert_eq!(align_up(u64::MAX - 0xfff, 0x1000), u64::MAX - 0xfff);
}

#[test]
fn virt_align_methods() {
    let a = VirtAddr::new(0x1234).unwrap();
    assert_eq!(a.align_down(0x1000).as_u64(), 0x1000);
    assert_eq!(a.align_up(0x1000).as_u64(), 0x2000);
    assert!(!a.is_aligned(0x1000));
    assert!(VirtAddr::new(0x2000).unwrap().is_aligned(0x1000));
    assert!(a.is_aligned(4));
}

#[test]
fn phys_new_checks_width() {
    let a = PhysAddr::new(0x000f_ffff_ffff_ffff).unwrap();
    assert_eq!(a.as_u64(), 0x000f_ffff_ffff_ffff);
    assert_eq!(
        PhysAddr::new(0x0010_0000_0000_0000),
        Err(AddressError::OutOfRange(0x0010_0000_0000_0000))
    );
    assert_eq!(PhysAddr::new_truncate(0x0010_0000_0000_0005).as_u64(), 5);
    assert_eq!(PhysAddr::new_truncate(42).as_u64(), 42);
}

#[test]
fn phys_arithmetic_and_alignment() {
    let a = PhysAddr::new(0x1234).unwrap();
    assert_eq!(a.wrapping_add(0x10).as_u64(), 0x1244);
    assert_eq!(a.wrapping_sub(0x34).as_u64(), 0x1200);
    assert_eq!(a.align_down(0x1000).as_u64(), 0x1000);
    assert_eq!(a.align_up(0x1000).as_u64(), 0x2000);
    assert!(!a.is_aligned(0x1000));
    assert!(a.is_aligned(4));
    // Addition wraps modulo 2^52.
    let top = PhysAddr::new(0x000f_ffff_ffff_ffff).unwrap();
    assert_eq!(top.wrapping_add(1).as_u64(), 0);
}
