use x86_64::gdt::GlobalDescriptorTable;
use x86_64::{PrivilegeLevel, Singleton};

#[test]
fn first_request_gets_the_value() {
    let mut s = Singleton::new(7i32);
    let r = s.try_get_mut().unwrap();
    assert_eq!(*r, 7);
}

#[test]
fn second_request_gets_nothing() {
    let mut s = Singleton::new(7i32);
    assert!(s.try_get_mut().is_some());
    assert_eq!(s.try_get_mut(), None);
    assert_eq!(s.try_get_mut(), None);
}

#[test]
fn winner_can_mutate_through_the_reference() {
    let mut s = Singleton::new(1u64);
    let r = s.try_get_mut().unwrap();
    *r = 99;
    assert_eq!(s.try_get_mut(), None);
}

#[test]
fn exactly_one_of_many_requests_succeeds() {
    let mut s = Singleton::new(0u8);
    let mut successes: u32 = 0;
    for _ in 0..10 {
        if s.try_get_mut().is_some() {
            successes += 1;
        }
    }
    assert_eq!(successes, 1);
}

#[test]
fn singleton_publishes_a_descriptor_table() {
    let mut published = Singleton::new(GlobalDescriptorTable::new());
    let gdt = published.try_get_mut().unwrap();
    assert_eq!(gdt.len(), 1);
    assert!(published.try_get_mut().is_none());
}

#[test]
fn privilege_level_numeric_round_trip() {
    assert_eq!(PrivilegeLevel::from_u16(0), PrivilegeLevel::Ring0);
    assert_eq!(PrivilegeLevel::from_u16(1), PrivilegeLevel::Ring1);
    assert_eq!(PrivilegeLevel::from_u16(2), PrivilegeLevel::Ring2);
    assert_eq!(PrivilegeLevel::from_u16(3), PrivilegeLevel::Ring3);
    assert_eq!(PrivilegeLevel::Ring3.as_u16(), 3);
    assert_eq!(PrivilegeLevel::Ring0.as_u16(), 0);
}
