use x86_64::idt::{
    EntryOptions, InterruptDescriptorTable, DEFAULT_CODE_SELECTOR_BITS, IDT_ENTRY_COUNT,
    OPTIONS_MINIMAL,
};
use x86_64::{PrivilegeLevel, VirtAddr};

#[test]
fn new_table_has_256_missing_gates() {
    let idt = InterruptDescriptorTable::new();
    assert_eq!(idt.len(), 256);
    assert_eq!(IDT_ENTRY_COUNT, 256);
    let gate = idt.entry(0);
    assert!(!gate.options().present());
    assert_eq!(gate.options().bits(), OPTIONS_MINIMAL);
    assert_eq!(gate.selector(), 0);
    assert_eq!(gate.handler_addr().as_u64(), 0);
    let last = idt.entry(255);
    assert!(!last.options().present());
}

#[test]
fn set_handler_round_trips_the_address() {
    let mut idt = InterruptDescriptorTable::new();
    let handler = VirtAddr::new(0xffff_8000_1234_5678).unwrap();
    // Vector 14 is the page-fault vector.
    idt.set_handler(14, handler);
    let gate = idt.entry(14);
    assert_eq!(gate.handler_addr(), handler);
    assert!(gate.options().present());
    assert_eq!(gate.selector(), DEFAULT_CODE_SELECTOR_BITS);
    // Neighbouring vectors are untouched.
    assert!(!idt.entry(13).options().present());
    assert!(!idt.entry(15).options().present());
}

#[test]
fn set_handler_twice_keeps_the_last_write() {
    let mut idt = InterruptDescriptorTable::new();
    let first = VirtAddr::new(0x1111_1000).unwrap();
    let second = VirtAddr::new(0x2222_2000).unwrap();
    idt.set_handler(14, first);
    idt.set_handler(14, second);
    let gate = idt.entry(14);
    assert_eq!(gate.handler_addr(), second);
    assert!(gate.options().present());

    // The state equals that of a table configured once with the final value.
    let mut fresh = InterruptDescriptorTable::new();
    fresh.set_handler(14, second);
    assert_eq!(fresh.entry(14), gate);
}

#[test]
fn options_bits_are_exact() {
    let mut o = EntryOptions::minimal();
    assert_eq!(o.bits(), 0x0e00);
    assert!(!o.present());
    o.set_present(true);
    assert_eq!(o.bits(), 0x8e00);
    assert!(o.present());
    o.set_present(false);
    assert_eq!(o.bits(), 0x0e00);
    o.disable_interrupts(false);
    assert_eq!(o.bits(), 0x0f00);
    o.disable_interrupts(true);
    assert_eq!(o.bits(), 0x0e00);
    o.set_privilege_level(PrivilegeLevel::Ring3);
    assert_eq!(o.bits(), 0x6e00);
    o.set_privilege_level(PrivilegeLevel::Ring1);
    assert_eq!(o.bits(), 0x2e00);
    o.set_stack_index(0);
    assert_eq!(o.bits(), 0x2e01);
    o.set_stack_index(6);
    assert_eq!(o.bits(), 0x2e07);
}

#[test]
fn set_options_refines_a_configured_gate() {
    let mut idt = InterruptDescriptorTable::new();
    let handler = VirtAddr::new(0xcafe_b000).unwrap();
    idt.set_handler(33, handler);
    let mut options = idt.entry(33).options();
    options.set_privilege_level(PrivilegeLevel::Ring3);
    options.set_stack_index(1);
    idt.set_options(33, options);
    let gate = idt.entry(33);
    // The handler address survives the refinement.
    assert_eq!(gate.handler_addr(), handler);
    assert!(gate.options().present());
    assert_eq!(gate.options().bits(), 0x8e00 | 0x6000 | 0x0002);
}
