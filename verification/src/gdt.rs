//! The global descriptor table: an append-only, bounded table of segment
//! descriptors, and the selectors that name its slots.
//!
//! Slot 0 is the mandatory null descriptor and can never be written by
//! callers. A standard (code or data) descriptor occupies one 8-byte slot; a
//! long-mode system descriptor occupies two consecutive slots. Loading the
//! finished table into the hardware register is left to a
//! privileged-instruction layer.

use vstd::prelude::*;

use crate::PrivilegeLevel;

verus! {

/// Descriptor flag: the CPU has accessed the segment.
pub const FLAG_ACCESSED: u64 = 1u64 << 40;

/// Descriptor flag: writable (data) or readable (code).
pub const FLAG_WRITABLE: u64 = 1u64 << 41;

/// Descriptor flag: conforming code segment.
pub const FLAG_CONFORMING: u64 = 1u64 << 42;

/// Descriptor flag: code segment (executable).
pub const FLAG_EXECUTABLE: u64 = 1u64 << 43;

/// Descriptor flag: user segment (code or data), as opposed to a system
/// segment.
pub const FLAG_USER_SEGMENT: u64 = 1u64 << 44;

/// Descriptor flag: descriptor privilege level 3 (both DPL bits set).
pub const FLAG_DPL_RING_3: u64 = 3u64 << 45;

/// Descriptor flag: the segment is present.
pub const FLAG_PRESENT: u64 = 1u64 << 47;

/// Descriptor flag: 64-bit code segment.
pub const FLAG_LONG_MODE: u64 = 1u64 << 53;

/// Descriptor flag: default operation size of 32 bits.
pub const FLAG_DEFAULT_SIZE: u64 = 1u64 << 54;

/// Descriptor flag: limit is scaled by 4 KiB.
pub const FLAG_GRANULARITY: u64 = 1u64 << 55;

/// Descriptor field: bits 0..=15 of the segment limit, all set.
pub const FLAG_LIMIT_0_15: u64 = 0xffff;

/// Descriptor field: bits 16..=19 of the segment limit, all set.
pub const FLAG_LIMIT_16_19: u64 = 0xf << 48;

/// The flags common to every full-address-space segment descriptor.
pub const FLAGS_COMMON: u64 = FLAG_USER_SEGMENT | FLAG_PRESENT | FLAG_WRITABLE | FLAG_ACCESSED
    | FLAG_LIMIT_0_15 | FLAG_LIMIT_16_19 | FLAG_GRANULARITY;

/// A 64-bit kernel code segment descriptor.
pub const FLAGS_KERNEL_CODE64: u64 = FLAGS_COMMON | FLAG_EXECUTABLE | FLAG_LONG_MODE;

/// A kernel data segment descriptor.
pub const FLAGS_KERNEL_DATA: u64 = FLAGS_COMMON | FLAG_DEFAULT_SIZE;

/// A 64-bit ring-3 code segment descriptor.
pub const FLAGS_USER_CODE64: u64 = FLAGS_KERNEL_CODE64 | FLAG_DPL_RING_3;

/// A ring-3 data segment descriptor.
pub const FLAGS_USER_DATA: u64 = FLAGS_KERNEL_DATA | FLAG_DPL_RING_3;

/// The number of 8-byte slots in the table: the mandatory null slot plus
/// eight usable slots (the classic layout).
pub const GDT_SLOT_COUNT: usize = 9;

/// An index-plus-privilege value naming a descriptor-table entry, as loaded
/// into a segment register: bits 15..=3 hold the table index, bits 1..=0 the
/// requested privilege level (bit 2, the local-table indicator, stays 0
/// here).
#[derive(Debug, Clone, Copy, PartialEq, Eq, Structural, PartialOrd, Ord, Hash)]
pub struct SegmentSelector {
    bits: u16,
}

impl View for SegmentSelector {
    type V = u16;

    closed spec fn view(&self) -> u16 {
        self.bits
    }
}

impl SegmentSelector {
    /// Builds the selector for table slot `index` with requested privilege
    /// `rpl`. The index must fit the selector's 13-bit index field.
    pub fn new(index: u16, rpl: PrivilegeLevel) -> (r: SegmentSelector)
        requires
            index < 0x2000,
        ensures
            r@ == index * 8 + rpl.spec_value(),
    {
        let rpl_bits = rpl.as_u16();
        proof {
            let i = index;
            let v = rpl_bits;
            assert(i < 0x2000 && v <= 3 ==> ((i << 3) | v) == i * 8 + v) by (bit_vector);
        }
        SegmentSelector { bits: (index << 3) | rpl_bits }
    }

    /// The raw 16-bit selector value.
    pub fn as_u16(self) -> (r: u16)
        ensures
            r == self@,
    {
        self.bits
    }

    /// The table index this selector names.
    pub fn index(self) -> (r: u16)
        ensures
            r == self@ / 8,
    {
        proof {
            let b = self.bits;
            assert((b >> 3) == b / 8) by (bit_vector);
        }
        self.bits >> 3
    }

    /// The requested privilege level in the selector's low two bits.
    pub fn rpl(self) -> (r: PrivilegeLevel)
        ensures
            r.spec_value() == self@ % 4,
    {
        proof {
            let b = self.bits;
            assert((b & 3) == b % 4 && b % 4 <= 3) by (bit_vector);
        }
        PrivilegeLevel::from_u16(self.bits & 3)
    }
}

/// A segment descriptor to be placed in the table: either a standard 8-byte
/// code/data descriptor, or a 16-byte long-mode system descriptor stored as
/// two consecutive slots (low half first).
#[derive(Debug, Clone, Copy, PartialEq, Eq, Structural)]
pub enum Descriptor {
    /// A standard user segment (code or data), occupying one slot.
    UserSegment(u64),
    /// A long-mode system segment (e.g. a task-state segment), occupying two
    /// slots: low half, then high half.
    SystemSegment(u64, u64),
}

/// The descriptor privilege level encoded in bits 45..=46 of a descriptor's
/// low half.
pub open spec fn spec_descriptor_dpl(d: Descriptor) -> u16 {
    match d {
        Descriptor::UserSegment(v) => ((v >> 45) & 3) as u16,
        Descriptor::SystemSegment(low, _) => ((low >> 45) & 3) as u16,
    }
}

/// The number of table slots the descriptor occupies.
pub open spec fn spec_descriptor_slots(d: Descriptor) -> int {
    match d {
        Descriptor::UserSegment(_) => 1,
        Descriptor::SystemSegment(_, _) => 2,
    }
}

/// The table contents after appending the descriptor's slot or slots.
pub open spec fn spec_descriptor_appended(s: Seq<u64>, d: Descriptor) -> Seq<u64> {
    match d {
        Descriptor::UserSegment(v) => s.push(v),
        Descriptor::SystemSegment(low, high) => s.push(low).push(high),
    }
}

impl Descriptor {
    /// A 64-bit kernel-mode (ring 0) code segment covering the whole address
    /// space.
    pub fn kernel_code_segment() -> (r: Descriptor)
        ensures
            r == Descriptor::UserSegment(FLAGS_KERNEL_CODE64),
    {
        Descriptor::UserSegment(FLAGS_KERNEL_CODE64)
    }

    /// A kernel-mode (ring 0) data segment covering the whole address space.
    pub fn kernel_data_segment() -> (r: Descriptor)
        ensures
            r == Descriptor::UserSegment(FLAGS_KERNEL_DATA),
    {
        Descriptor::UserSegment(FLAGS_KERNEL_DATA)
    }

    /// A 64-bit ring-3 code segment covering the whole address space.
    pub fn user_code_segment() -> (r: Descriptor)
        ensures
            r == Descriptor::UserSegment(FLAGS_USER_CODE64),
    {
        Descriptor::UserSegment(FLAGS_USER_CODE64)
    }

    /// A ring-3 data segment covering the whole address space.
    pub fn user_data_segment() -> (r: Descriptor)
        ensures
            r == Descriptor::UserSegment(FLAGS_USER_DATA),
    {
        Descriptor::UserSegment(FLAGS_USER_DATA)
    }
}

/// The error returned by [`GlobalDescriptorTable::add_entry`] when the
/// descriptor does not fit in the table's remaining slots. The table is
/// fixed-capacity by design: descriptor tables are activated once and never
/// grow.
#[derive(Debug, Clone, Copy, PartialEq, Eq, Structural)]
pub struct Full;

/// The global descriptor table: slot 0 is the permanent null descriptor,
/// and descriptors are appended after it, never removed. Its view is the
/// sequence of occupied 8-byte slots.
#[derive(Debug)]
pub struct GlobalDescriptorTable {
    table: [u64; 9],
    next_free: usize,
}

impl View for GlobalDescriptorTable {
    type V = Seq<u64>;

    closed spec fn view(&self) -> Seq<u64> {
        self.table@.take(self.next_free as int)
    }
}

impl GlobalDescriptorTable {
    /// The null slot is always present and zero, and the table never
    /// outgrows its fixed capacity.
    #[verifier::type_invariant]
    spec fn wf(self) -> bool {
        &&& 1 <= self.next_free <= GDT_SLOT_COUNT
        &&& self.table@[0] == 0
    }

    /// An empty table: only the mandatory null descriptor is present.
    pub fn new() -> (r: GlobalDescriptorTable)
        ensures
            r@ == seq![0u64],
    {
        let table: [u64; 9] = [0, 0, 0, 0, 0, 0, 0, 0, 0];
        let r = GlobalDescriptorTable { table, next_free: 1 };
        proof {
            assert(r@ =~= seq![0u64]);
        }
        r
    }

    /// The number of occupied slots, the null descriptor included.
    pub fn len(&self) -> (r: usize)
        ensures
            r == self@.len(),
    {
        proof {
            use_type_invariant(self);
        }
        self.next_free
    }

    /// The raw slot at `index`, for handing the table's contents to the
    /// instruction layer.
    pub fn slot(&self, index: usize) -> (r: u64)
        requires
            index < self@.len(),
        ensures
            r == self@[index as int],
    {
        proof {
            use_type_invariant(self);
        }
        self.table[index]
    }

    /// Appends a descriptor at the next free slot (two consecutive slots for
    /// a system descriptor) and returns the selector naming it, with the
    /// descriptor's own privilege level as the requested privilege. Fails
    /// with `Full`, leaving the table unchanged, exactly when the descriptor
    /// does not fit in the remaining capacity.
    pub fn add_entry(&mut self, entry: Descriptor) -> (r: Result<SegmentSelector, Full>)
        ensures
            old(self)@.len() + spec_descriptor_slots(entry) <= GDT_SLOT_COUNT ==> {
                &&& r matches Ok(sel) && sel@ == old(self)@.len() * 8 + spec_descriptor_dpl(entry)
                &&& final(self)@ == spec_descriptor_appended(old(self)@, entry)
            },
            old(self)@.len() + spec_descriptor_slots(entry) > GDT_SLOT_COUNT ==> r == Err::<
                SegmentSelector,
                Full,
            >(Full) && *final(self) == *old(self),
    {
        proof {
            use_type_invariant(&*self);
        }
        let index = self.next_free;
        match entry {
            Descriptor::UserSegment(value) => {
                if index + 1 <= GDT_SLOT_COUNT {
                    self.table[index] = value;
                    self.next_free = index + 1;
                    proof {
                        let v = value;
                        assert(((v >> 45) & 3) <= 3) by (bit_vector);
                        assert(self@ =~= spec_descriptor_appended(old(self)@, entry));
                    }
                    let dpl = PrivilegeLevel::from_u16(((value >> 45) & 3) as u16);
                    Ok(SegmentSelector::new(index as u16, dpl))
                } else {
                    Err(Full)
                }
            },
            Descriptor::SystemSegment(low, high) => {
                if index + 2 <= GDT_SLOT_COUNT {
                    self.table[index] = low;
                    self.table[index + 1] = high;
                    self.next_free = index + 2;
                    proof {
                        let v = low;
                        assert(((v >> 45) & 3) <= 3) by (bit_vector);
                        assert(self@ =~= spec_descriptor_appended(old(self)@, entry));
                    }
                    let dpl = PrivilegeLevel::from_u16(((low >> 45) & 3) as u16);
                    Ok(SegmentSelector::new(index as u16, dpl))
                } else {
                    Err(Full)
                }
            },
        }
    }
}

} // verus!
