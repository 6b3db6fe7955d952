//! The interrupt descriptor table: exactly 256 gate descriptors, one per
//! interrupt or exception vector, each 16 bytes in the 64-bit gate format
//! (handler address split into low 16 / middle 16 / high 32 bit fields, a
//! code-segment selector, an options word, and a zeroed reserved field).
//!
//! Loading the finished table into the hardware register is left to a
//! privileged-instruction layer.

use vstd::prelude::*;

use crate::addr::{canonicalize, VirtAddr};
use crate::PrivilegeLevel;

verus! {

/// The number of gate descriptors in the table: one per 8-bit vector.
pub const IDT_ENTRY_COUNT: usize = 256;

/// The options word of a fresh gate: gate-type bits 9..=11 set (a 64-bit
/// interrupt gate), everything else — present bit included — clear.
pub const OPTIONS_MINIMAL: u16 = 0x0e00;

/// The present bit of a gate's options word.
pub const OPTIONS_PRESENT_BIT: u16 = 0x8000;

/// The interrupts-enabled bit of a gate's options word: set for a trap gate
/// (interrupts stay enabled on entry), clear for an interrupt gate.
pub const OPTIONS_INTERRUPTS_BIT: u16 = 0x0100;

/// The two privilege-level bits (13..=14) of a gate's options word.
pub const OPTIONS_DPL_BITS: u16 = 0x6000;

/// The three interrupt-stack-table index bits (0..=2) of a gate's options
/// word.
pub const OPTIONS_STACK_BITS: u16 = 0x0007;

/// The selector installed by `set_handler`: the conventional kernel code
/// segment in the second descriptor-table slot, ring 0.
pub const DEFAULT_CODE_SELECTOR_BITS: u16 = 8;

/// A gate's type/attribute word. Freshly built gates start minimal (not
/// present, ring 0, interrupts disabled on entry, no stack switching) and are
/// refined bit by bit.
#[derive(Debug, Clone, Copy, PartialEq, Eq, Structural)]
pub struct EntryOptions {
    bits: u16,
}

impl View for EntryOptions {
    type V = u16;

    closed spec fn view(&self) -> u16 {
        self.bits
    }
}

impl EntryOptions {
    /// A minimal options word: only the mandatory gate-type bits are set, so
    /// the entry is not present, targets ring 0, disables interrupts on entry
    /// and switches no stack.
    pub fn minimal() -> (r: EntryOptions)
        ensures
            r@ == OPTIONS_MINIMAL,
    {
        EntryOptions { bits: OPTIONS_MINIMAL }
    }

    /// The raw options word.
    pub fn bits(self) -> (r: u16)
        ensures
            r == self@,
    {
        self.bits
    }

    /// Whether the entry is marked present.
    pub fn present(self) -> (r: bool)
        ensures
            r <==> self@ & OPTIONS_PRESENT_BIT != 0,
    {
        self.bits & OPTIONS_PRESENT_BIT != 0
    }

    /// Sets or clears the present bit.
    pub fn set_present(&mut self, present: bool)
        ensures
            final(self)@ == if present {
                old(self)@ | OPTIONS_PRESENT_BIT
            } else {
                old(self)@ & !OPTIONS_PRESENT_BIT
            },
    {
        if present {
            self.bits = self.bits | OPTIONS_PRESENT_BIT;
        } else {
            self.bits = self.bits & !OPTIONS_PRESENT_BIT;
        }
    }

    /// Chooses whether interrupts stay enabled when the handler is entered:
    /// disabling them yields an interrupt gate, enabling them a trap
    /// gate.
    pub fn disable_interrupts(&mut self, disable: bool)
        ensures
            final(self)@ == if disable {
                old(self)@ & !OPTIONS_INTERRUPTS_BIT
            } else {
                old(self)@ | OPTIONS_INTERRUPTS_BIT
            },
    {
        if disable {
            self.bits = self.bits & !OPTIONS_INTERRUPTS_BIT;
        } else {
            self.bits = self.bits | OPTIONS_INTERRUPTS_BIT;
        }
    }

    /// Sets the minimal privilege level from which the entry may be invoked
    /// by software, in the options word's two privilege bits.
    pub fn set_privilege_level(&mut self, dpl: PrivilegeLevel)
        ensures
            final(self)@ == (old(self)@ & !OPTIONS_DPL_BITS) | (dpl.spec_value() as u16) << 13,
    {
        let value = dpl.as_u16();
        self.bits = (self.bits & !OPTIONS_DPL_BITS) | (value << 13);
    }

    /// Selects interrupt-stack-table slot `index` (0..=6) for a stack switch
    /// on entry; the hardware field stores the index plus one, zero meaning
    /// no switch.
    pub fn set_stack_index(&mut self, index: u16)
        requires
            index < 7,
        ensures
            final(self)@ == (old(self)@ & !OPTIONS_STACK_BITS) | (index + 1) as u16,
    {
        self.bits = (self.bits & !OPTIONS_STACK_BITS) | (index + 1);
    }
}

/// The ghost image of one gate descriptor: its fields as plain integers, in
/// the hardware's field order.
pub ghost struct GateView {
    /// Bits 0..=15 of the handler address.
    pub pointer_low: u16,
    /// The code-segment selector loaded when the entry's vector fires.
    pub selector: u16,
    /// The type/attribute word.
    pub options: u16,
    /// Bits 16..=31 of the handler address.
    pub pointer_middle: u16,
    /// Bits 32..=63 of the handler address.
    pub pointer_high: u32,
    /// Reserved; always zero.
    pub reserved: u32,
}

/// The image of a vector that has never been configured: no handler,
/// null selector, minimal options, not present.
pub open spec fn spec_missing_gate() -> GateView {
    GateView {
        pointer_low: 0,
        selector: 0,
        options: OPTIONS_MINIMAL,
        pointer_middle: 0,
        pointer_high: 0,
        reserved: 0,
    }
}

/// The image `set_handler` installs for handler address `addr`: the
/// address split across the three pointer fields, the default kernel code
/// selector, and minimal options with the present bit set (ring 0).
pub open spec fn spec_handler_gate(addr: u64) -> GateView {
    GateView {
        pointer_low: (addr & 0xffff) as u16,
        selector: DEFAULT_CODE_SELECTOR_BITS,
        options: OPTIONS_MINIMAL | OPTIONS_PRESENT_BIT,
        pointer_middle: ((addr >> 16) & 0xffff) as u16,
        pointer_high: ((addr >> 32) & 0xffff_ffff) as u32,
        reserved: 0,
    }
}

/// The handler address stored in a gate, reassembled from its three fields.
pub open spec fn spec_gate_handler_addr(g: GateView) -> u64 {
    (g.pointer_low as u64) | ((g.pointer_middle as u64) << 16) | ((g.pointer_high as u64) << 32)
}

/// Splitting an address across the three gate fields loses nothing: the
/// fields cover all 64 bits, so reassembling them restores the address
/// exactly.
pub proof fn lemma_gate_addr_round_trip(addr: u64)
    ensures
        spec_gate_handler_addr(spec_handler_gate(addr)) == addr,
{
    assert(((addr & 0xffff) as u16 as u64) | ((((addr >> 16) & 0xffff) as u16 as u64) << 16) | ((((
    addr >> 32) & 0xffff_ffff) as u32 as u64) << 32) == addr) by (bit_vector);
}

/// A gate installed by `set_handler` is marked present.
pub proof fn lemma_handler_gate_present(addr: u64)
    ensures
        spec_handler_gate(addr).options & OPTIONS_PRESENT_BIT != 0,
{
    assert((0x0e00u16 | 0x8000u16) & 0x8000u16 != 0) by (bit_vector);
}

/// Configuring the same vector twice leaves exactly the state of the second
/// configuration: the first write is not observable afterwards.
pub proof fn lemma_set_twice_last_write_wins(s: Seq<GateView>, i: int, g1: GateView, g2: GateView)
    requires
        0 <= i < s.len(),
    ensures
        s.update(i, g1).update(i, g2) == s.update(i, g2),
{
    assert(s.update(i, g1).update(i, g2) =~= s.update(i, g2));
}

/// One gate descriptor of the table.
#[derive(Debug, Clone, Copy, PartialEq, Eq, Structural)]
pub struct Entry {
    pointer_low: u16,
    selector: u16,
    options: EntryOptions,
    pointer_middle: u16,
    pointer_high: u32,
    reserved: u32,
}

impl View for Entry {
    type V = GateView;

    closed spec fn view(&self) -> GateView {
        GateView {
            pointer_low: self.pointer_low,
            selector: self.selector,
            options: self.options@,
            pointer_middle: self.pointer_middle,
            pointer_high: self.pointer_high,
            reserved: self.reserved,
        }
    }
}

impl Entry {
    /// A gate for a vector that has no handler: all address fields zero,
    /// null selector, minimal options (not present).
    pub fn missing() -> (r: Entry)
        ensures
            r@ == spec_missing_gate(),
    {
        Entry {
            pointer_low: 0,
            selector: 0,
            options: EntryOptions::minimal(),
            pointer_middle: 0,
            pointer_high: 0,
            reserved: 0,
        }
    }

    /// The handler address stored in this gate, reassembled from its three
    /// fields and forced into canonical form.
    pub fn handler_addr(&self) -> (r: VirtAddr)
        ensures
            r@ == canonicalize(spec_gate_handler_addr(self@)),
    {
        let addr = (self.pointer_low as u64) | ((self.pointer_middle as u64) << 16) | ((
        self.pointer_high as u64) << 32);
        VirtAddr::new_truncate(addr)
    }

    /// The entry's options word.
    pub fn options(&self) -> (r: EntryOptions)
        ensures
            r@ == self@.options,
    {
        self.options
    }

    /// The entry's code-segment selector bits.
    pub fn selector(&self) -> (r: u16)
        ensures
            r == self@.selector,
    {
        self.selector
    }
}

/// The interrupt descriptor table: a gate for every one of the 256 vectors,
/// all missing at construction. Its view is the sequence of gate images,
/// indexed by vector.
#[derive(Debug)]
pub struct InterruptDescriptorTable {
    entries: Vec<Entry>,
}

impl View for InterruptDescriptorTable {
    type V = Seq<GateView>;

    closed spec fn view(&self) -> Seq<GateView> {
        self.entries@.map_values(|e: Entry| e@)
    }
}

impl InterruptDescriptorTable {
    /// The table always holds exactly one gate per vector.
    #[verifier::type_invariant]
    spec fn wf(self) -> bool {
        self.entries@.len() == IDT_ENTRY_COUNT
    }

    /// A table with all 256 gates present as "missing": no handler, not
    /// present.
    pub fn new() -> (r: InterruptDescriptorTable)
        ensures
            r@.len() == IDT_ENTRY_COUNT,
            forall|i: int| 0 <= i < IDT_ENTRY_COUNT ==> r@[i] == spec_missing_gate(),
    {
        let mut entries: Vec<Entry> = Vec::new();
        let mut k: usize = 0;
        while k < IDT_ENTRY_COUNT
            invariant
                k == entries@.len(),
                k <= IDT_ENTRY_COUNT,
                forall|i: int| 0 <= i < k ==> entries@[i]@ == spec_missing_gate(),
            decreases IDT_ENTRY_COUNT - k,
        {
            entries.push(Entry::missing());
            k = k + 1;
        }
        InterruptDescriptorTable { entries }
    }

    /// The number of gates in the table; always 256.
    pub fn len(&self) -> (r: usize)
        ensures
            r == self@.len(),
            r == IDT_ENTRY_COUNT,
    {
        proof {
            use_type_invariant(self);
        }
        self.entries.len()
    }

    /// A copy of the entry for `vector`.
    pub fn entry(&self, vector: u8) -> (r: Entry)
        ensures
            r@ == self@[vector as int],
    {
        proof {
            use_type_invariant(self);
        }
        self.entries[vector as usize]
    }

    /// Installs `handler` as the handler for `vector`: the address is split
    /// across the entry's pointer fields, the selector is set to the default
    /// kernel code selector, and the entry is marked present at ring 0,
    /// interrupts disabled on entry. Overwrites whatever the vector held —
    /// reconfiguring during boot is a legitimate, silent operation. Every
    /// vector accepts a handler: no failure is possible.
    pub fn set_handler(&mut self, vector: u8, handler: VirtAddr)
        ensures
            final(self)@ == old(self)@.update(vector as int, spec_handler_gate(handler@)),
    {
        proof {
            use_type_invariant(&*self);
        }
        let addr = handler.as_u64();
        proof {
            let a = addr;
            assert(((a >> 16) & 0xffff) <= 0xffff && ((a >> 32) & 0xffff_ffff) <= 0xffff_ffff && (a
                & 0xffff) <= 0xffff) by (bit_vector);
        }
        let mut options = EntryOptions::minimal();
        options.set_present(true);
        let entry = Entry {
            pointer_low: (addr & 0xffff) as u16,
            selector: DEFAULT_CODE_SELECTOR_BITS,
            options,
            pointer_middle: ((addr >> 16) & 0xffff) as u16,
            pointer_high: ((addr >> 32) & 0xffff_ffff) as u32,
            reserved: 0,
        };
        self.entries[vector as usize] = entry;
        proof {
            assert(final(self)@ =~= old(self)@.update(vector as int, spec_handler_gate(addr)));
        }
    }

    /// Replaces the options word of the entry for `vector`, leaving its
    /// handler address and selector untouched: the refinement step after the
    /// handler address is fixed.
    pub fn set_options(&mut self, vector: u8, options: EntryOptions)
        ensures
            final(self)@ == old(self)@.update(
                vector as int,
                GateView { options: options@, ..old(self)@[vector as int] },
            ),
    {
        proof {
            use_type_invariant(&*self);
        }
        let mut entry = self.entries[vector as usize];
        entry.options = options;
        self.entries[vector as usize] = entry;
        proof {
            assert(final(self)@ =~= old(self)@.update(
                vector as int,
                GateView { options: options@, ..old(self)@[vector as int] },
            ));
        }
    }
}

} // verus!
