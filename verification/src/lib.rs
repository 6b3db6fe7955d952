//! Architecture-level data structures for a 64-bit x86 machine: physical and
//! virtual addresses with their canonical-form validity rules, pages and
//! frames generic over the translation granularity, the global and interrupt
//! descriptor tables with their bit-exact entry formats, and a one-shot
//! primitive that hands out exclusive mutable access to a value at most once.
//!
//! Everything here is pure data manipulation: loading the constructed tables
//! into the hardware registers is left to a privileged-instruction layer.

pub mod addr;
pub mod gdt;
pub mod idt;
pub mod paging;

pub use crate::addr::align_down;
pub use crate::addr::align_up;
pub use crate::addr::PhysAddr;
pub use crate::addr::VirtAddr;

use vstd::prelude::*;

verus! {

/// A protection ring level: the 2-bit hardware privilege tier carried by
/// segment selectors and gate descriptors, from 0 (most privileged) to 3
/// (least privileged).
#[derive(Debug, Copy, Clone, PartialEq, Eq, Structural)]
pub enum PrivilegeLevel {
    /// Ring 0: critical system software with full control of the processor.
    Ring0,
    /// Ring 1: less critical system services, e.g. some device drivers.
    Ring1,
    /// Ring 2: less critical system services; semantics are defined by the
    /// operating system.
    Ring2,
    /// Ring 3: application software, prevented from touching privileged
    /// processor state directly.
    Ring3,
}

impl PrivilegeLevel {
    /// The numeric ring value (0..=3) this level is encoded as in selectors
    /// and descriptors.
    pub open spec fn spec_value(self) -> u16 {
        match self {
            PrivilegeLevel::Ring0 => 0,
            PrivilegeLevel::Ring1 => 1,
            PrivilegeLevel::Ring2 => 2,
            PrivilegeLevel::Ring3 => 3,
        }
    }

    /// The level encoding the numeric ring value `value`, for `value <= 3`.
    pub open spec fn spec_from_u16(value: u16) -> PrivilegeLevel {
        if value == 0 {
            PrivilegeLevel::Ring0
        } else if value == 1 {
            PrivilegeLevel::Ring1
        } else if value == 2 {
            PrivilegeLevel::Ring2
        } else {
            PrivilegeLevel::Ring3
        }
    }

    /// Creates a `PrivilegeLevel` from a numeric value, which must lie in the
    /// range 0..=3: a value outside that range is a caller bug (a privilege
    /// level is a closed enumeration baked into the hardware), not
    /// recoverable input.
    pub fn from_u16(value: u16) -> (r: PrivilegeLevel)
        requires
            value <= 3,
        ensures
            r == PrivilegeLevel::spec_from_u16(value),
            r.spec_value() == value,
    {
        if value == 0 {
            PrivilegeLevel::Ring0
        } else if value == 1 {
            PrivilegeLevel::Ring1
        } else if value == 2 {
            PrivilegeLevel::Ring2
        } else {
            PrivilegeLevel::Ring3
        }
    }

    /// The numeric ring value of this level, as embedded in selectors.
    pub fn as_u16(self) -> (r: u16)
        ensures
            r == self.spec_value(),
    {
        match self {
            PrivilegeLevel::Ring0 => 0,
            PrivilegeLevel::Ring1 => 1,
            PrivilegeLevel::Ring2 => 2,
            PrivilegeLevel::Ring3 => 3,
        }
    }
}

/// A wrapper that hands out a mutable reference to the value it holds at
/// most once: the first successful request flips the `used` flag — an
/// irreversible transition — and every later request observes the flag and
/// receives nothing. Callers use it to publish a descriptor table so that
/// exactly one owner gets write access.
#[derive(Debug)]
pub struct Singleton<T> {
    used: bool,
    value: T,
}

/// What one `try_get_mut` call does to a singleton's abstract state: the
/// request succeeds exactly when the flag was still clear, the flag is set
/// afterwards in every case, and a failed request changes nothing.
pub open spec fn acquire_outcome<T>(pre: Singleton<T>, post: Singleton<T>, got: bool) -> bool {
    &&& (got <==> !pre.is_used())
    &&& post.is_used()
    &&& (!got ==> post == pre)
}

impl<T> Singleton<T> {
    /// Whether the one allowed mutable reference has already been handed
    /// out.
    pub closed spec fn is_used(self) -> bool {
        self.used
    }

    /// The wrapped value.
    pub closed spec fn spec_value(self) -> T {
        self.value
    }

    /// Wraps `value`; the exclusive reference is still available.
    pub fn new(value: T) -> (r: Singleton<T>)
        ensures
            !r.is_used(),
            r.spec_value() == value,
    {
        Singleton { used: false, value }
    }

    /// Hands out the mutable reference to the wrapped value if no call ever
    /// received it before, and nothing otherwise.
    pub fn try_get_mut(&mut self) -> (r: Option<&mut T>)
        ensures
            acquire_outcome(*old(self), *final(self), r is Some),
            r matches Some(v) ==> *v == old(self).spec_value() && final(self).spec_value()
                == *final(v),
    {
        if self.used {
            None
        } else {
            self.used = true;
            Some(&mut self.value)
        }
    }
}

/// The exclusivity law: over any run of `try_get_mut` calls on a singleton
/// that starts unused — `states` being the values before and after each call
/// and `got` whether each call received the reference — the first call
/// succeeds and every other call comes away empty, so exactly one caller is
/// ever handed the value.
pub proof fn lemma_exclusive_access<T>(states: Seq<Singleton<T>>, got: Seq<bool>)
    requires
        states.len() == got.len() + 1,
        got.len() >= 1,
        !states[0].is_used(),
        forall|i: int| 0 <= i < got.len() ==> acquire_outcome(states[i], states[i + 1], got[i]),
    ensures
        forall|i: int| 0 <= i < got.len() ==> (got[i] <==> i == 0),
{
    assert forall|i: int| 0 <= i < got.len() implies (got[i] <==> i == 0) by {
        if i == 0 {
            assert(acquire_outcome(states[0], states[1], got[0]));
        } else {
            assert(acquire_outcome(states[i - 1], states[i], got[i - 1]));
            assert(acquire_outcome(states[i], states[i + 1], got[i]));
        }
    }
}

} // verus!
