//! Physical and virtual addresses, with the architecture's validity rules and
//! power-of-two alignment arithmetic.
//!
//! A virtual address is *canonical* when bits 48..=63 are a sign extension of
//! bit 47 (the architecture implements a 48-bit virtual address space). A
//! physical address is valid when every bit at or above the supported
//! physical width (52 bits here) is zero.

use vstd::arithmetic::div_mod::{lemma_fundamental_div_mod, lemma_small_mod};
use vstd::arithmetic::mul::lemma_mul_inequality;
use vstd::arithmetic::power2::{
    lemma2_to64, lemma2_to64_rest, lemma_pow2_strictly_increases, lemma_pow2_unfold, pow2,
};
use vstd::bits::{lemma_u64_low_bits_mask_is_mod, low_bits_mask};
use vstd::prelude::*;

verus! {

/// Bit 47 of a virtual address: the sign bit of the 48-bit address space.
pub const VIRT_SIGN_BIT: u64 = 0x0000_8000_0000_0000;

/// Bits 47..=63 of a virtual address; canonical addresses have these bits
/// all zero or all one.
pub const VIRT_HIGH_BITS: u64 = 0xffff_8000_0000_0000;

/// Bits 48..=63 of a virtual address: the sign-extension bits.
pub const VIRT_EXT_BITS: u64 = 0xffff_0000_0000_0000;

/// Bits 0..=47 of a virtual address.
pub const VIRT_LOW_BITS: u64 = 0x0000_ffff_ffff_ffff;

/// The supported physical address width, in bits.
pub const PHYS_ADDR_BITS: u64 = 52;

/// 2 to the power of `PHYS_ADDR_BITS`: the number of valid physical addresses.
pub const PHYS_ADDR_SPACE: u64 = 0x0010_0000_0000_0000;

/// Whether `p` is a power of two, stated through the standard mask identity
/// (a nonzero `p` shares no bit with `p - 1` exactly when a single bit is
/// set).
pub open spec fn is_power_of_two(p: u64) -> bool {
    p != 0 && p & ((p - 1) as u64) == 0
}

/// Whether bits 48..=63 of `a` are a sign extension of bit 47.
pub open spec fn is_canonical(a: u64) -> bool {
    a & VIRT_HIGH_BITS == 0 || a & VIRT_HIGH_BITS == VIRT_HIGH_BITS
}

/// `a` with bits 48..=63 replaced by copies of bit 47: the canonical address
/// that agrees with `a` on the low 48 bits.
pub open spec fn canonicalize(a: u64) -> u64 {
    if a & VIRT_SIGN_BIT == 0 {
        a & VIRT_LOW_BITS
    } else {
        a | VIRT_EXT_BITS
    }
}

/// The largest multiple of `p` that is at most `a`.
pub open spec fn spec_align_down(a: u64, p: u64) -> u64
    recommends
        is_power_of_two(p),
{
    (a - a % p) as u64
}

/// The smallest multiple of `p` that is at least `a`, wrapping to 0 when no
/// such multiple fits in 64 bits.
pub open spec fn spec_align_up(a: u64, p: u64) -> u64
    recommends
        is_power_of_two(p),
{
    spec_align_down(a.wrapping_add((p - 1) as u64), p)
}

/// Every power of two fits the form 2^n with n below the word width; the
/// exponent is handed back for use with the mask lemmas.
pub proof fn lemma_pow2_exponent(p: u64) -> (n: nat)
    requires
        is_power_of_two(p),
    ensures
        n < 64,
        p == pow2(n),
    decreases p,
{
    if p == 1 {
        lemma2_to64();
        0nat
    } else {
        assert(p / 2 != 0 && (p / 2) & ((p / 2 - 1) as u64) == 0 && p == 2 * (p / 2)
            && p / 2 < p) by (bit_vector)
            requires
                p != 0 && p & ((p - 1) as u64) == 0 && p != 1,
        ;
        let m = lemma_pow2_exponent(p / 2);
        lemma_pow2_unfold(m + 1);
        if m + 1 >= 64 {
            lemma2_to64();
            lemma2_to64_rest();
            if m + 1 > 64 {
                lemma_pow2_strictly_increases(64, m + 1);
            }
            assert(false);
        }
        m + 1
    }
}

/// For a power of two `p`, the low-bit mask computes the remainder:
/// `a & (p - 1) == a % p`.
pub proof fn lemma_mask_is_mod(a: u64, p: u64)
    requires
        is_power_of_two(p),
    ensures
        a & ((p - 1) as u64) == a % p,
{
    let n = lemma_pow2_exponent(p);
    lemma_u64_low_bits_mask_is_mod(a, n);
    assert(low_bits_mask(n) == p - 1);
}

/// The bits selected by a mask and the bits it rejects partition a value.
proof fn lemma_and_split(a: u64, m: u64)
    by (bit_vector)
    ensures
        (a & m) + (a & !m) == a,
        (a & !m) & m == 0,
{
}

/// For a power of two `p`, clearing the low bits rounds down to a multiple
/// of `p`: `a & !(p - 1) == a - a % p`.
pub proof fn lemma_mask_is_align_down(a: u64, p: u64)
    requires
        is_power_of_two(p),
    ensures
        a & !((p - 1) as u64) == spec_align_down(a, p),
{
    lemma_mask_is_mod(a, p);
    lemma_and_split(a, (p - 1) as u64);
}

/// Two distinct multiples of `p` lie at least `p` apart.
pub proof fn lemma_multiple_gap(b: int, c: int, p: int)
    requires
        p > 0,
        b % p == 0,
        c % p == 0,
        b < c,
    ensures
        b + p <= c,
{
    lemma_fundamental_div_mod(b, p);
    lemma_fundamental_div_mod(c, p);
    let qb = b / p;
    let qc = c / p;
    assert(p * qb == qb * p) by (nonlinear_arith);
    assert(p * qc == qc * p) by (nonlinear_arith);
    if qb >= qc {
        lemma_mul_inequality(qc, qb, p);
        assert(false);
    }
    lemma_mul_inequality(qb + 1, qc, p);
    assert((qb + 1) * p == qb * p + p) by (nonlinear_arith);
}

/// Rounding down lands on the unique multiple of `p` in the `p`-sized window
/// at or below `a`, and no larger multiple fits below `a`.
pub proof fn lemma_align_down_properties(a: u64, p: u64)
    requires
        is_power_of_two(p),
    ensures
        spec_align_down(a, p) % p == 0,
        spec_align_down(a, p) <= a,
        a < spec_align_down(a, p) + p,
        forall|b: u64| #[trigger] (b % p) == 0 && b <= a ==> b <= spec_align_down(a, p),
{
    let d = spec_align_down(a, p);
    lemma_mask_is_mod(a, p);
    lemma_and_split(a, (p - 1) as u64);
    lemma_mask_is_mod(d, p);
    assert forall|b: u64| #[trigger] (b % p) == 0 && b <= a implies b <= d by {
        if b > d {
            lemma_multiple_gap(d as int, b as int, p as int);
        }
    }
}

/// Rounding up lands on the smallest multiple of `p` at or above `a`; when
/// `a + p - 1` overflows 64 bits no such multiple exists and the result
/// wraps to 0.
pub proof fn lemma_align_up_properties(a: u64, p: u64)
    requires
        is_power_of_two(p),
    ensures
        spec_align_up(a, p) % p == 0,
        a + (p - 1) <= u64::MAX ==> spec_align_up(a, p) >= a,
        a + (p - 1) <= u64::MAX ==> spec_align_up(a, p) < a + p,
        a + (p - 1) > u64::MAX ==> spec_align_up(a, p) == 0,
        forall|b: u64| #[trigger] (b % p) == 0 && b >= a ==> b >= spec_align_up(a, p),
{
    let w = a.wrapping_add((p - 1) as u64);
    let r = spec_align_up(a, p);
    lemma_align_down_properties(w, p);
    if a + (p - 1) > u64::MAX {
        lemma_small_mod(w as nat, p as nat);
    }
    assert forall|b: u64| #[trigger] (b % p) == 0 && b >= a implies b >= r by {
        if b < r {
            lemma_multiple_gap(b as int, r as int, p as int);
        }
    }
}

/// Align `addr` downwards to the given alignment, which must be a power of
/// two (a zero or non-power-of-two alignment is a caller bug, not
/// recoverable input).
pub fn align_down(addr: u64, align: u64) -> (r: u64)
    requires
        is_power_of_two(align),
    ensures
        r == spec_align_down(addr, align),
{
    proof {
        lemma_mask_is_align_down(addr, align);
    }
    addr & !(align - 1)
}

/// Align `addr` upwards to the given alignment (a power of two), wrapping to
/// 0 at the 64-bit boundary exactly when no aligned value at or above `addr`
/// exists.
pub fn align_up(addr: u64, align: u64) -> (r: u64)
    requires
        is_power_of_two(align),
    ensures
        r == spec_align_up(addr, align),
{
    let sum = addr.wrapping_add(align - 1);
    proof {
        lemma_mask_is_align_down(sum, align);
    }
    sum & !(align - 1)
}

/// A failed address construction: the raw value violated the address type's
/// validity rule.
#[derive(Debug, Copy, Clone, PartialEq, Eq, Structural)]
pub enum AddressError {
    /// A virtual address whose high bits were not a sign extension of bit 47;
    /// carries the rejected value.
    NonCanonical(u64),
    /// A physical address with bits set at or above the supported physical
    /// width; carries the rejected value.
    OutOfRange(u64),
}

/// A 64-bit virtual address, always in canonical (sign-extended) form.
#[derive(Debug, Copy, Clone, PartialEq, Eq, Structural, PartialOrd, Ord, Hash)]
pub struct VirtAddr {
    addr: u64,
}

impl View for VirtAddr {
    type V = u64;

    closed spec fn view(&self) -> u64 {
        self.addr
    }
}

impl VirtAddr {
    /// Every `VirtAddr` value is canonical.
    #[verifier::type_invariant]
    spec fn wf(self) -> bool {
        is_canonical(self.addr)
    }

    /// Creates a virtual address from `addr` if it is canonical, and reports
    /// `AddressError::NonCanonical` otherwise.
    pub fn new(addr: u64) -> (r: Result<VirtAddr, AddressError>)
        ensures
            is_canonical(addr) <==> r is Ok,
            r matches Ok(v) ==> v@ == addr,
            r matches Err(e) ==> e == AddressError::NonCanonical(addr),
    {
        if (addr & VIRT_HIGH_BITS == 0) || (addr & VIRT_HIGH_BITS == VIRT_HIGH_BITS) {
            Ok(VirtAddr { addr })
        } else {
            Err(AddressError::NonCanonical(addr))
        }
    }

    /// Creates a virtual address by forcing `addr` into canonical form:
    /// bits 48..=63 are overwritten with copies of bit 47, so an already
    /// canonical value is returned unchanged.
    pub fn new_truncate(addr: u64) -> (r: VirtAddr)
        ensures
            r@ == canonicalize(addr),
            is_canonical(r@),
            is_canonical(addr) ==> r@ == addr,
    {
        proof {
            lemma_canonicalize(addr);
        }
        let truncated = if addr & VIRT_SIGN_BIT == 0 {
            addr & VIRT_LOW_BITS
        } else {
            addr | VIRT_EXT_BITS
        };
        VirtAddr { addr: truncated }
    }

    /// The virtual address 0.
    pub fn zero() -> (r: VirtAddr)
        ensures
            r@ == 0,
    {
        proof {
            assert(0u64 & VIRT_HIGH_BITS == 0) by (bit_vector);
        }
        VirtAddr { addr: 0 }
    }

    /// The raw 64-bit value of this address, which the type's invariant
    /// guarantees to be canonical.
    pub fn as_u64(self) -> (r: u64)
        ensures
            r == self@,
            is_canonical(self@),
    {
        proof {
            use_type_invariant(self);
        }
        self.addr
    }

    /// Adds `rhs`, wrapping modulo 2^64 as the machine's register arithmetic
    /// does, then forces the sum back into canonical form.
    pub fn wrapping_add(self, rhs: u64) -> (r: VirtAddr)
        ensures
            r@ == canonicalize(self@.wrapping_add(rhs)),
    {
        VirtAddr::new_truncate(self.addr.wrapping_add(rhs))
    }

    /// Subtracts `rhs`, wrapping modulo 2^64, then forces the difference back
    /// into canonical form.
    pub fn wrapping_sub(self, rhs: u64) -> (r: VirtAddr)
        ensures
            r@ == canonicalize(self@.wrapping_sub(rhs)),
    {
        VirtAddr::new_truncate(self.addr.wrapping_sub(rhs))
    }

    /// Aligns this address downwards to `align` (a power of two). For any
    /// alignment within the 48-bit address space the rounded value is itself
    /// canonical, so the result is exactly the rounded value.
    pub fn align_down(self, align: u64) -> (r: VirtAddr)
        requires
            is_power_of_two(align),
        ensures
            r@ == canonicalize(spec_align_down(self@, align)),
            align <= VIRT_SIGN_BIT ==> r@ == spec_align_down(self@, align),
    {
        proof {
            use_type_invariant(self);
            lemma_align_down_canonical(self.addr, align);
        }
        VirtAddr::new_truncate(align_down(self.addr, align))
    }

    /// Aligns this address upwards to `align` (a power of two), wrapping at
    /// the 64-bit boundary, then forces the result into canonical form.
    pub fn align_up(self, align: u64) -> (r: VirtAddr)
        requires
            is_power_of_two(align),
        ensures
            r@ == canonicalize(spec_align_up(self@, align)),
    {
        VirtAddr::new_truncate(align_up(self.addr, align))
    }

    /// Whether this address is a multiple of `align` (a power of two).
    pub fn is_aligned(self, align: u64) -> (r: bool)
        requires
            is_power_of_two(align),
        ensures
            r <==> self@ % align == 0,
    {
        proof {
            lemma_mask_is_mod(self.addr, align);
        }
        self.addr & (align - 1) == 0
    }
}

/// Forcing canonical form is sound and exact: the result is canonical, an
/// already canonical value is unchanged, and the low 48 bits are preserved.
pub proof fn lemma_canonicalize(a: u64)
    by (bit_vector)
    ensures
        is_canonical(canonicalize(a)),
        is_canonical(a) ==> canonicalize(a) == a,
        canonicalize(a) & VIRT_LOW_BITS == a & VIRT_LOW_BITS,
{
}

/// Rounding a canonical address down to an alignment within the 48-bit
/// address space cannot leave the canonical range: the high bits are
/// untouched.
#[verifier::rlimit(100)]
pub proof fn lemma_align_down_canonical(a: u64, p: u64)
    by (bit_vector)
    requires
        is_canonical(a),
        is_power_of_two(p),
    ensures
        p <= VIRT_SIGN_BIT ==> is_canonical(spec_align_down(a, p)),
{
}

/// A 64-bit physical address, always below 2^52 (the supported physical
/// width).
#[derive(Debug, Copy, Clone, PartialEq, Eq, Structural, PartialOrd, Ord, Hash)]
pub struct PhysAddr {
    addr: u64,
}

impl View for PhysAddr {
    type V = u64;

    closed spec fn view(&self) -> u64 {
        self.addr
    }
}

impl PhysAddr {
    /// Every `PhysAddr` value fits in the supported physical width.
    #[verifier::type_invariant]
    spec fn wf(self) -> bool {
        self.addr < PHYS_ADDR_SPACE
    }

    /// Creates a physical address from `addr` if it fits in the supported
    /// physical width, and reports `AddressError::OutOfRange` otherwise.
    pub fn new(addr: u64) -> (r: Result<PhysAddr, AddressError>)
        ensures
            addr < PHYS_ADDR_SPACE <==> r is Ok,
            r matches Ok(v) ==> v@ == addr,
            r matches Err(e) ==> e == AddressError::OutOfRange(addr),
    {
        if addr < PHYS_ADDR_SPACE {
            Ok(PhysAddr { addr })
        } else {
            Err(AddressError::OutOfRange(addr))
        }
    }

    /// Creates a physical address by discarding every bit at or above the
    /// supported physical width: the result is `addr` modulo 2^52, so a
    /// valid value is returned unchanged.
    pub fn new_truncate(addr: u64) -> (r: PhysAddr)
        ensures
            r@ == addr % PHYS_ADDR_SPACE,
            addr < PHYS_ADDR_SPACE ==> r@ == addr,
    {
        proof {
            lemma_phys_truncate(addr);
        }
        PhysAddr { addr: addr % PHYS_ADDR_SPACE }
    }

    /// The physical address 0.
    pub fn zero() -> (r: PhysAddr)
        ensures
            r@ == 0,
    {
        PhysAddr { addr: 0 }
    }

    /// The raw 64-bit value of this address, which the type's invariant
    /// guarantees to fit in the supported physical width.
    pub fn as_u64(self) -> (r: u64)
        ensures
            r == self@,
            self@ < PHYS_ADDR_SPACE,
    {
        proof {
            use_type_invariant(self);
        }
        self.addr
    }

    /// Adds `rhs`, wrapping modulo 2^64 as the machine's register arithmetic
    /// does, then discards bits above the physical width; the net effect is
    /// addition modulo 2^52.
    pub fn wrapping_add(self, rhs: u64) -> (r: PhysAddr)
        ensures
            r@ == (self@ + rhs) % (PHYS_ADDR_SPACE as int),
    {
        proof {
            use_type_invariant(self);
            lemma_phys_wrapping_add(self.addr, rhs);
        }
        PhysAddr::new_truncate(self.addr.wrapping_add(rhs))
    }

    /// Subtracts `rhs`, wrapping modulo 2^64, then discards bits above the
    /// physical width.
    pub fn wrapping_sub(self, rhs: u64) -> (r: PhysAddr)
        ensures
            r@ == self@.wrapping_sub(rhs) % PHYS_ADDR_SPACE,
    {
        PhysAddr::new_truncate(self.addr.wrapping_sub(rhs))
    }

    /// Aligns this address downwards to `align` (a power of two); rounding
    /// down cannot leave the valid physical range.
    pub fn align_down(self, align: u64) -> (r: PhysAddr)
        requires
            is_power_of_two(align),
        ensures
            r@ == spec_align_down(self@, align),
    {
        proof {
            use_type_invariant(self);
            lemma_align_down_properties(self.addr, align);
        }
        let aligned = align_down(self.addr, align);
        PhysAddr::new_truncate(aligned)
    }

    /// Aligns this address upwards to `align` (a power of two), then
    /// discards bits above the physical width (rounding the topmost block up
    /// leaves the 52-bit range and wraps to 0, like the register arithmetic
    /// it models).
    pub fn align_up(self, align: u64) -> (r: PhysAddr)
        requires
            is_power_of_two(align),
        ensures
            r@ == spec_align_up(self@, align) % PHYS_ADDR_SPACE,
    {
        PhysAddr::new_truncate(align_up(self.addr, align))
    }

    /// Whether this address is a multiple of `align` (a power of two).
    pub fn is_aligned(self, align: u64) -> (r: bool)
        requires
            is_power_of_two(align),
        ensures
            r <==> self@ % align == 0,
    {
        proof {
            lemma_mask_is_mod(self.addr, align);
        }
        self.addr & (align - 1) == 0
    }
}

/// The physical-width mask identity: reducing modulo 2^52 is the same as
/// keeping the low 52 bits, and a value below 2^52 is unchanged.
proof fn lemma_phys_truncate(a: u64)
    by (bit_vector)
    ensures
        a % 0x0010_0000_0000_0000 == a & 0x000f_ffff_ffff_ffff,
        a % 0x0010_0000_0000_0000 < 0x0010_0000_0000_0000,
        a < 0x0010_0000_0000_0000 ==> a % 0x0010_0000_0000_0000 == a,
{
}

/// Adding modulo 2^64 and then reducing modulo 2^52 equals adding modulo
/// 2^52, because 2^52 divides 2^64.
proof fn lemma_phys_wrapping_add(a: u64, b: u64)
    by (bit_vector)
    requires
        a < 0x0010_0000_0000_0000,
    ensures
        a.wrapping_add(b) % 0x0010_0000_0000_0000 == (a + b) % 0x0010_0000_0000_0000,
{
}

} // verus!
