//! Pages and frames: the virtual and physical address-space units, generic
//! over the architecture's translation granularities.
//!
//! The granularity is a zero-sized tag type implementing [`PageSize`], so
//! that pages of different sizes can never be mixed in one computation. A
//! page or frame always wraps an address aligned to its granularity.

use core::marker::PhantomData;

use vstd::prelude::*;

use crate::addr::{
    is_canonical, is_power_of_two, lemma_align_down_properties, lemma_multiple_gap,
    spec_align_down, PhysAddr, VirtAddr, PHYS_ADDR_SPACE, VIRT_HIGH_BITS, VIRT_SIGN_BIT,
};

verus! {

/// The byte size of a standard page.
pub const SIZE_4KIB: u64 = 0x1000;

/// The byte size of a large page (one level-2 translation entry).
pub const SIZE_2MIB: u64 = 0x20_0000;

/// The byte size of a giant page (one level-3 translation entry).
pub const SIZE_1GIB: u64 = 0x4000_0000;

/// A translation granularity the hardware supports. This is a closed family:
/// the architecture defines exactly which page sizes exist, so the only
/// implementations are the tag types in this module.
pub trait PageSize: Sized {
    /// The page size in bytes.
    spec fn spec_size() -> u64;

    /// Whether entries of this size must set the page-table entry's
    /// large-page bit (true for every size above the standard 4 KiB).
    spec fn spec_is_huge() -> bool;

    /// The size is one of the architecture's legal granularities; in
    /// particular it is a power of two no larger than the 48-bit address
    /// space, and only the standard size clears the large-page bit.
    proof fn size_facts()
        ensures
            Self::spec_size() == SIZE_4KIB || Self::spec_size() == SIZE_2MIB
                || Self::spec_size() == SIZE_1GIB,
            is_power_of_two(Self::spec_size()),
            Self::spec_is_huge() <==> Self::spec_size() != SIZE_4KIB,
    ;

    /// The page size in bytes.
    fn size() -> (r: u64)
        ensures
            r == Self::spec_size(),
    ;

    /// Whether this size requires the large-page bit.
    fn is_huge() -> (r: bool)
        ensures
            r == Self::spec_is_huge(),
    ;
}

/// The standard 4 KiB translation granularity, legal in every mode.
#[derive(Debug, Clone, Copy, PartialEq, Eq, PartialOrd, Ord)]
pub struct Size4KiB;

/// The 2 MiB large-page granularity.
#[derive(Debug, Clone, Copy, PartialEq, Eq, PartialOrd, Ord)]
pub struct Size2MiB;

/// The 1 GiB giant-page granularity.
#[derive(Debug, Clone, Copy, PartialEq, Eq, PartialOrd, Ord)]
pub struct Size1GiB;

impl PageSize for Size4KiB {
    open spec fn spec_size() -> u64 {
        SIZE_4KIB
    }

    open spec fn spec_is_huge() -> bool {
        false
    }

    proof fn size_facts() {
        assert(0x1000u64 & 0xfffu64 == 0) by (bit_vector);
    }

    fn size() -> u64 {
        SIZE_4KIB
    }

    fn is_huge() -> bool {
        false
    }
}

impl PageSize for Size2MiB {
    open spec fn spec_size() -> u64 {
        SIZE_2MIB
    }

    open spec fn spec_is_huge() -> bool {
        true
    }

    proof fn size_facts() {
        assert(0x20_0000u64 & 0x1f_ffffu64 == 0) by (bit_vector);
    }

    fn size() -> u64 {
        SIZE_2MIB
    }

    fn is_huge() -> bool {
        true
    }
}

impl PageSize for Size1GiB {
    open spec fn spec_size() -> u64 {
        SIZE_1GIB
    }

    open spec fn spec_is_huge() -> bool {
        true
    }

    proof fn size_facts() {
        assert(0x4000_0000u64 & 0x3fff_ffffu64 == 0) by (bit_vector);
    }

    fn size() -> u64 {
        SIZE_1GIB
    }

    fn is_huge() -> bool {
        true
    }
}

/// A failed page or frame construction: the given start address was not
/// aligned to the requested granularity.
#[derive(Debug, Clone, Copy, PartialEq, Eq, Structural)]
pub struct AddressNotAligned;

/// An address below the canonical sign bit is canonical, and so is one with
/// all the high bits set.
proof fn lemma_half_canonical(a: u64)
    by (bit_vector)
    ensures
        a < 0x0000_8000_0000_0000 ==> is_canonical(a),
        a >= 0xffff_8000_0000_0000 ==> is_canonical(a),
{
}

/// Advancing a range cursor by one unit of size `s` shrinks the number of
/// whole units left before `e` by exactly one.
proof fn lemma_step_shrinks(c: u64, e: u64, s: u64)
    requires
        s > 0,
        c % s == 0,
        e % s == 0,
        c < e,
    ensures
        (e - (c + s)) / (s as int) == (e - c) / (s as int) - 1,
{
    vstd::arithmetic::div_mod::lemma_sub_mod_noop(e as int, c as int, s as int);
    vstd::arithmetic::div_mod::lemma_small_mod(0nat, s as nat);
    vstd::arithmetic::div_mod::lemma_fundamental_div_mod(e - c, s as int);
    let q = (e - c) / (s as int);
    assert(e - c == s * q);
    assert(s * q - s == s * (q - 1)) by (nonlinear_arith);
    vstd::arithmetic::div_mod::lemma_div_multiples_vanish(q - 1, s as int);
}

/// The containment law: the page or frame of size `S` containing an address
/// starts at or below that address, and the address lies less than one page
/// size beyond the start — so `containing_address` really yields the unit an
/// address falls in.
pub proof fn lemma_containing_address_bounds<S: PageSize>(addr: u64)
    ensures
        spec_align_down(addr, S::spec_size()) <= addr,
        addr < spec_align_down(addr, S::spec_size()) + S::spec_size(),
{
    S::size_facts();
    lemma_align_down_properties(addr, S::spec_size());
}

/// A virtual page: a `S::spec_size()`-sized, equally aligned unit of the
/// virtual address space, identified by its start address (its view).
#[derive(Debug, PartialEq, Eq, PartialOrd, Ord)]
pub struct Page<S: PageSize> {
    start: VirtAddr,
    size: PhantomData<S>,
}

impl<S: PageSize> Copy for Page<S> {

}

impl<S: PageSize> Clone for Page<S> {
    fn clone(&self) -> (r: Self)
        ensures
            r == *self,
    {
        *self
    }
}

impl<S: PageSize> View for Page<S> {
    type V = u64;

    closed spec fn view(&self) -> u64 {
        self.start@
    }
}

impl<S: PageSize> Page<S> {
    /// A page's start address is aligned to the page size.
    #[verifier::type_invariant]
    spec fn wf(self) -> bool {
        self.start@ % S::spec_size() == 0
    }

    /// The page containing `addr`: its start address is `addr` rounded down
    /// to the page size. Never fails.
    pub fn containing_address(addr: VirtAddr) -> (r: Page<S>)
        ensures
            r@ == spec_align_down(addr@, S::spec_size()),
    {
        proof {
            S::size_facts();
            lemma_align_down_properties(addr@, S::spec_size());
        }
        let start = addr.align_down(S::size());
        Page { start, size: PhantomData }
    }

    /// The page starting exactly at `addr`; fails with `AddressNotAligned`
    /// if and only if `addr` is not aligned to the page size.
    pub fn from_start_address(addr: VirtAddr) -> (r: Result<Page<S>, AddressNotAligned>)
        ensures
            addr@ % S::spec_size() == 0 <==> r is Ok,
            r matches Ok(p) ==> p@ == addr@,
    {
        proof {
            S::size_facts();
        }
        if addr.is_aligned(S::size()) {
            Ok(Page { start: addr, size: PhantomData })
        } else {
            Err(AddressNotAligned)
        }
    }

    /// The first address of the page; it is aligned to the page size.
    pub fn start_address(self) -> (r: VirtAddr)
        ensures
            r@ == self@,
            self@ % S::spec_size() == 0,
    {
        proof {
            use_type_invariant(self);
        }
        self.start
    }

    /// The page size in bytes.
    pub fn size(self) -> (r: u64)
        ensures
            r == S::spec_size(),
    {
        S::size()
    }

    /// The half-open range of pages from `start` (inclusive) to `end`
    /// (exclusive), stepping by the page size; empty when `start >= end`.
    ///
    /// A non-empty range must lie within one canonical half of the address
    /// space: the addresses between the two halves do not exist, so a range
    /// spanning them describes pages that cannot be constructed (a caller
    /// bug, not recoverable input).
    pub fn range(start: Page<S>, end: Page<S>) -> (r: PageRange<S>)
        requires
            start@ < end@ ==> end@ <= VIRT_SIGN_BIT || start@ >= VIRT_HIGH_BITS,
        ensures
            r.spec_cursor() == start@,
            r.spec_end() == end@,
    {
        proof {
            use_type_invariant(start);
            use_type_invariant(end);
        }
        PageRange { cursor: start.start_address().as_u64(), end: end.start_address().as_u64(), size: PhantomData }
    }
}

/// A half-open range of consecutive pages, yielded in ascending order by
/// repeated calls to [`PageRange::next`]. Copying the range restarts it.
#[derive(Debug, PartialEq, Eq)]
pub struct PageRange<S: PageSize> {
    cursor: u64,
    end: u64,
    size: PhantomData<S>,
}

impl<S: PageSize> Copy for PageRange<S> {

}

impl<S: PageSize> Clone for PageRange<S> {
    fn clone(&self) -> (r: Self)
        ensures
            r == *self,
    {
        *self
    }
}

impl<S: PageSize> PageRange<S> {
    /// The start address of the next page to be yielded.
    pub closed spec fn spec_cursor(self) -> u64 {
        self.cursor
    }

    /// The first address beyond the range.
    pub closed spec fn spec_end(self) -> u64 {
        self.end
    }

    /// The number of pages not yet yielded.
    pub open spec fn spec_len(self) -> int {
        if self.spec_cursor() < self.spec_end() {
            (self.spec_end() - self.spec_cursor()) / (S::spec_size() as int)
        } else {
            0
        }
    }

    /// Both bounds stay aligned, and a non-empty remainder lies within one
    /// canonical half of the address space.
    #[verifier::type_invariant]
    spec fn wf(self) -> bool {
        &&& self.cursor % S::spec_size() == 0
        &&& self.end % S::spec_size() == 0
        &&& (self.cursor < self.end ==> self.end <= VIRT_SIGN_BIT || self.cursor
            >= VIRT_HIGH_BITS)
    }

    /// Whether the range has no pages left.
    pub fn is_empty(&self) -> (r: bool)
        ensures
            r <==> self.spec_cursor() >= self.spec_end(),
    {
        self.cursor >= self.end
    }

    /// The number of pages not yet yielded.
    pub fn len(&self) -> (r: u64)
        ensures
            r as int == self.spec_len(),
    {
        proof {
            use_type_invariant(self);
            S::size_facts();
        }
        if self.cursor < self.end {
            (self.end - self.cursor) / S::size()
        } else {
            0
        }
    }

    /// Yields the next page and advances the cursor by one page size, or
    /// reports `None`, leaving the range unchanged, exactly when the range
    /// is exhausted.
    pub fn next(&mut self) -> (r: Option<Page<S>>)
        ensures
            old(self).spec_cursor() >= old(self).spec_end() ==> r is None && *final(self) == *old(
                self,
            ),
            old(self).spec_cursor() < old(self).spec_end() ==> {
                &&& r matches Some(p) && p@ == old(self).spec_cursor()
                &&& final(self).spec_cursor() == old(self).spec_cursor() + S::spec_size()
                &&& final(self).spec_end() == old(self).spec_end()
                &&& final(self).spec_len() == old(self).spec_len() - 1
            },
    {
        proof {
            use_type_invariant(&*self);
            S::size_facts();
        }
        if self.cursor < self.end {
            proof {
                lemma_multiple_gap(self.cursor as int, self.end as int, S::spec_size() as int);
                lemma_step_shrinks(self.cursor, self.end, S::spec_size());
                lemma_half_canonical(self.cursor);
                vstd::arithmetic::div_mod::lemma_mod_multiples_vanish(
                    1,
                    self.cursor as int,
                    S::spec_size() as int,
                );
            }
            let addr = VirtAddr::new_truncate(self.cursor);
            let page = Page { start: addr, size: PhantomData };
            self.cursor = self.cursor + S::size();
            Some(page)
        } else {
            None
        }
    }
}

/// A physical frame: a `S::spec_size()`-sized, equally aligned unit of the
/// physical address space, identified by its start address (its view).
#[derive(Debug, PartialEq, Eq, PartialOrd, Ord)]
pub struct PhysFrame<S: PageSize> {
    start: PhysAddr,
    size: PhantomData<S>,
}

impl<S: PageSize> Copy for PhysFrame<S> {

}

impl<S: PageSize> Clone for PhysFrame<S> {
    fn clone(&self) -> (r: Self)
        ensures
            r == *self,
    {
        *self
    }
}

impl<S: PageSize> View for PhysFrame<S> {
    type V = u64;

    closed spec fn view(&self) -> u64 {
        self.start@
    }
}

impl<S: PageSize> PhysFrame<S> {
    /// A frame's start address is aligned to the frame size.
    #[verifier::type_invariant]
    spec fn wf(self) -> bool {
        self.start@ % S::spec_size() == 0
    }

    /// The frame containing `addr`: its start address is `addr` rounded down
    /// to the frame size. Never fails.
    pub fn containing_address(addr: PhysAddr) -> (r: PhysFrame<S>)
        ensures
            r@ == spec_align_down(addr@, S::spec_size()),
    {
        proof {
            S::size_facts();
            lemma_align_down_properties(addr@, S::spec_size());
        }
        let start = addr.align_down(S::size());
        PhysFrame { start, size: PhantomData }
    }

    /// The frame starting exactly at `addr`; fails with `AddressNotAligned`
    /// if and only if `addr` is not aligned to the frame size.
    pub fn from_start_address(addr: PhysAddr) -> (r: Result<PhysFrame<S>, AddressNotAligned>)
        ensures
            addr@ % S::spec_size() == 0 <==> r is Ok,
            r matches Ok(f) ==> f@ == addr@,
    {
        proof {
            S::size_facts();
        }
        if addr.is_aligned(S::size()) {
            Ok(PhysFrame { start: addr, size: PhantomData })
        } else {
            Err(AddressNotAligned)
        }
    }

    /// The first address of the frame; it is aligned to the frame size.
    pub fn start_address(self) -> (r: PhysAddr)
        ensures
            r@ == self@,
            self@ % S::spec_size() == 0,
    {
        proof {
            use_type_invariant(self);
        }
        self.start
    }

    /// The frame size in bytes.
    pub fn size(self) -> (r: u64)
        ensures
            r == S::spec_size(),
    {
        S::size()
    }

    /// The half-open range of frames from `start` (inclusive) to `end`
    /// (exclusive), stepping by the frame size; empty when `start >= end`.
    pub fn range(start: PhysFrame<S>, end: PhysFrame<S>) -> (r: PhysFrameRange<S>)
        ensures
            r.spec_cursor() == start@,
            r.spec_end() == end@,
    {
        proof {
            use_type_invariant(start);
            use_type_invariant(end);
        }
        PhysFrameRange {
            cursor: start.start_address().as_u64(),
            end: end.start_address().as_u64(),
            size: PhantomData,
        }
    }
}

/// A half-open range of consecutive frames, yielded in ascending order by
/// repeated calls to [`PhysFrameRange::next`]. Copying the range restarts
/// it.
#[derive(Debug, PartialEq, Eq)]
pub struct PhysFrameRange<S: PageSize> {
    cursor: u64,
    end: u64,
    size: PhantomData<S>,
}

impl<S: PageSize> Copy for PhysFrameRange<S> {

}

impl<S: PageSize> Clone for PhysFrameRange<S> {
    fn clone(&self) -> (r: Self)
        ensures
            r == *self,
    {
        *self
    }
}

impl<S: PageSize> PhysFrameRange<S> {
    /// The start address of the next frame to be yielded.
    pub closed spec fn spec_cursor(self) -> u64 {
        self.cursor
    }

    /// The first address beyond the range.
    pub closed spec fn spec_end(self) -> u64 {
        self.end
    }

    /// The number of frames not yet yielded.
    pub open spec fn spec_len(self) -> int {
        if self.spec_cursor() < self.spec_end() {
            (self.spec_end() - self.spec_cursor()) / (S::spec_size() as int)
        } else {
            0
        }
    }

    /// Both bounds stay aligned and within the physical address width.
    #[verifier::type_invariant]
    spec fn wf(self) -> bool {
        &&& self.cursor % S::spec_size() == 0
        &&& self.end % S::spec_size() == 0
        &&& self.end < PHYS_ADDR_SPACE
        &&& (self.cursor < self.end ==> self.cursor < PHYS_ADDR_SPACE)
    }

    /// Whether the range has no frames left.
    pub fn is_empty(&self) -> (r: bool)
        ensures
            r <==> self.spec_cursor() >= self.spec_end(),
    {
        self.cursor >= self.end
    }

    /// The number of frames not yet yielded.
    pub fn len(&self) -> (r: u64)
        ensures
            r as int == self.spec_len(),
    {
        proof {
            use_type_invariant(self);
            S::size_facts();
        }
        if self.cursor < self.end {
            (self.end - self.cursor) / S::size()
        } else {
            0
        }
    }

    /// Yields the next frame and advances the cursor by one frame size, or
    /// reports `None`, leaving the range unchanged, exactly when the range
    /// is exhausted.
    pub fn next(&mut self) -> (r: Option<PhysFrame<S>>)
        ensures
            old(self).spec_cursor() >= old(self).spec_end() ==> r is None && *final(self) == *old(
                self,
            ),
            old(self).spec_cursor() < old(self).spec_end() ==> {
                &&& r matches Some(f) && f@ == old(self).spec_cursor()
                &&& final(self).spec_cursor() == old(self).spec_cursor() + S::spec_size()
                &&& final(self).spec_end() == old(self).spec_end()
                &&& final(self).spec_len() == old(self).spec_len() - 1
            },
    {
        proof {
            use_type_invariant(&*self);
            S::size_facts();
        }
        if self.cursor < self.end {
            proof {
                lemma_multiple_gap(self.cursor as int, self.end as int, S::spec_size() as int);
                lemma_step_shrinks(self.cursor, self.end, S::spec_size());
                vstd::arithmetic::div_mod::lemma_mod_multiples_vanish(
                    1,
                    self.cursor as int,
                    S::spec_size() as int,
                );
            }
            let addr = PhysAddr::new_truncate(self.cursor);
            let frame = PhysFrame { start: addr, size: PhantomData };
            self.cursor = self.cursor + S::size();
            Some(frame)
        } else {
            None
        }
    }
}

} // verus!
