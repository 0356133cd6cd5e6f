//! Page-alignment arithmetic: rounding addresses to page boundaries, testing
//! alignment, counting pages, and extracting the in-page offset.

use vstd::prelude::*;

verus! {

/// Size in bytes of one page. A power of two, so masking with
/// `PAGE_SIZE - 1` is the same as reducing modulo `PAGE_SIZE`.
pub const PAGE_SIZE: u64 = 4096;

/// Mask of the in-page offset bits: `PAGE_SIZE - 1`.
pub const PAGE_MASK: u64 = PAGE_SIZE - 1;

/// Byte offset of `addr` within its enclosing page.
pub open spec fn spec_page_offset(addr: u64) -> u64 {
    addr % PAGE_SIZE
}

/// Whether `addr` lies exactly on a page boundary.
pub open spec fn spec_is_aligned(addr: u64) -> bool {
    spec_page_offset(addr) == 0
}

/// Largest page-aligned address that is at most `addr`.
pub open spec fn spec_align_down(addr: u64) -> u64 {
    (addr - spec_page_offset(addr)) as u64
}

/// Smallest page-aligned value that is at least `addr`. The result is an
/// unbounded integer: for the top page of the address space it exceeds
/// `u64::MAX`.
pub open spec fn spec_align_up(addr: u64) -> int {
    let bumped = addr + PAGE_SIZE - 1;
    bumped - bumped % (PAGE_SIZE as int)
}

/// Number of whole pages needed to cover `size` bytes, partial pages
/// rounding up.
pub open spec fn spec_page_count(size: u64) -> int {
    spec_align_up(size) / (PAGE_SIZE as int)
}

/// Rounds `addr` down to the enclosing page boundary by clearing the low
/// bits.
pub fn align_down(addr: u64) -> (r: u64)
    ensures
        r == spec_align_down(addr),
{
    proof {
        assert(addr & !PAGE_MASK == addr - addr % PAGE_SIZE) by (bit_vector);
    }
    addr & !PAGE_MASK
}

/// Rounds `addr` up to the next page boundary; an already aligned address is
/// returned unchanged. The rounded value must fit in the address width.
pub fn align_up(addr: u64) -> (r: u64)
    requires
        addr + PAGE_SIZE - 1 <= u64::MAX,
    ensures
        r == spec_align_up(addr),
{
    let bumped: u64 = addr + PAGE_MASK;
    proof {
        assert(bumped & !PAGE_MASK == bumped - bumped % PAGE_SIZE) by (bit_vector);
    }
    bumped & !PAGE_MASK
}

/// Whether `addr` lies exactly on a page boundary; equivalently, whether its
/// in-page offset is zero.
pub fn is_aligned(addr: u64) -> (r: bool)
    ensures
        r == spec_is_aligned(addr),
        r == (spec_page_offset(addr) == 0),
{
    page_offset(addr) == 0
}

/// Number of whole pages needed to cover `size` bytes, partial pages
/// rounding up. The rounded size must fit in the address width.
pub fn page_count(size: u64) -> (r: u64)
    requires
        size + PAGE_SIZE - 1 <= u64::MAX,
    ensures
        r == spec_page_count(size),
{
    align_up(size) / PAGE_SIZE
}

/// Byte offset of `addr` within its enclosing page.
pub fn page_offset(addr: u64) -> (r: u64)
    ensures
        r == spec_page_offset(addr),
{
    proof {
        assert(addr & PAGE_MASK == addr % PAGE_SIZE) by (bit_vector);
    }
    addr & PAGE_MASK
}

/// Law: rounding down never moves an address by a whole page — the result is
/// at most `addr` and `addr` lies strictly below the next page boundary.
pub proof fn lemma_align_down_bounds(addr: u64)
    ensures
        spec_align_down(addr) <= addr,
        addr < spec_align_down(addr) + PAGE_SIZE,
{
}

/// Law: an address with its in-page offset removed is a whole number of
/// pages.
proof fn lemma_align_down_is_aligned(addr: u64)
    ensures
        spec_align_down(addr) % PAGE_SIZE == 0,
{
    vstd::arithmetic::div_mod::lemma_fundamental_div_mod(addr as int, PAGE_SIZE as int);
    vstd::arithmetic::div_mod::lemma_mod_multiples_vanish(
        addr as int / PAGE_SIZE as int,
        0,
        PAGE_SIZE as int,
    );
}

/// Law: rounding up is the identity on aligned input, so rounding down and
/// then up returns the rounded-down address unchanged.
pub proof fn lemma_align_up_of_align_down(addr: u64)
    ensures
        spec_align_up(spec_align_down(addr)) == spec_align_down(addr),
{
    let down = spec_align_down(addr);
    lemma_align_down_is_aligned(addr);
    vstd::arithmetic::div_mod::lemma_fundamental_div_mod(down as int, PAGE_SIZE as int);
    vstd::arithmetic::div_mod::lemma_mod_multiples_vanish(
        down as int / PAGE_SIZE as int,
        PAGE_MASK as int,
        PAGE_SIZE as int,
    );
    vstd::arithmetic::div_mod::lemma_small_mod(PAGE_MASK as nat, PAGE_SIZE as nat);
}

/// Law: for a page-aligned size, the counted pages cover the size exactly —
/// at least `size` bytes, and less than one page beyond it.
pub proof fn lemma_page_count_covers(size: u64)
    requires
        spec_is_aligned(size),
    ensures
        spec_page_count(size) * PAGE_SIZE >= size,
        spec_page_count(size) * PAGE_SIZE < size + PAGE_SIZE,
{
    let quot = size as int / PAGE_SIZE as int;
    vstd::arithmetic::div_mod::lemma_fundamental_div_mod(size as int, PAGE_SIZE as int);
    vstd::arithmetic::div_mod::lemma_mod_multiples_vanish(quot, PAGE_MASK as int, PAGE_SIZE as int);
    vstd::arithmetic::div_mod::lemma_small_mod(PAGE_MASK as nat, PAGE_SIZE as nat);
    assert(spec_align_up(size) == size);
    vstd::arithmetic::div_mod::lemma_div_multiples_vanish(quot, PAGE_SIZE as int);
    assert(spec_page_count(size) * PAGE_SIZE == size);
}

/// Law: an address is aligned exactly when its in-page offset is zero.
pub proof fn lemma_is_aligned_iff_offset_zero(addr: u64)
    ensures
        spec_is_aligned(addr) == (spec_page_offset(addr) == 0),
{
}

} // verus!
