//! The simple memory-encryption addressing scheme: a single fixed bit of a
//! physical address (the C-bit) marks a page as encrypted, and there is no
//! key identifier.

use vstd::prelude::*;

use crate::HostPhysAddr;
use crate::HostVirtAddr;
use crate::PhysAddr;

verus! {

/// Bit mask of the encryption bit: bit 47 of a physical address. Addressable
/// bits lie below it.
pub const SME_C_BIT: u64 = 0x0000_8000_0000_0000;

/// Mask of the addressable bits of a physical address: everything below the
/// encryption bit.
pub const SME_FRAME_MASK: u64 = SME_C_BIT - 1;

/// `paddr` with the encryption bit set; every other bit is kept.
pub open spec fn spec_phys_encrypted(paddr: u64) -> u64 {
    paddr | SME_C_BIT
}

/// Bare frame address of `paddr`: the bits below the encryption bit, with
/// the encryption bit and everything above it cleared.
pub open spec fn spec_strip_encryption(paddr: u64) -> u64 {
    paddr & SME_FRAME_MASK
}

/// Virtual address that `paddr` translates to under the translation offset:
/// the bare frame address plus the offset. The result is an unbounded
/// integer; the executable translation demands that it fit the address
/// width.
pub open spec fn spec_phys_to_virt(paddr: u64, phys_virt_offset: u64) -> int {
    spec_strip_encryption(paddr) + phys_virt_offset
}

/// Marks a physical address as encrypted by setting the encryption bit. No
/// bit is cleared: the caller hands in a clean address without stray high
/// bits.
pub fn phys_encrypted(paddr: PhysAddr) -> (r: PhysAddr)
    ensures
        r == spec_phys_encrypted(paddr),
{
    paddr | SME_C_BIT
}

/// Translates a host physical address to the host virtual address it is
/// mapped at: strips the encryption bit and everything above it, recovering
/// the bare frame address, then adds the translation offset. Encrypted and
/// unencrypted views of one frame thus map to the same virtual address. The
/// translated address must fit in the address width.
pub fn phys_to_virt(paddr: HostPhysAddr, phys_virt_offset: u64) -> (r: HostVirtAddr)
    requires
        spec_phys_to_virt(paddr, phys_virt_offset) <= u64::MAX,
    ensures
        r == spec_phys_to_virt(paddr, phys_virt_offset),
{
    (paddr & SME_FRAME_MASK) + phys_virt_offset
}

/// Law: on a physical address whose encryption bit is clear, marking it as
/// encrypted sets exactly the designated bit and leaves every other bit
/// unchanged.
pub proof fn lemma_phys_encrypted_sets_only_c_bit(paddr: u64)
    requires
        paddr & SME_C_BIT == 0,
    ensures
        spec_phys_encrypted(paddr) & SME_C_BIT == SME_C_BIT,
        spec_phys_encrypted(paddr) & !SME_C_BIT == paddr,
{
    assert(spec_phys_encrypted(paddr) & SME_C_BIT == SME_C_BIT && spec_phys_encrypted(paddr)
        & !SME_C_BIT == paddr) by (bit_vector)
        requires
            paddr & SME_C_BIT == 0,
    ;
}

/// Law: stripping encryption metadata erases the mark, so the encrypted and
/// the bare view of one frame translate to the same virtual address.
pub proof fn lemma_phys_to_virt_of_encrypted(paddr: u64, phys_virt_offset: u64)
    ensures
        spec_phys_to_virt(spec_phys_encrypted(paddr), phys_virt_offset) == spec_phys_to_virt(
            paddr,
            phys_virt_offset,
        ),
{
    assert(spec_strip_encryption(spec_phys_encrypted(paddr)) == spec_strip_encryption(paddr))
        by (bit_vector);
}

} // verus!
