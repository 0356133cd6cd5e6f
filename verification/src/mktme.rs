//! The keyed memory-encryption addressing scheme: a multi-bit key-identifier
//! field in the high bits of a physical address selects the encryption key
//! for a page. A zero identifier means unencrypted; marking a page as
//! encrypted imprints the default identifier.

use vstd::prelude::*;

use crate::HostPhysAddr;
use crate::HostVirtAddr;
use crate::PhysAddr;

verus! {

/// Bit mask of the key-identifier field: bits 51 down to 46 of a physical
/// address.
pub const MKTME_KEYID_MASK: u64 = 0x000F_C000_0000_0000;

/// Position of the key-identifier field's lowest bit.
pub const MKTME_KEYID_SHIFT: u64 = 46;

/// Value of the key-identifier field's lowest bit; the addressable bits of a
/// physical address lie below it.
pub const MKTME_KEYID_OFFSET: u64 = 0x0000_4000_0000_0000;

/// Mask of the addressable bits of a physical address: everything below the
/// key-identifier field.
pub const MKTME_FRAME_MASK: u64 = MKTME_KEYID_OFFSET - 1;

/// Width mask of a key identifier: the field holds six bits, and a wider
/// identifier is silently truncated to them.
pub const MKTME_KEYID_WIDTH_MASK: u64 = 0x3F;

/// Key identifier imprinted when the caller does not pick one.
pub const MKTME_DEFAULT_KEYID: u64 = 1;

/// `paddr` with its key-identifier field cleared and then set to `keyid`,
/// truncated to the field's width; every bit outside the field is kept.
pub open spec fn spec_phys_encrypted_with_keyid(paddr: u64, keyid: u64) -> u64 {
    (paddr & !MKTME_KEYID_MASK) | ((keyid & MKTME_KEYID_WIDTH_MASK) << MKTME_KEYID_SHIFT)
}

/// `paddr` with the default key identifier imprinted.
pub open spec fn spec_phys_encrypted(paddr: u64) -> u64 {
    spec_phys_encrypted_with_keyid(paddr, MKTME_DEFAULT_KEYID)
}

/// Bare frame address of `paddr`: the bits below the key-identifier field,
/// with the field and everything above it cleared.
pub open spec fn spec_strip_encryption(paddr: u64) -> u64 {
    paddr & MKTME_FRAME_MASK
}

/// Virtual address that `paddr` translates to under the translation offset:
/// the bare frame address plus the offset. The result is an unbounded
/// integer; the executable translation demands that it fit the address
/// width.
pub open spec fn spec_phys_to_virt(paddr: u64, phys_virt_offset: u64) -> int {
    spec_strip_encryption(paddr) + phys_virt_offset
}

/// Marks a physical address as encrypted under the default key identifier.
pub fn phys_encrypted(paddr: PhysAddr) -> (r: PhysAddr)
    ensures
        r == spec_phys_encrypted(paddr),
{
    phys_encrypted_with_keyid(paddr, MKTME_DEFAULT_KEYID)
}

/// Imprints `keyid` into the key-identifier field of a physical address:
/// clears the field, truncates the identifier to the field's width, and ORs
/// it in at the field's position. An out-of-range identifier is truncated,
/// not rejected.
pub fn phys_encrypted_with_keyid(paddr: PhysAddr, keyid: u64) -> (r: PhysAddr)
    ensures
        r == spec_phys_encrypted_with_keyid(paddr, keyid),
{
    let cleared_paddr: u64 = paddr & !MKTME_KEYID_MASK;
    let keyid_bits: u64 = keyid & MKTME_KEYID_WIDTH_MASK;
    proof {
        assert(keyid_bits << MKTME_KEYID_SHIFT <= u64::MAX) by (bit_vector)
            requires
                keyid_bits == keyid & MKTME_KEYID_WIDTH_MASK,
        ;
    }
    cleared_paddr | (keyid_bits << MKTME_KEYID_SHIFT)
}

/// Translates a host physical address to the host virtual address it is
/// mapped at: strips the key-identifier field and everything above it,
/// recovering the bare frame address, then adds the translation offset.
/// Encrypted and unencrypted views of one frame thus map to the same virtual
/// address. The translated address must fit in the address width.
pub fn phys_to_virt(paddr: HostPhysAddr, phys_virt_offset: u64) -> (r: HostVirtAddr)
    requires
        spec_phys_to_virt(paddr, phys_virt_offset) <= u64::MAX,
    ensures
        r == spec_phys_to_virt(paddr, phys_virt_offset),
{
    (paddr & MKTME_FRAME_MASK) + phys_virt_offset
}

/// Law: whatever the field held before, the key-identifier field of an
/// address marked with `keyid` equals `keyid` truncated to the field's
/// width, and every bit outside the field is unchanged.
pub proof fn lemma_phys_encrypted_with_keyid_field(paddr: u64, keyid: u64)
    ensures
        spec_phys_encrypted_with_keyid(paddr, keyid) & MKTME_KEYID_MASK == ((keyid
            & MKTME_KEYID_WIDTH_MASK) << MKTME_KEYID_SHIFT),
        spec_phys_encrypted_with_keyid(paddr, keyid) & !MKTME_KEYID_MASK == paddr
            & !MKTME_KEYID_MASK,
{
    assert(spec_phys_encrypted_with_keyid(paddr, keyid) & MKTME_KEYID_MASK == ((keyid
        & MKTME_KEYID_WIDTH_MASK) << MKTME_KEYID_SHIFT) && spec_phys_encrypted_with_keyid(
        paddr,
        keyid,
    ) & !MKTME_KEYID_MASK == paddr & !MKTME_KEYID_MASK) by (bit_vector);
}

/// Law: marking an address as encrypted sets its key-identifier field to the
/// default identifier, regardless of the field's prior contents.
pub proof fn lemma_phys_encrypted_default_keyid(paddr: u64)
    ensures
        spec_phys_encrypted(paddr) & MKTME_KEYID_MASK == (MKTME_DEFAULT_KEYID
            << MKTME_KEYID_SHIFT),
{
    lemma_phys_encrypted_with_keyid_field(paddr, MKTME_DEFAULT_KEYID);
    assert((MKTME_DEFAULT_KEYID & MKTME_KEYID_WIDTH_MASK) << MKTME_KEYID_SHIFT
        == MKTME_DEFAULT_KEYID << MKTME_KEYID_SHIFT) by (bit_vector);
}

/// Law: stripping encryption metadata erases any imprinted key identifier,
/// so a frame marked under any identifier and the bare view of the same
/// frame translate to the same virtual address.
pub proof fn lemma_phys_to_virt_of_encrypted_with_keyid(
    paddr: u64,
    keyid: u64,
    phys_virt_offset: u64,
)
    ensures
        spec_phys_to_virt(spec_phys_encrypted_with_keyid(paddr, keyid), phys_virt_offset)
            == spec_phys_to_virt(paddr, phys_virt_offset),
{
    assert(spec_strip_encryption(spec_phys_encrypted_with_keyid(paddr, keyid))
        == spec_strip_encryption(paddr)) by (bit_vector);
}

/// Law: the round trip with the default key identifier, stated directly.
pub proof fn lemma_phys_to_virt_of_encrypted(paddr: u64, phys_virt_offset: u64)
    ensures
        spec_phys_to_virt(spec_phys_encrypted(paddr), phys_virt_offset) == spec_phys_to_virt(
            paddr,
            phys_virt_offset,
        ),
{
    lemma_phys_to_virt_of_encrypted_with_keyid(paddr, MKTME_DEFAULT_KEYID, phys_virt_offset);
}

} // verus!
