//! Host virtual-to-physical translation and the derivation of the
//! translation offset from the hypervisor's load configuration.
//!
//! The hypervisor is linked at a fixed virtual base and loaded at a
//! configured physical address; the difference between the two is a constant
//! for the life of the process. The surrounding program computes it once with
//! [`translation_offset`] and passes it to every translation call. The
//! physical-to-virtual direction additionally strips encryption metadata and
//! therefore lives with its scheme, in [`crate::sme`] and [`crate::mktme`].

use vstd::prelude::*;

use crate::HostPhysAddr;
use crate::HostVirtAddr;

verus! {

/// Difference between the hypervisor's fixed virtual base and its configured
/// physical load address. The base must not lie below the load address.
pub fn translation_offset(hv_base: HostVirtAddr, phys_start: HostPhysAddr) -> (r: u64)
    requires
        phys_start <= hv_base,
    ensures
        r == hv_base - phys_start,
{
    hv_base - phys_start
}

/// Translates a host virtual address to the physical address it is mapped
/// at, by subtracting the translation offset. No bits are stripped: a
/// virtual address is assumed to carry no encryption metadata, and any
/// spurious high bits would propagate into the result. The address must not
/// lie below the offset.
pub fn virt_to_phys(vaddr: HostVirtAddr, phys_virt_offset: u64) -> (r: HostPhysAddr)
    requires
        phys_virt_offset <= vaddr,
    ensures
        r == vaddr - phys_virt_offset,
{
    vaddr - phys_virt_offset
}

} // verus!
