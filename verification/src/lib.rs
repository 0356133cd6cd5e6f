//! Address-translation primitives for a bare-metal hypervisor: conversions
//! between host virtual and host physical addresses, page-alignment
//! arithmetic, and the encoding of per-page memory-encryption metadata into
//! the high bits of a physical address.
//!
//! The crate is a stateless arithmetic layer. Translation functions take the
//! process-wide virtual-to-physical offset as an argument; the surrounding
//! program derives it once from its load configuration (see
//! [`translate::translation_offset`]) and caches it.
//!
//! Exactly one of the two memory-encryption addressing schemes is active in a
//! given deployment: the single fixed encryption bit of [`sme`], or the
//! multi-bit key-identifier field of [`mktme`]. A build uses one module and
//! ignores the other.

use vstd::prelude::*;

pub mod mktme;
pub mod paging;
pub mod sme;
pub mod translate;

verus! {

/// A virtual address: a byte location in some virtual address space.
pub type VirtAddr = u64;

/// A physical address: a byte location in physical memory, possibly carrying
/// encryption metadata in its high bits.
pub type PhysAddr = u64;

/// A virtual address of a guest virtual machine.
pub type GuestVirtAddr = u64;

/// A physical address as seen by a guest virtual machine.
pub type GuestPhysAddr = u64;

/// A virtual address in the hypervisor's own address space.
pub type HostVirtAddr = VirtAddr;

/// A physical address in the host's address space.
pub type HostPhysAddr = PhysAddr;

} // verus!
