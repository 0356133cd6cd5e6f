use hvaddr::mktme;
use hvaddr::sme;
use hvaddr::translate::translation_offset;
use hvaddr::translate::virt_to_phys;

#[test]
fn translation_offset_is_base_minus_load_address() {
    assert_eq!(translation_offset(0xFFFF_FF00_0000_0000, 0x0100_0000), 0xFFFF_FEFF_FF00_0000);
    assert_eq!(translation_offset(0x1000, 0x1000), 0);
}

#[test]
fn virt_to_phys_subtracts_the_offset() {
    let offset = translation_offset(0xFFFF_FF00_0000_0000, 0x0100_0000);
    assert_eq!(virt_to_phys(0xFFFF_FF00_0000_1000, offset), 0x0100_1000);
}

#[test]
fn virt_to_phys_then_phys_to_virt_returns_the_address() {
    let offset: u64 = 0xFFFF_FEFF_FF00_0000;
    let vaddr: u64 = 0xFFFF_FF00_0000_1000;
    let paddr = virt_to_phys(vaddr, offset);
    // The bare physical address carries no encryption bits, so either
    // scheme's physical-to-virtual translation recovers the virtual address.
    assert_eq!(sme::phys_to_virt(paddr, offset), vaddr);
    assert_eq!(mktme::phys_to_virt(paddr, offset), vaddr);
}

#[test]
fn phys_to_virt_is_encryption_transparent() {
    let offset: u64 = 0xFFFF_FEFF_FF00_0000;
    let paddr: u64 = 0x0100_1000;
    assert_eq!(
        sme::phys_to_virt(sme::phys_encrypted(paddr), offset),
        sme::phys_to_virt(paddr, offset)
    );
    assert_eq!(
        mktme::phys_to_virt(mktme::phys_encrypted(paddr), offset),
        mktme::phys_to_virt(paddr, offset)
    );
}
