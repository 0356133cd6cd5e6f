use hvaddr::mktme;
use hvaddr::sme;

#[test]
fn sme_phys_encrypted_sets_bit_47() {
    assert_eq!(sme::phys_encrypted(0x1000), 0x1000 | (1 << 47));
}

#[test]
fn sme_phys_encrypted_changes_only_the_c_bit() {
    for paddr in [0u64, 0x1000, 0x7FFF_FFFF_F000, 0x1234_5678_9ABC] {
        let marked = sme::phys_encrypted(paddr);
        assert_eq!(marked & sme::SME_C_BIT, sme::SME_C_BIT);
        assert_eq!(marked & !sme::SME_C_BIT, paddr);
    }
}

#[test]
fn sme_phys_to_virt_strips_the_c_bit() {
    let bare: u64 = 0x1000;
    let marked = sme::phys_encrypted(bare);
    assert_eq!(sme::phys_to_virt(marked, 0x100), 0x1100);
    assert_eq!(sme::phys_to_virt(bare, 0x100), sme::phys_to_virt(marked, 0x100));
}

#[test]
fn mktme_phys_encrypted_imprints_default_keyid() {
    let marked = mktme::phys_encrypted(0x2000);
    assert_eq!(marked, (0x2000 & !mktme::MKTME_KEYID_MASK) | (1 << 46));
    assert_eq!(marked, 0x0000_4000_0000_2000);
}

#[test]
fn mktme_keyid_field_is_overwritten() {
    // The field already holds key identifier 3; marking replaces it with 1.
    let dirty: u64 = 0x0000_C000_0000_2000;
    let marked = mktme::phys_encrypted(dirty);
    assert_eq!(marked & mktme::MKTME_KEYID_MASK, 1 << 46);
    assert_eq!(marked & !mktme::MKTME_KEYID_MASK, 0x2000);
}

#[test]
fn mktme_phys_encrypted_with_keyid_places_the_field() {
    let marked = mktme::phys_encrypted_with_keyid(0x2000, 3);
    assert_eq!(marked, 0x2000 | (3 << 46));
    let cleared = mktme::phys_encrypted_with_keyid(marked, 0);
    assert_eq!(cleared, 0x2000);
}

#[test]
fn mktme_wide_keyid_is_truncated() {
    let wide = mktme::phys_encrypted_with_keyid(0x2000, 0x7F);
    let narrow = mktme::phys_encrypted_with_keyid(0x2000, 0x3F);
    assert_eq!(wide, narrow);
}

#[test]
fn mktme_phys_to_virt_strips_the_keyid_field() {
    let bare: u64 = 0x2000;
    for keyid in [0u64, 1, 3, 0x3F] {
        let marked = mktme::phys_encrypted_with_keyid(bare, keyid);
        assert_eq!(mktme::phys_to_virt(marked, 0x50), 0x2050);
        assert_eq!(mktme::phys_to_virt(marked, 0x50), mktme::phys_to_virt(bare, 0x50));
    }
}
