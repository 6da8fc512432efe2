use stage0_bin_tdx::{
    AttestationProviderConfig, AttestationType, BootContext, ClientAttestationProvider,
    FatalBootError, PageAssignment, PageDescriptor, PageEncryption, PageSize, PageTableSpace,
    ServerAttestationProvider, Tdx,
};
use x86_64::structures::paging::{PageTable, PageTableFlags};
use x86_64::PhysAddr;

fn platform(width: u32) -> Tdx {
    Tdx::new(BootContext::new(width, 0).unwrap())
}

fn link(table: &mut PageTable, index: usize, addr: u64) {
    table[index].set_addr(PhysAddr::new(addr), PageTableFlags::PRESENT | PageTableFlags::WRITABLE);
}

#[test]
fn mask_is_zero_for_encrypted_memory() {
    assert_eq!(platform(48).page_table_mask(PageEncryption::Encrypted), 0);
    assert_eq!(platform(52).page_table_mask(PageEncryption::Encrypted), 0);
}

#[test]
fn mask_is_the_shared_bit_for_unencrypted_memory() {
    assert_eq!(platform(48).page_table_mask(PageEncryption::Unencrypted), 1u64 << 47);
    assert_eq!(platform(52).page_table_mask(PageEncryption::Unencrypted), 1u64 << 51);
}

#[test]
fn encrypted_reports_the_indicator_bit() {
    assert_eq!(platform(48).encrypted(), 0x0000_8000_0000_0000);
    assert_eq!(platform(52).encrypted(), 0x0008_0000_0000_0000);
}

#[test]
fn platform_keeps_its_context() {
    let ctx = BootContext::new(52, 7).unwrap();
    let tdx = Tdx::new(ctx);
    assert_eq!(tdx.context().gpaw(), 52);
    assert_eq!(tdx.context().ap_in_64bit_count(), 7);
}

#[test]
fn early_initialization_traces_start_and_end() {
    let mut out: Vec<u8> = Vec::new();
    Tdx::early_initialize_platform(&mut out);
    assert_eq!(
        out,
        b"early_initialize_platform\nearly_initialize_platform completed\n".to_vec()
    );
}

#[test]
fn change_page_state_sets_and_clears_the_leaf() {
    let mut root = PageTable::new();
    link(&mut root, 1, 0x2000);
    let mut p3 = PageTable::new();
    link(&mut p3, 2, 0x3000);
    let mut p2 = PageTable::new();
    link(&mut p2, 3, 0x4000);
    let mut p1 = PageTable::new();
    link(&mut p1, 4, 0xa000);
    let mut space = PageTableSpace::new();
    assert!(space.insert(0x1000, root));
    assert!(space.insert(0x2000, p3));
    assert!(space.insert(0x3000, p2));
    assert!(space.insert(0x4000, p1));

    let base: u64 = (1u64 << 39) | (2u64 << 30) | (3u64 << 21) | (4u64 << 12);
    let page = PageDescriptor { base, size: PageSize::Size4KiB };
    let tdx = platform(52);

    tdx.change_page_state(&mut space, 0x1000, page, PageAssignment::Shared);
    assert_eq!(space.entry(0x4000, 4), Some(0xa003 | (1u64 << 51)));
    assert_eq!(space.entry(0x3000, 3), Some(0x4003));
    assert_eq!(space.entry(0x2000, 2), Some(0x3003));
    assert_eq!(space.entry(0x1000, 1), Some(0x2003));

    tdx.change_page_state(&mut space, 0x1000, page, PageAssignment::Private);
    assert_eq!(space.entry(0x4000, 4), Some(0xa003));
}

#[test]
fn capabilities_not_provided_say_so() {
    let tdx = platform(48);
    let page = PageDescriptor { base: 0x1000, size: PageSize::Size4KiB };
    assert_eq!(tdx.deinit_platform(), Err(FatalBootError::UnimplementedCapability));
    assert_eq!(tdx.revalidate_page(page), Err(FatalBootError::UnimplementedCapability));
    assert_eq!(tdx.get_derived_key(), Err(FatalBootError::UnimplementedCapability));
    assert_eq!(tdx.tee_platform(), Err(FatalBootError::UnimplementedCapability));
    assert_eq!(
        tdx.get_attestation([0u8; 64]).err(),
        Some(FatalBootError::UnimplementedCapability)
    );
    let mut zero_page: Vec<u8> = vec![7u8; 16];
    assert_eq!(
        tdx.populate_zero_page(&mut zero_page),
        Err(FatalBootError::UnimplementedCapability)
    );
    assert_eq!(zero_page, vec![7u8; 16]);
}

#[test]
fn attestation_providers_keep_their_configuration() {
    for attestation_type in [
        AttestationType::Bidirectional,
        AttestationType::SelfUnidirectional,
        AttestationType::PeerUnidirectional,
        AttestationType::Unattested,
    ] {
        let config = AttestationProviderConfig { attestation_type };
        assert_eq!(ClientAttestationProvider::new(config).config(), config);
        assert_eq!(ServerAttestationProvider::new(config).config(), config);
    }
}
