use stage0_bin_tdx::{
    get_tdx_shared_bit, locate_leaf, pt_entry_set_shared_bit, pt_set_shared_bit, tdx_shared_mask,
    BootContext, FatalBootError, LeafSlot, PageDescriptor, PageSize, PageTableSpace,
};
use x86_64::structures::paging::{PageTable, PageTableFlags};
use x86_64::PhysAddr;

const ROOT: u64 = 0x1000;
const P3: u64 = 0x2000;
const P2: u64 = 0x3000;
const P1: u64 = 0x4000;

const PRESENT_WRITABLE: u64 = 0b011;

fn context(width: u32) -> BootContext {
    BootContext::new(width, 0).unwrap()
}

fn set(table: &mut PageTable, index: usize, addr: u64, flags: u64) {
    table[index].set_addr(PhysAddr::new(addr), PageTableFlags::from_bits_retain(flags));
}

/// A hierarchy that maps the page at 0x20_3000 through the entries
/// (ROOT, 0), (P3, 0), (P2, 1) and (P1, 3).
fn hierarchy(leaf_addr: u64, leaf_flags: u64) -> PageTableSpace {
    let mut root = PageTable::new();
    set(&mut root, 0, P3, PRESENT_WRITABLE);
    let mut p3 = PageTable::new();
    set(&mut p3, 0, P2, PRESENT_WRITABLE);
    set(&mut p3, 5, 0x4000_0000, 0x83);
    let mut p2 = PageTable::new();
    set(&mut p2, 1, P1, PRESENT_WRITABLE);
    set(&mut p2, 7, 0x00e0_0000, 0x83);
    let mut p1 = PageTable::new();
    set(&mut p1, 3, leaf_addr, leaf_flags);
    set(&mut p1, 4, 0x0020_4000, PRESENT_WRITABLE);
    let mut space = PageTableSpace::new();
    assert!(space.insert(ROOT, root));
    assert!(space.insert(P3, p3));
    assert!(space.insert(P2, p2));
    assert!(space.insert(P1, p1));
    space
}

fn snapshot(space: &PageTableSpace, base: u64) -> Vec<u64> {
    let mut entries: Vec<u64> = Vec::new();
    for index in 0u16..512 {
        entries.push(space.entry(base, index).unwrap());
    }
    entries
}

fn page_4k() -> PageDescriptor {
    PageDescriptor { base: 0x0020_3000, size: PageSize::Size4KiB }
}

#[test]
fn shared_bit_is_width_minus_one() {
    assert_eq!(get_tdx_shared_bit(&context(48)), 47);
    assert_eq!(get_tdx_shared_bit(&context(52)), 51);
    assert_eq!(tdx_shared_mask(&context(48)), 1u64 << 47);
    assert_eq!(tdx_shared_mask(&context(52)), 1u64 << 51);
}

#[test]
fn context_keeps_its_values() {
    let ctx = BootContext::new(52, 3).unwrap();
    assert_eq!(ctx.gpaw(), 52);
    assert_eq!(ctx.ap_in_64bit_count(), 3);
}

#[test]
fn context_refuses_other_widths() {
    for width in [0u32, 47, 49, 51, 53, 60, 64, u32::MAX] {
        assert_eq!(BootContext::new(width, 0).err(), Some(FatalBootError::InvalidAddressWidth));
    }
}

#[test]
fn page_indices_come_from_the_address() {
    let page = PageDescriptor { base: 0x0000_7fc0_8060_5000, size: PageSize::Size4KiB };
    assert_eq!(page.p4_index(), 255);
    assert_eq!(page.p3_index(), 258);
    assert_eq!(page.p2_index(), 3);
    assert_eq!(page.p1_index(), 5);
    let top = PageDescriptor { base: u64::MAX, size: PageSize::Size1GiB };
    assert_eq!(top.p4_index(), 511);
    assert_eq!(top.p3_index(), 511);
    assert_eq!(top.p2_index(), 511);
    assert_eq!(top.p1_index(), 511);
}

#[test]
fn page_indices_agree_with_the_address_type() {
    let base: u64 = 0x0000_7fc0_8060_5000;
    let addr = x86_64::VirtAddr::new(base);
    let page = PageDescriptor { base, size: PageSize::Size4KiB };
    assert_eq!(page.p4_index(), u16::from(addr.p4_index()));
    assert_eq!(page.p3_index(), u16::from(addr.p3_index()));
    assert_eq!(page.p2_index(), u16::from(addr.p2_index()));
    assert_eq!(page.p1_index(), u16::from(addr.p1_index()));
}

#[test]
fn page_sizes_in_bytes() {
    assert_eq!(PageSize::Size4KiB.bytes(), 4096);
    assert_eq!(PageSize::Size2MiB.bytes(), 2 * 1024 * 1024);
    assert_eq!(PageSize::Size1GiB.bytes(), 1024 * 1024 * 1024);
    assert_eq!(PageSize::Size4KiB.leaf_level(), 1);
    assert_eq!(PageSize::Size2MiB.leaf_level(), 2);
    assert_eq!(PageSize::Size1GiB.leaf_level(), 3);
    assert_eq!(PageDescriptor { base: 0, size: PageSize::Size2MiB }.size(), 0x20_0000);
}

#[test]
fn entry_set_shared_then_private_width_48() {
    let mut table = PageTable::new();
    set(&mut table, 9, 0x5000, PRESENT_WRITABLE);
    let ctx = context(48);

    pt_entry_set_shared_bit(&mut table, 9, true, &ctx);
    assert_eq!(table[9].addr().as_u64(), 0x5000 | (1u64 << 47));
    assert_eq!(table[9].flags().bits(), PRESENT_WRITABLE);

    pt_entry_set_shared_bit(&mut table, 9, false, &ctx);
    assert_eq!(table[9].addr().as_u64(), 0x5000);
    assert_eq!(table[9].flags().bits(), PRESENT_WRITABLE);
}

#[test]
fn entry_set_shared_width_52_uses_bit_51() {
    let mut table = PageTable::new();
    set(&mut table, 511, 0x0000_7fff_ffff_f000, 0x8000_0000_0000_0fff);
    let ctx = context(52);
    pt_entry_set_shared_bit(&mut table, 511, true, &ctx);
    assert_eq!(table[511].addr().as_u64(), 0x0008_7fff_ffff_f000);
    assert_eq!(table[511].flags().bits(), 0x8000_0000_0000_0fff);
    for index in 0usize..511 {
        assert!(table[index].is_unused());
    }
}

#[test]
fn entry_toggling_keeps_arbitrary_flags() {
    let flags: u64 = 0xfff0_0000_0000_0fff;
    for width in [48u32, 52] {
        let ctx = context(width);
        let mut table = PageTable::new();
        set(&mut table, 0, 0x0000_1234_5678_9000 & !(1u64 << 47), flags);
        for shared in [true, false, true] {
            pt_entry_set_shared_bit(&mut table, 0, shared, &ctx);
            assert_eq!(table[0].flags().bits(), flags);
            let bit: u64 = table[0].addr().as_u64() & (1u64 << (width - 1));
            assert_eq!(bit != 0, shared);
        }
    }
}

#[test]
fn entry_setting_twice_is_setting_once() {
    let ctx = context(48);
    let mut table = PageTable::new();
    set(&mut table, 1, 0x7000, 0x1);
    pt_entry_set_shared_bit(&mut table, 1, true, &ctx);
    pt_entry_set_shared_bit(&mut table, 1, true, &ctx);
    assert_eq!(table[1].addr().as_u64(), 0x7000 | (1u64 << 47));
    pt_entry_set_shared_bit(&mut table, 1, false, &ctx);
    pt_entry_set_shared_bit(&mut table, 1, false, &ctx);
    assert_eq!(table[1].addr().as_u64(), 0x7000);
}

#[test]
fn space_holds_one_table_per_address() {
    let mut space = PageTableSpace::new();
    assert!(!space.contains(ROOT));
    assert_eq!(space.entry(ROOT, 0), None);

    let mut table = PageTable::new();
    set(&mut table, 2, 0x9000, 0x8000_0000_0000_0005);
    assert!(space.insert(ROOT, table));
    assert!(!space.insert(ROOT, PageTable::new()));
    assert!(space.contains(ROOT));
    assert_eq!(space.entry(ROOT, 2), Some(0x8000_0000_0000_9005));
    assert_eq!(space.entry(ROOT, 3), Some(0));

    let taken = space.remove(ROOT).unwrap();
    assert_eq!(taken[2].addr().as_u64(), 0x9000);
    assert_eq!(taken[2].flags().bits(), 0x8000_0000_0000_0005);
    assert!(space.remove(ROOT).is_none());
    assert!(!space.contains(ROOT));
}

#[test]
fn space_sets_one_entry_of_one_table() {
    let mut space = hierarchy(0x5000, PRESENT_WRITABLE);
    let before_p2 = snapshot(&space, P2);
    space.set_entry_state(P1, 4, true, &context(52));
    assert_eq!(space.entry(P1, 4), Some(0x0020_4000 | (1u64 << 51) | PRESENT_WRITABLE));
    assert_eq!(space.entry(P1, 3), Some(0x5000 | PRESENT_WRITABLE));
    assert_eq!(snapshot(&space, P2), before_p2);
}

#[test]
fn walk_finds_the_leaf_of_each_size() {
    let space = hierarchy(0x5000, PRESENT_WRITABLE);
    assert_eq!(locate_leaf(&space, ROOT, &page_4k()), Ok(LeafSlot { table: P1, index: 3 }));
    let page_2m = PageDescriptor { base: 0x0020_0000, size: PageSize::Size2MiB };
    assert_eq!(locate_leaf(&space, ROOT, &page_2m), Ok(LeafSlot { table: P2, index: 1 }));
    let page_1g = PageDescriptor { base: 0x1_4000_0000, size: PageSize::Size1GiB };
    assert_eq!(locate_leaf(&space, ROOT, &page_1g), Ok(LeafSlot { table: P3, index: 5 }));
}

#[test]
fn walk_names_the_missing_table() {
    let mut space = hierarchy(0x5000, PRESENT_WRITABLE);
    assert_eq!(locate_leaf(&space, 0x8000, &page_4k()), Err(0x8000));
    // The level-2 entry 7 refers to 0xe0_0000, where no table lives.
    let unmapped = PageDescriptor { base: 0x00e0_1000, size: PageSize::Size4KiB };
    assert_eq!(locate_leaf(&space, ROOT, &unmapped), Err(0x00e0_0000));
    // The same address as a 2 MiB page ends at the level-2 entry.
    let huge = PageDescriptor { base: 0x00e0_0000, size: PageSize::Size2MiB };
    assert_eq!(locate_leaf(&space, ROOT, &huge), Ok(LeafSlot { table: P2, index: 7 }));
    assert!(space.remove(P2).is_some());
    assert_eq!(locate_leaf(&space, ROOT, &page_4k()), Err(P2));
    assert!(space.remove(P3).is_some());
    assert_eq!(locate_leaf(&space, ROOT, &page_4k()), Err(P3));
}

#[test]
fn set_page_state_4k_width_48_scenario() {
    let ctx = context(48);
    let mut space = hierarchy(0x5000, PRESENT_WRITABLE);
    assert_eq!(space.entry(P1, 3).unwrap() & (1u64 << 47), 0);

    pt_set_shared_bit(&mut space, ROOT, &page_4k(), true, &ctx);
    let shared: u64 = space.entry(P1, 3).unwrap();
    assert_eq!(shared & (1u64 << 47), 1u64 << 47);
    assert_eq!(shared & 0xfff0_0000_0000_0fff, PRESENT_WRITABLE);
    assert_eq!(shared, 0x0000_8000_0000_5003);

    pt_set_shared_bit(&mut space, ROOT, &page_4k(), false, &ctx);
    let private: u64 = space.entry(P1, 3).unwrap();
    assert_eq!(private & (1u64 << 47), 0);
    assert_eq!(private & 0xfff0_0000_0000_0fff, PRESENT_WRITABLE);
    assert_eq!(private, 0x5003);
}

#[test]
fn shared_then_private_restores_every_table() {
    for width in [48u32, 52] {
        let ctx = context(width);
        let mut space = hierarchy(0x5000, 0x8000_0000_0000_0867);
        let before: Vec<Vec<u64>> =
            vec![snapshot(&space, ROOT), snapshot(&space, P3), snapshot(&space, P2), snapshot(&space, P1)];
        pt_set_shared_bit(&mut space, ROOT, &page_4k(), true, &ctx);
        assert_ne!(snapshot(&space, P1), before[3]);
        pt_set_shared_bit(&mut space, ROOT, &page_4k(), false, &ctx);
        let after: Vec<Vec<u64>> =
            vec![snapshot(&space, ROOT), snapshot(&space, P3), snapshot(&space, P2), snapshot(&space, P1)];
        assert_eq!(after, before);
    }
}

#[test]
fn giant_page_leaves_lower_levels_alone() {
    let ctx = context(48);
    let mut space = hierarchy(0x5000, PRESENT_WRITABLE);
    let root = snapshot(&space, ROOT);
    let p2 = snapshot(&space, P2);
    let p1 = snapshot(&space, P1);
    let mut p3 = snapshot(&space, P3);

    // The 1 GiB page that the level-3 entry 0 stands for: the level-2 and
    // level-1 tables lie beneath that entry.
    let page = PageDescriptor { base: 0, size: PageSize::Size1GiB };
    pt_set_shared_bit(&mut space, ROOT, &page, true, &ctx);

    assert_eq!(snapshot(&space, ROOT), root);
    assert_eq!(snapshot(&space, P2), p2);
    assert_eq!(snapshot(&space, P1), p1);
    p3[0] |= 1u64 << 47;
    assert_eq!(snapshot(&space, P3), p3);
}

#[test]
fn huge_page_changes_its_level_2_entry_only() {
    let ctx = context(52);
    let mut space = hierarchy(0x5000, PRESENT_WRITABLE);
    let root = snapshot(&space, ROOT);
    let p3 = snapshot(&space, P3);
    let p1 = snapshot(&space, P1);
    let mut p2 = snapshot(&space, P2);

    let page = PageDescriptor { base: 0x00e0_0000, size: PageSize::Size2MiB };
    pt_set_shared_bit(&mut space, ROOT, &page, true, &ctx);

    assert_eq!(snapshot(&space, ROOT), root);
    assert_eq!(snapshot(&space, P3), p3);
    assert_eq!(snapshot(&space, P1), p1);
    p2[7] = 0x0008_0000_00e0_0083;
    assert_eq!(snapshot(&space, P2), p2);
}

#[test]
fn small_page_leaves_its_ancestors_alone() {
    let ctx = context(52);
    let mut space = hierarchy(0x5000, PRESENT_WRITABLE);
    let root = snapshot(&space, ROOT);
    let p3 = snapshot(&space, P3);
    let p2 = snapshot(&space, P2);
    let mut p1 = snapshot(&space, P1);

    pt_set_shared_bit(&mut space, ROOT, &page_4k(), true, &ctx);

    assert_eq!(snapshot(&space, ROOT), root);
    assert_eq!(snapshot(&space, P3), p3);
    assert_eq!(snapshot(&space, P2), p2);
    p1[3] |= 1u64 << 51;
    assert_eq!(snapshot(&space, P1), p1);
    assert_eq!(locate_leaf(&space, ROOT, &page_4k()), Ok(LeafSlot { table: P1, index: 3 }));
}

#[test]
fn tables_come_back_out_as_they_are() {
    let ctx = context(48);
    let mut space = hierarchy(0x5000, PRESENT_WRITABLE);
    pt_set_shared_bit(&mut space, ROOT, &page_4k(), true, &ctx);
    let p1 = space.remove(P1).unwrap();
    assert_eq!(p1[3].addr(), PhysAddr::new(0x5000 | (1u64 << 47)));
    assert_eq!(p1[3].flags(), PageTableFlags::PRESENT | PageTableFlags::WRITABLE);
    assert_eq!(p1[4].addr(), PhysAddr::new(0x0020_4000));
    assert!(p1[5].is_unused());
}
