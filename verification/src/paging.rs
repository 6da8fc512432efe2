//! The page-encryption-state engine: the walk from the root table to the
//! entry that maps a page, and the change of that entry's shared indicator.

use crate::context::{shared_bit_mask, valid_address_width, BootContext};
use crate::entry::{address_of, entry_with_state, lemma_shared_then_private_restores_entry};
use crate::page::{lemma_table_index_in_range, table_index, PageDescriptor, PageSize};
use crate::space::{well_shaped, PageTableSpace};
use crate::tables::ADDRESS_MASK;
use vstd::prelude::*;

verus! {

/// The place of one entry: the address of its table and its index there.
#[derive(Clone, Copy, Debug, PartialEq, Eq, Structural)]
pub struct LeafSlot {
    pub table: u64,
    pub index: u16,
}

/// The address of the table that an entry refers to.
pub open spec fn child_table(tables: Map<u64, Seq<u64>>, table: u64, index: u16) -> u64 {
    address_of(tables[table][index as int])
}

/// The walk from the root to the entry that maps `page`: the level-3 entry
/// for a 1 GiB page, the level-2 entry for a 2 MiB page, the level-1 entry
/// for a 4 KiB page. Where a table on the way is not there, the walk ends
/// with that table's address.
pub open spec fn walk(tables: Map<u64, Seq<u64>>, root: u64, page: PageDescriptor) -> Result<
    LeafSlot,
    u64,
> {
    let p3 = child_table(tables, root, table_index(page.base, 4));
    let p2 = child_table(tables, p3, table_index(page.base, 3));
    let p1 = child_table(tables, p2, table_index(page.base, 2));
    if !tables.contains_key(root) {
        Err(root)
    } else if !tables.contains_key(p3) {
        Err(p3)
    } else if page.size == PageSize::Size1GiB {
        Ok(LeafSlot { table: p3, index: table_index(page.base, 3) })
    } else if !tables.contains_key(p2) {
        Err(p2)
    } else if page.size == PageSize::Size2MiB {
        Ok(LeafSlot { table: p2, index: table_index(page.base, 2) })
    } else if !tables.contains_key(p1) {
        Err(p1)
    } else {
        Ok(LeafSlot { table: p1, index: table_index(page.base, 1) })
    }
}

/// The tables after the state of `page` is set: the entry that maps the page
/// has its shared indicator set or cleared, and nothing else differs. Where
/// the walk does not reach that entry, nothing changes.
pub open spec fn with_page_state(
    tables: Map<u64, Seq<u64>>,
    root: u64,
    page: PageDescriptor,
    width: u32,
    shared: bool,
) -> Map<u64, Seq<u64>> {
    match walk(tables, root, page) {
        Ok(slot) => tables.insert(
            slot.table,
            tables[slot.table].update(
                slot.index as int,
                entry_with_state(
                    tables[slot.table][slot.index as int],
                    shared_bit_mask(width),
                    shared,
                ),
            ),
        ),
        Err(_) => tables,
    }
}

/// Reads the address field of an entry of the table at `table`.
fn read_child(pt: &PageTableSpace, table: u64, index: u16) -> (child: u64)
    requires
        pt.wf(),
        pt@.contains_key(table),
        index < 512,
    ensures
        child == child_table(pt@, table, index),
{
    match pt.entry(table, index) {
        Some(raw) => raw & ADDRESS_MASK,
        None => 0,
    }
}

/// Walks from the root to the entry that maps `page`, reading only.
pub fn locate_leaf(pt: &PageTableSpace, root: u64, page: &PageDescriptor) -> (found: Result<
    LeafSlot,
    u64,
>)
    requires
        pt.wf(),
    ensures
        found == walk(pt@, root, *page),
        found matches Ok(slot) ==> pt@.contains_key(slot.table) && slot.index < 512,
{
    if !pt.contains(root) {
        return Err(root);
    }
    let p3: u64 = read_child(pt, root, page.p4_index());
    if !pt.contains(p3) {
        return Err(p3);
    }
    if page.size == PageSize::Size1GiB {
        return Ok(LeafSlot { table: p3, index: page.p3_index() });
    }
    let p2: u64 = read_child(pt, p3, page.p3_index());
    if !pt.contains(p2) {
        return Err(p2);
    }
    if page.size == PageSize::Size2MiB {
        return Ok(LeafSlot { table: p2, index: page.p2_index() });
    }
    let p1: u64 = read_child(pt, p2, page.p2_index());
    if !pt.contains(p1) {
        return Err(p1);
    }
    Ok(LeafSlot { table: p1, index: page.p1_index() })
}

/// Sets (`shared`) or clears the shared indicator of the entry that maps
/// `page`, in the hierarchy rooted at `root`. Exactly that entry changes.
/// Every table on the way must be there.
pub fn pt_set_shared_bit(
    pt: &mut PageTableSpace,
    root: u64,
    page: &PageDescriptor,
    shared: bool,
    context: &BootContext,
)
    requires
        old(pt).wf(),
        walk(old(pt)@, root, *page).is_ok(),
    ensures
        final(pt).wf(),
        final(pt)@ == with_page_state(old(pt)@, root, *page, context.gpaw(), shared),
{
    match locate_leaf(pt, root, page) {
        Ok(slot) => {
            pt.set_entry_state(slot.table, slot.index, shared, context);
        },
        Err(_) => {},
    }
}

/// Whether the walk to `page` reads the entry at `index` of the table at
/// `table` on its way to the leaf: the level-4 entry always, the level-3
/// entry unless it is the leaf, the level-2 entry below a 4 KiB page.
pub open spec fn walk_reads(
    tables: Map<u64, Seq<u64>>,
    root: u64,
    page: PageDescriptor,
    table: u64,
    index: int,
) -> bool {
    let p3 = child_table(tables, root, table_index(page.base, 4));
    let p2 = child_table(tables, p3, table_index(page.base, 3));
    ||| table == root && index == table_index(page.base, 4)
    ||| page.size != PageSize::Size1GiB && table == p3 && index == table_index(page.base, 3)
    ||| page.size == PageSize::Size4KiB && table == p2 && index == table_index(page.base, 2)
}

/// The walk reaches a leaf, and that leaf is none of the entries read on the
/// way. It fails only in a hierarchy that refers back into itself.
pub open spec fn leaf_off_path(tables: Map<u64, Seq<u64>>, root: u64, page: PageDescriptor) -> bool {
    walk(tables, root, page) matches Ok(slot) && !walk_reads(
        tables,
        root,
        page,
        slot.table,
        slot.index as int,
    )
}

/// Isolation: setting the state of a page changes no entry but the one that
/// maps it. Every other entry of every table, at whatever level and whether
/// beneath the page or above it, is the same before and after, and no table
/// appears or goes.
pub proof fn lemma_page_state_isolation(
    tables: Map<u64, Seq<u64>>,
    root: u64,
    page: PageDescriptor,
    width: u32,
    shared: bool,
    table: u64,
    index: int,
)
    requires
        well_shaped(tables),
        tables.contains_key(table),
        0 <= index < 512,
        walk(tables, root, page) matches Ok(slot) ==> !(slot.table == table && slot.index
            == index),
    ensures
        with_page_state(tables, root, page, width, shared).dom() == tables.dom(),
        well_shaped(with_page_state(tables, root, page, width, shared)),
        with_page_state(tables, root, page, width, shared)[table][index] == tables[table][index],
{
    lemma_walk_in_range(tables, root, page);
    let after = with_page_state(tables, root, page, width, shared);
    assert(after.dom() =~= tables.dom());
}

/// Where the walk reaches a leaf, the leaf's table is there and its index is
/// one of the 512.
pub proof fn lemma_walk_in_range(tables: Map<u64, Seq<u64>>, root: u64, page: PageDescriptor)
    ensures
        walk(tables, root, page) matches Ok(slot) ==> tables.contains_key(slot.table)
            && slot.index < 512,
{
    lemma_table_index_in_range(page.base, 1);
    lemma_table_index_in_range(page.base, 2);
    lemma_table_index_in_range(page.base, 3);
}

/// Setting the state of a page leaves the entries above it as they were,
/// address fields included, so the walk to the page ends where it did:
/// the tables on the way are traversed, not written.
pub proof fn lemma_ancestors_unchanged(
    tables: Map<u64, Seq<u64>>,
    root: u64,
    page: PageDescriptor,
    width: u32,
    shared: bool,
)
    requires
        well_shaped(tables),
        leaf_off_path(tables, root, page),
    ensures
        forall|table: u64, index: int|
            walk_reads(tables, root, page, table, index) ==> #[trigger] with_page_state(
                tables,
                root,
                page,
                width,
                shared,
            )[table][index] == tables[table][index],
        walk(with_page_state(tables, root, page, width, shared), root, page) == walk(
            tables,
            root,
            page,
        ),
{
    lemma_walk_in_range(tables, root, page);
    lemma_table_index_in_range(page.base, 2);
    lemma_table_index_in_range(page.base, 3);
    lemma_table_index_in_range(page.base, 4);
    let after = with_page_state(tables, root, page, width, shared);
    assert(after.dom() =~= tables.dom());
    let i4 = table_index(page.base, 4);
    let i3 = table_index(page.base, 3);
    let i2 = table_index(page.base, 2);
    let p3 = child_table(tables, root, i4);
    let p2 = child_table(tables, p3, i3);
    assert(after[root][i4 as int] == tables[root][i4 as int]);
    assert(child_table(after, root, i4) == p3);
    if page.size != PageSize::Size1GiB {
        assert(after[p3][i3 as int] == tables[p3][i3 as int]);
        assert(child_table(after, p3, i3) == p2);
        if page.size == PageSize::Size4KiB {
            assert(after[p2][i2 as int] == tables[p2][i2 as int]);
        }
    }
}

/// Round trip: marking a private page shared and then private again restores
/// every table bit for bit.
pub proof fn lemma_shared_then_private_restores(
    tables: Map<u64, Seq<u64>>,
    root: u64,
    page: PageDescriptor,
    width: u32,
)
    requires
        valid_address_width(width),
        well_shaped(tables),
        leaf_off_path(tables, root, page),
        walk(tables, root, page) matches Ok(slot) && tables[slot.table][slot.index as int]
            & shared_bit_mask(width) == 0,
    ensures
        with_page_state(
            with_page_state(tables, root, page, width, true),
            root,
            page,
            width,
            false,
        ) == tables,
{
    lemma_walk_in_range(tables, root, page);
    lemma_ancestors_unchanged(tables, root, page, width, true);
    let slot = walk(tables, root, page).unwrap();
    let raw = tables[slot.table][slot.index as int];
    lemma_shared_then_private_restores_entry(raw, width);
    let shared = with_page_state(tables, root, page, width, true);
    let back = with_page_state(shared, root, page, width, false);
    assert(back[slot.table] =~= tables[slot.table]);
    assert(back =~= tables);
}

} // verus!
