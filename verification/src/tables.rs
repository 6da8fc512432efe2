//! Page tables as the hardware lays them out, and what is assumed of them.
//!
//! A table is a `PageTable` of the `x86_64` crate: 512 entries of 64 bits.
//! Nothing is proved of that crate. What this library relies on is stated
//! here, over the sequence of raw entries that a table holds.

use vstd::prelude::*;
use x86_64::structures::paging::page_table::PageTableFlags;
use x86_64::structures::paging::{PageTable, PageTableIndex};
use x86_64::PhysAddr;

verus! {

/// The number of entries in a table.
pub const ENTRY_COUNT: u16 = 512;

/// The bits of an entry that hold the physical address: bits 12 to 51.
pub const ADDRESS_MASK: u64 = 0x000f_ffff_ffff_f000;

/// The bits of an entry that hold its flags: all those outside the address.
pub const FLAGS_MASK: u64 = 0xfff0_0000_0000_0fff;

#[verifier::external_type_specification]
#[verifier::external_body]
pub struct ExPageTable(PageTable);

/// The raw 64-bit entries of a table, by index. Only the indices below 512
/// mean anything.
pub uninterp spec fn table_entries(table: PageTable) -> Seq<u64>;

/// A table as the sequence of its 512 raw entries.
pub open spec fn table_view(table: PageTable) -> Seq<u64> {
    Seq::new(512, |i: int| table_entries(table)[i])
}

/// Reads the address field of an entry: `PageTableEntry::addr` on the entry
/// that `PageTable`'s index operator gives. Assumed: the address is the raw
/// entry under the address mask.
#[verifier::external_body]
pub(crate) fn entry_addr(table: &PageTable, index: u16) -> (addr: u64)
    requires
        index < ENTRY_COUNT,
    ensures
        addr == table_entries(*table)[index as int] & ADDRESS_MASK,
{
    table[PageTableIndex::new(index)].addr().as_u64()
}

/// Reads the flags of an entry: `PageTableEntry::flags` on the entry that
/// `PageTable`'s index operator gives. Assumed: the flags are the raw entry
/// outside the address mask, no bit dropped.
#[verifier::external_body]
pub(crate) fn entry_flags(table: &PageTable, index: u16) -> (flags: u64)
    requires
        index < ENTRY_COUNT,
    ensures
        flags == table_entries(*table)[index as int] & FLAGS_MASK,
{
    table[PageTableIndex::new(index)].flags().bits()
}

/// Overwrites an entry: `PageTableEntry::set_addr` on the entry that
/// `PageTable`'s mutable index operator gives. Assumed: the entry becomes the
/// address joined with the flags, and no other entry changes. The address
/// must lie under the address mask, else the outside code panics.
#[verifier::external_body]
pub(crate) fn entry_set_addr(table: &mut PageTable, index: u16, addr: u64, flags: u64)
    requires
        index < ENTRY_COUNT,
        addr & FLAGS_MASK == 0,
    ensures
        forall|i: int|
            0 <= i < ENTRY_COUNT ==> #[trigger] table_entries(*final(table))[i] == if i == index {
                addr | flags
            } else {
                table_entries(*old(table))[i]
            },
{
    table[PageTableIndex::new(index)].set_addr(
        PhysAddr::new(addr),
        PageTableFlags::from_bits_retain(flags),
    );
}

} // verus!
