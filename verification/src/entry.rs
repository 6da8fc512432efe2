//! One page-table entry: its address field, its flags, and the shared
//! indicator inside the address field.

use crate::context::{
    lemma_shared_bit_mask_values, shared_bit_mask, tdx_shared_mask, valid_address_width,
    BootContext,
};
use crate::tables::{
    entry_addr, entry_flags, entry_set_addr, table_view, ADDRESS_MASK, ENTRY_COUNT, FLAGS_MASK,
};
use vstd::prelude::*;
use x86_64::structures::paging::PageTable;

verus! {

/// An entry after its shared indicator is set or cleared: the bits under
/// `mask` change, every other bit stays.
pub open spec fn entry_with_state(raw: u64, mask: u64, shared: bool) -> u64 {
    if shared {
        raw | mask
    } else {
        raw & !mask
    }
}

/// The address field of a raw entry.
pub open spec fn address_of(raw: u64) -> u64 {
    raw & ADDRESS_MASK
}

/// The flag bits of a raw entry.
pub open spec fn flags_of(raw: u64) -> u64 {
    raw & FLAGS_MASK
}

/// Sets (`shared`) or clears the shared indicator in the address field of one
/// entry of a table. The flags and every other entry stay as they are.
pub fn pt_entry_set_shared_bit(
    page_table: &mut PageTable,
    index: u16,
    shared: bool,
    context: &BootContext,
)
    requires
        index < ENTRY_COUNT,
    ensures
        table_view(*final(page_table)) == table_view(*old(page_table)).update(
            index as int,
            entry_with_state(
                table_view(*old(page_table))[index as int],
                shared_bit_mask(context.gpaw()),
                shared,
            ),
        ),
{
    let shared_bit: u64 = tdx_shared_mask(context);
    let ghost raw: u64 = table_view(*page_table)[index as int];
    let current: u64 = entry_addr(page_table, index);
    let addr: u64 = if shared {
        current | shared_bit
    } else {
        current & !shared_bit
    };
    let flags: u64 = entry_flags(page_table, index);
    proof {
        assert(addr & 0xfff0_0000_0000_0fffu64 == 0 && addr | flags == entry_with_state(
            raw,
            shared_bit,
            shared,
        )) by (bit_vector)
            requires
                shared_bit == 0x0000_8000_0000_0000u64 || shared_bit == 0x0008_0000_0000_0000u64,
                current == raw & 0x000f_ffff_ffff_f000u64,
                flags == raw & 0xfff0_0000_0000_0fffu64,
                addr == if shared {
                    current | shared_bit
                } else {
                    current & !shared_bit
                },
        ;
    }
    entry_set_addr(page_table, index, addr, flags);
    assert(table_view(*page_table) =~= table_view(*old(page_table)).update(
        index as int,
        entry_with_state(raw, shared_bit, shared),
    ));
}

/// Setting or clearing the shared indicator changes no bit of an entry but
/// the indicator itself, and leaves the indicator in the state asked for.
pub proof fn lemma_state_changes_one_bit(raw: u64, width: u32, shared: bool)
    requires
        valid_address_width(width),
    ensures
        entry_with_state(raw, shared_bit_mask(width), shared) & !shared_bit_mask(width) == raw
            & !shared_bit_mask(width),
        (entry_with_state(raw, shared_bit_mask(width), shared) & shared_bit_mask(width) != 0)
            == shared,
        flags_of(entry_with_state(raw, shared_bit_mask(width), shared)) == flags_of(raw),
{
    lemma_shared_bit_mask_values();
    let mask = shared_bit_mask(width);
    let next = entry_with_state(raw, mask, shared);
    assert(next & !mask == raw & !mask && ((next & mask != 0) == shared) && next
        & 0xfff0_0000_0000_0fffu64 == raw & 0xfff0_0000_0000_0fffu64) by (bit_vector)
        requires
            mask == 0x0000_8000_0000_0000u64 || mask == 0x0008_0000_0000_0000u64,
            next == if shared {
                raw | mask
            } else {
                raw & !mask
            },
    ;
}

/// Marking an entry shared and then private again restores it bit for bit,
/// provided it was private to begin with.
pub proof fn lemma_shared_then_private_restores_entry(raw: u64, width: u32)
    requires
        valid_address_width(width),
        raw & shared_bit_mask(width) == 0,
    ensures
        entry_with_state(
            entry_with_state(raw, shared_bit_mask(width), true),
            shared_bit_mask(width),
            false,
        ) == raw,
{
    let mask = shared_bit_mask(width);
    assert((raw | mask) & !mask == raw) by (bit_vector)
        requires
            raw & mask == 0,
    ;
}

/// Toggling the indicator shared, private, shared leaves the flags as they
/// were after every step, whatever flags the entry carries.
pub proof fn lemma_toggling_keeps_flags(raw: u64, width: u32)
    requires
        valid_address_width(width),
    ensures
        ({
            let mask = shared_bit_mask(width);
            let first = entry_with_state(raw, mask, true);
            let second = entry_with_state(first, mask, false);
            let third = entry_with_state(second, mask, true);
            &&& flags_of(first) == flags_of(raw)
            &&& flags_of(second) == flags_of(raw)
            &&& flags_of(third) == flags_of(raw)
        }),
{
    let mask = shared_bit_mask(width);
    let first = entry_with_state(raw, mask, true);
    let second = entry_with_state(first, mask, false);
    lemma_state_changes_one_bit(raw, width, true);
    lemma_state_changes_one_bit(first, width, false);
    lemma_state_changes_one_bit(second, width, true);
}

} // verus!
