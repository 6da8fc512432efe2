//! Page descriptors: a guest-physical page, its size, and the table indices
//! that its address selects.

use crate::tables::ENTRY_COUNT;
use vstd::prelude::*;

verus! {

/// The three sizes of a mapping unit.
#[derive(Clone, Copy, Debug, PartialEq, Eq, Structural)]
pub enum PageSize {
    /// 4 KiB: mapped by a level-1 entry.
    Size4KiB,
    /// 2 MiB: mapped by a level-2 entry.
    Size2MiB,
    /// 1 GiB: mapped by a level-3 entry.
    Size1GiB,
}

/// One mapping unit: where it starts and how large it is.
#[derive(Clone, Copy, Debug, PartialEq, Eq, Structural)]
pub struct PageDescriptor {
    pub base: u64,
    pub size: PageSize,
}

/// The nine address bits that select an entry at a level from 1 to 4.
pub open spec fn table_index(addr: u64, level: int) -> u16 {
    if level == 1 {
        ((addr >> 12u64) & 0x1ff) as u16
    } else if level == 2 {
        ((addr >> 21u64) & 0x1ff) as u16
    } else if level == 3 {
        ((addr >> 30u64) & 0x1ff) as u16
    } else {
        ((addr >> 39u64) & 0x1ff) as u16
    }
}

/// A table index always names one of the 512 entries.
pub proof fn lemma_table_index_in_range(addr: u64, level: int)
    ensures
        table_index(addr, level) < ENTRY_COUNT,
{
    assert(((addr >> 12u64) & 0x1ff) < 512) by (bit_vector);
    assert(((addr >> 21u64) & 0x1ff) < 512) by (bit_vector);
    assert(((addr >> 30u64) & 0x1ff) < 512) by (bit_vector);
    assert(((addr >> 39u64) & 0x1ff) < 512) by (bit_vector);
}

impl PageSize {
    /// The number of bytes in a page of this size.
    pub open spec fn spec_bytes(self) -> u64 {
        match self {
            PageSize::Size4KiB => 0x1000u64,
            PageSize::Size2MiB => 0x20_0000u64,
            PageSize::Size1GiB => 0x4000_0000u64,
        }
    }

    /// The level whose entry maps a page of this size.
    pub open spec fn spec_leaf_level(self) -> u8 {
        match self {
            PageSize::Size4KiB => 1u8,
            PageSize::Size2MiB => 2u8,
            PageSize::Size1GiB => 3u8,
        }
    }

    #[verifier::when_used_as_spec(spec_bytes)]
    pub fn bytes(self) -> (n: u64)
        ensures
            n == self.spec_bytes(),
    {
        match self {
            PageSize::Size4KiB => 0x1000,
            PageSize::Size2MiB => 0x20_0000,
            PageSize::Size1GiB => 0x4000_0000,
        }
    }

    #[verifier::when_used_as_spec(spec_leaf_level)]
    pub fn leaf_level(self) -> (level: u8)
        ensures
            level == self.spec_leaf_level(),
    {
        match self {
            PageSize::Size4KiB => 1,
            PageSize::Size2MiB => 2,
            PageSize::Size1GiB => 3,
        }
    }
}

impl PageDescriptor {
    /// The page's size in bytes.
    pub fn size(&self) -> (n: u64)
        ensures
            n == self.size.spec_bytes(),
    {
        self.size.bytes()
    }

    /// The index of the page's entry in the level-4 table.
    pub fn p4_index(&self) -> (index: u16)
        ensures
            index == table_index(self.base, 4),
            index < ENTRY_COUNT,
    {
        let addr: u64 = self.base;
        assert(((addr >> 39u64) & 0x1ff) < 512) by (bit_vector);
        ((addr >> 39) & 0x1ff) as u16
    }

    /// The index of the page's entry in the level-3 table.
    pub fn p3_index(&self) -> (index: u16)
        ensures
            index == table_index(self.base, 3),
            index < ENTRY_COUNT,
    {
        let addr: u64 = self.base;
        assert(((addr >> 30u64) & 0x1ff) < 512) by (bit_vector);
        ((addr >> 30) & 0x1ff) as u16
    }

    /// The index of the page's entry in the level-2 table.
    pub fn p2_index(&self) -> (index: u16)
        ensures
            index == table_index(self.base, 2),
            index < ENTRY_COUNT,
    {
        let addr: u64 = self.base;
        assert(((addr >> 21u64) & 0x1ff) < 512) by (bit_vector);
        ((addr >> 21) & 0x1ff) as u16
    }

    /// The index of the page's entry in the level-1 table.
    pub fn p1_index(&self) -> (index: u16)
        ensures
            index == table_index(self.base, 1),
            index < ENTRY_COUNT,
    {
        let addr: u64 = self.base;
        assert(((addr >> 12u64) & 0x1ff) < 512) by (bit_vector);
        ((addr >> 12) & 0x1ff) as u16
    }
}

} // verus!
