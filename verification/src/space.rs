//! The memory that holds the page tables: each table under the physical
//! address at which the hierarchy refers to it.

use crate::context::{shared_bit_mask, BootContext};
use crate::entry::{entry_with_state, pt_entry_set_shared_bit};
use crate::tables::{entry_addr, entry_flags, table_view, ENTRY_COUNT};
use vstd::prelude::*;
use x86_64::structures::paging::PageTable;

verus! {

/// One table and the physical address it lives at.
struct TableFrame {
    base: u64,
    table: PageTable,
}

/// Every table has its 512 entries.
pub open spec fn well_shaped(tables: Map<u64, Seq<u64>>) -> bool {
    forall|base: u64| #[trigger] tables.contains_key(base) ==> tables[base].len() == 512
}

/// A set of tables, at most one per address. Its view maps each address to
/// the 512 raw entries of the table there.
pub struct PageTableSpace {
    frames: Vec<TableFrame>,
}

impl View for PageTableSpace {
    type V = Map<u64, Seq<u64>>;

    closed spec fn view(&self) -> Map<u64, Seq<u64>> {
        Map::new(
            |base: u64| self.holds(base),
            |base: u64| table_view(self.frames@[self.position(base)].table),
        )
    }
}

impl PageTableSpace {
    /// No two tables share an address.
    pub closed spec fn wf(&self) -> bool {
        forall|i: int, j: int|
            0 <= i < j < self.frames@.len() ==> self.frames@[i].base != self.frames@[j].base
    }

    spec fn holds(&self, base: u64) -> bool {
        exists|i: int| 0 <= i < self.frames@.len() && self.frames@[i].base == base
    }

    spec fn position(&self, base: u64) -> int {
        choose|i: int| 0 <= i < self.frames@.len() && self.frames@[i].base == base
    }

    proof fn lemma_position(&self, i: int)
        requires
            self.wf(),
            0 <= i < self.frames@.len(),
        ensures
            self.holds(self.frames@[i].base),
            self.position(self.frames@[i].base) == i,
            self@.contains_key(self.frames@[i].base),
            self@[self.frames@[i].base] == table_view(self.frames@[i].table),
    {
        let base = self.frames@[i].base;
        assert(self.holds(base));
        let p = self.position(base);
        assert(0 <= p < self.frames@.len() && self.frames@[p].base == base);
        if p < i {
            assert(self.frames@[p].base != self.frames@[i].base);
        } else if i < p {
            assert(self.frames@[i].base != self.frames@[p].base);
        }
    }

    /// The tables of a space are well shaped.
    pub proof fn lemma_well_shaped(&self)
        ensures
            well_shaped(self@),
    {
    }

    /// A space that holds no table.
    pub fn new() -> (space: PageTableSpace)
        ensures
            space.wf(),
            space@ == Map::<u64, Seq<u64>>::empty(),
    {
        let space = PageTableSpace { frames: Vec::new() };
        assert(space@ =~= Map::<u64, Seq<u64>>::empty());
        space
    }

    fn find(&self, base: u64) -> (found: Option<usize>)
        requires
            self.wf(),
        ensures
            found.is_some() == self@.contains_key(base),
            found matches Some(i) ==> i < self.frames@.len() && self.frames@[i as int].base == base
                && self@[base] == table_view(self.frames@[i as int].table),
    {
        let mut i: usize = 0;
        while i < self.frames.len()
            invariant
                self.wf(),
                i <= self.frames@.len(),
                forall|k: int| 0 <= k < i ==> self.frames@[k].base != base,
            decreases self.frames@.len() - i,
        {
            if self.frames[i].base == base {
                proof {
                    self.lemma_position(i as int);
                }
                return Some(i);
            }
            i += 1;
        }
        assert(!self.holds(base));
        None
    }

    /// Whether a table lives at this address.
    pub fn contains(&self, base: u64) -> (present: bool)
        requires
            self.wf(),
        ensures
            present == self@.contains_key(base),
    {
        self.find(base).is_some()
    }

    /// Reads one raw entry of the table at an address, if there is one.
    pub fn entry(&self, base: u64, index: u16) -> (raw: Option<u64>)
        requires
            self.wf(),
            index < ENTRY_COUNT,
        ensures
            raw == if self@.contains_key(base) {
                Some(self@[base][index as int])
            } else {
                None
            },
    {
        match self.find(base) {
            Some(i) => {
                let addr: u64 = entry_addr(&self.frames[i].table, index);
                let flags: u64 = entry_flags(&self.frames[i].table, index);
                let ghost whole: u64 = self@[base][index as int];
                assert(addr | flags == whole) by (bit_vector)
                    requires
                        addr == whole & 0x000f_ffff_ffff_f000u64,
                        flags == whole & 0xfff0_0000_0000_0fffu64,
                ;
                Some(addr | flags)
            },
            None => None,
        }
    }

    /// Sets or clears the shared indicator of one entry of the table at an
    /// address. No other entry of any table changes.
    pub fn set_entry_state(&mut self, base: u64, index: u16, shared: bool, context: &BootContext)
        requires
            old(self).wf(),
            old(self)@.contains_key(base),
            index < ENTRY_COUNT,
        ensures
            final(self).wf(),
            final(self)@ == old(self)@.insert(
                base,
                old(self)@[base].update(
                    index as int,
                    entry_with_state(
                        old(self)@[base][index as int],
                        shared_bit_mask(context.gpaw()),
                        shared,
                    ),
                ),
            ),
    {
        let ghost before = *self;
        let found = self.find(base);
        let i: usize = found.unwrap();
        pt_entry_set_shared_bit(&mut self.frames[i].table, index, shared, context);
        proof {
            let at = i as int;
            assert(self.frames@.len() == before.frames@.len());
            assert forall|k: int| 0 <= k < self.frames@.len() implies self.frames@[k].base
                == before.frames@[k].base by {}
            assert(self.wf());
            assert forall|b: u64| self@.contains_key(b) <==> before@.contains_key(b) by {
                if self.holds(b) {
                    let k = self.position(b);
                    assert(before.frames@[k].base == b);
                }
                if before.holds(b) {
                    let k = before.position(b);
                    assert(self.frames@[k].base == b);
                }
            }
            assert forall|b: u64| self@.contains_key(b) && b != base implies self@[b]
                == before@[b] by {
                let k = self.position(b);
                self.lemma_position(k);
                before.lemma_position(k);
            }
            self.lemma_position(at);
            before.lemma_position(at);
            assert(self@ =~= before@.insert(
                base,
                before@[base].update(
                    index as int,
                    entry_with_state(
                        before@[base][index as int],
                        shared_bit_mask(context.gpaw()),
                        shared,
                    ),
                ),
            ));
        }
    }

    /// Places a table at an address. Where one lives there already, nothing
    /// changes and the answer is `false`.
    pub fn insert(&mut self, base: u64, table: PageTable) -> (placed: bool)
        requires
            old(self).wf(),
        ensures
            final(self).wf(),
            placed == !old(self)@.contains_key(base),
            placed ==> final(self)@ == old(self)@.insert(base, table_view(table)),
            !placed ==> final(self)@ == old(self)@,
    {
        if self.find(base).is_some() {
            return false;
        }
        let ghost before = *self;
        self.frames.push(TableFrame { base, table });
        proof {
            assert(!before.holds(base));
            assert(self.wf());
            let n = before.frames@.len() as int;
            self.lemma_position(n);
            assert forall|b: u64| self@.contains_key(b) <==> (b == base || before@.contains_key(
                b,
            )) by {
                if before.holds(b) {
                    let i = before.position(b);
                    assert(self.frames@[i].base == b);
                }
                if self.holds(b) && b != base {
                    let i = self.position(b);
                    assert(before.frames@[i].base == b);
                }
            }
            assert forall|b: u64| before@.contains_key(b) && b != base implies self@[b]
                == before@[b] by {
                let i = before.position(b);
                before.lemma_position(i);
                self.lemma_position(i);
            }
            assert(self@ =~= before@.insert(base, table_view(table)));
        }
        true
    }

    /// Takes the table at an address out of the space.
    pub fn remove(&mut self, base: u64) -> (taken: Option<PageTable>)
        requires
            old(self).wf(),
        ensures
            final(self).wf(),
            taken.is_some() == old(self)@.contains_key(base),
            taken matches Some(table) ==> table_view(table) == old(self)@[base],
            final(self)@ == old(self)@.remove(base),
    {
        let ghost before = *self;
        match self.find(base) {
            Some(i) => {
                let frame = self.frames.remove(i);
                proof {
                    let at = i as int;
                    assert(self.frames@ == before.frames@.remove(at));
                    assert(self.wf()) by {
                        assert forall|a: int, b: int|
                            0 <= a < b < self.frames@.len() implies self.frames@[a].base
                            != self.frames@[b].base by {
                            let a0 = if a < at { a } else { a + 1 };
                            let b0 = if b < at { b } else { b + 1 };
                            assert(before.frames@[a0].base != before.frames@[b0].base);
                        }
                    }
                    assert forall|b: u64| self@.contains_key(b) <==> (b != base
                        && before@.contains_key(b)) by {
                        if self.holds(b) {
                            let k = self.position(b);
                            let k0 = if k < at { k } else { k + 1 };
                            assert(before.frames@[k0].base == b);
                            if b == base {
                                before.lemma_position(k0);
                                before.lemma_position(at);
                            }
                        }
                        if before.holds(b) && b != base {
                            let k0 = before.position(b);
                            let k = if k0 < at { k0 } else { k0 - 1 };
                            assert(self.frames@[k].base == b);
                        }
                    }
                    assert forall|b: u64| self@.contains_key(b) implies self@[b] == before@[b] by {
                        let k = self.position(b);
                        let k0 = if k < at { k } else { k + 1 };
                        self.lemma_position(k);
                        before.lemma_position(k0);
                    }
                    assert(self@ =~= before@.remove(base));
                }
                Some(frame.table)
            },
            None => {
                assert(self@ =~= before@.remove(base));
                None
            },
        }
    }
}

} // verus!
