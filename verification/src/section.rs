//! One chunk section: a 16×16×16 block cube with change tracking.
//!
//! The block states live in a paletted container of 4096 cells; two
//! bitmaps remember which cells changed since load and since the last
//! tick, so the simulation can emit compact deltas.

use crate::bitmap::{bitmap_clear, bitmap_insert, bitmap_new, bitmap_set};
use vstd::prelude::*;

verus! {

/// How many block cells one section holds.
pub const SECTION_BLOCK_COUNT: usize = 4096;

/// One block state, named by its raw protocol id.
#[derive(Clone, Copy, Debug, PartialEq, Eq, Hash, Structural)]
pub struct BlockState {
    raw: u16,
}

impl BlockState {
    /// The raw protocol id of this state.
    pub closed spec fn spec_raw(&self) -> u16 {
        self.raw
    }

    /// The state with the given raw protocol id.
    pub fn from_raw(raw: u16) -> (r: Self)
        ensures
            r.spec_raw() == raw,
    {
        BlockState { raw }
    }

    /// The raw protocol id of this state.
    pub fn to_raw(self) -> (r: u16)
        ensures
            r == self.spec_raw(),
    {
        self.raw
    }

    /// Air, raw id 0: the empty cell.
    pub fn air() -> (r: Self)
        ensures
            r.spec_raw() == 0,
    {
        BlockState { raw: 0 }
    }

    /// Stone, raw id 1.
    pub fn stone() -> (r: Self)
        ensures
            r.spec_raw() == 1,
    {
        BlockState { raw: 1 }
    }

    /// The default grass block, raw id 9.
    pub fn grass_block() -> (r: Self)
        ensures
            r.spec_raw() == 9,
    {
        BlockState { raw: 9 }
    }

    /// Dirt, raw id 10.
    pub fn dirt() -> (r: Self)
        ensures
            r.spec_raw() == 10,
    {
        BlockState { raw: 10 }
    }
}

/// A container of 4096 block-state cells. Its view is the sequence of raw
/// ids, one per cell.
pub struct PalettedContainer {
    cells: Vec<u16>,
}

impl View for PalettedContainer {
    type V = Seq<u16>;

    closed spec fn view(&self) -> Seq<u16> {
        self.cells.deep_view()
    }
}

impl PalettedContainer {
    /// A container with every cell holding the same state.
    pub fn filled(value: u16) -> (r: Self)
        ensures
            r@.len() == SECTION_BLOCK_COUNT,
            forall|i: int| 0 <= i < SECTION_BLOCK_COUNT ==> #[trigger] r@[i] == value,
    {
        let mut cells: Vec<u16> = Vec::new();
        while cells.len() < SECTION_BLOCK_COUNT
            invariant
                cells@.len() <= SECTION_BLOCK_COUNT,
                forall|i: int| 0 <= i < cells@.len() ==> #[trigger] cells@[i] == value,
            decreases SECTION_BLOCK_COUNT - cells@.len(),
        {
            cells.push(value);
        }
        let r = PalettedContainer { cells };
        assert(r@ =~= cells.deep_view());
        r
    }

    /// The state in one cell.
    pub fn get(&self, idx: usize) -> (r: BlockState)
        requires
            idx < self@.len(),
        ensures
            r.spec_raw() == self@[idx as int],
    {
        BlockState::from_raw(self.cells[idx])
    }

    /// Stores a raw id in one cell and hands back what it held.
    pub fn set(&mut self, idx: usize, value: u16) -> (prev: u16)
        requires
            idx < old(self)@.len(),
        ensures
            prev == old(self)@[idx as int],
            final(self)@ == old(self)@.update(idx as int, value),
    {
        let prev = self.cells[idx];
        self.cells[idx] = value;
        assert(final(self)@ =~= old(self)@.update(idx as int, value));
        prev
    }
}

/// One chunk section: block states plus the change bitmaps.
pub struct Section {
    /// The block states, one raw id per cell.
    pub block_states: PalettedContainer,
    /// Cells changed since the section was loaded.
    pub changed: roaring::RoaringBitmap,
    /// Cells changed since the last tick boundary.
    pub changed_since_last_tick: roaring::RoaringBitmap,
}

impl Section {
    /// A section is full-sized.
    pub open spec fn wf(&self) -> bool {
        self.block_states@.len() == SECTION_BLOCK_COUNT
    }

    /// A section of air with clean change tracking.
    pub fn new() -> (r: Self)
        ensures
            r.wf(),
            forall|i: int| 0 <= i < SECTION_BLOCK_COUNT ==> #[trigger] r.block_states@[i] == 0,
            bitmap_set(r.changed) == Set::<u32>::empty(),
            bitmap_set(r.changed_since_last_tick) == Set::<u32>::empty(),
    {
        Section {
            block_states: PalettedContainer::filled(0),
            changed: bitmap_new(),
            changed_since_last_tick: bitmap_new(),
        }
    }

    /// Stores a state in one cell and hands back the previous state,
    /// without touching the change bitmaps.
    pub fn set(&mut self, idx: u16, new: BlockState) -> (prev: BlockState)
        requires
            old(self).wf(),
            idx < SECTION_BLOCK_COUNT,
        ensures
            final(self).wf(),
            prev.spec_raw() == old(self).block_states@[idx as int],
            final(self).block_states@ == old(self).block_states@.update(
                idx as int,
                new.spec_raw(),
            ),
            final(self).changed == old(self).changed,
            final(self).changed_since_last_tick == old(self).changed_since_last_tick,
    {
        let prev = self.block_states.set(idx as usize, new.to_raw());
        BlockState::from_raw(prev)
    }

    /// Stores a state in one cell and hands back the previous state,
    /// recording the cell in both change bitmaps when the state actually
    /// changed.
    pub fn set_delta(&mut self, idx: u16, new: BlockState) -> (prev: BlockState)
        requires
            old(self).wf(),
            idx < SECTION_BLOCK_COUNT,
        ensures
            final(self).wf(),
            prev.spec_raw() == old(self).block_states@[idx as int],
            final(self).block_states@ == old(self).block_states@.update(
                idx as int,
                new.spec_raw(),
            ),
            old(self).block_states@[idx as int] != new.spec_raw() ==> {
                &&& bitmap_set(final(self).changed) == bitmap_set(old(self).changed).insert(
                    idx as u32,
                )
                &&& bitmap_set(final(self).changed_since_last_tick) == bitmap_set(
                    old(self).changed_since_last_tick,
                ).insert(idx as u32)
            },
            old(self).block_states@[idx as int] == new.spec_raw() ==> {
                &&& final(self).changed == old(self).changed
                &&& final(self).changed_since_last_tick == old(self).changed_since_last_tick
            },
    {
        let new_raw = new.to_raw();
        let before = self.block_states.set(idx as usize, new_raw);
        if before != new_raw {
            bitmap_insert(&mut self.changed_since_last_tick, idx as u32);
            bitmap_insert(&mut self.changed, idx as u32);
        }
        BlockState::from_raw(before)
    }

    /// Forgets the per-tick deltas; the since-load bitmap is kept.
    pub fn reset_tick_deltas(&mut self)
        ensures
            final(self).wf() == old(self).wf(),
            final(self).block_states@ == old(self).block_states@,
            final(self).changed == old(self).changed,
            bitmap_set(final(self).changed_since_last_tick) == Set::<u32>::empty(),
    {
        bitmap_clear(&mut self.changed_since_last_tick);
    }
}

} // verus!
