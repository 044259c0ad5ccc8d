//! Player inventories: slots, the held-item cursor, change tracking, and
//! first-fit item insertion.
//!
//! Stacks are modelled by kind and count; per-item stack ceilings beyond
//! the common 64 are not modelled, nor is item NBT.

use crate::bitmap::{bitmap_insert, bitmap_new, bitmap_set};
use vstd::prelude::*;

verus! {

/// One kind of item, named by its raw protocol id; 0 is air.
#[derive(Clone, Copy, Debug, PartialEq, Eq, Hash, Structural)]
pub struct ItemKind {
    /// The raw protocol id.
    pub raw: u16,
}

/// Every kind stacks to the common ceiling.
pub open spec fn spec_max_stack(k: ItemKind) -> i8 {
    64
}

impl ItemKind {
    /// Air, the kind of an empty slot.
    pub fn air() -> (r: Self)
        ensures
            r.raw == 0,
    {
        ItemKind { raw: 0 }
    }

    /// The kind with the given raw protocol id.
    pub fn from_raw(raw: u16) -> (r: Self)
        ensures
            r.raw == raw,
    {
        ItemKind { raw }
    }

    /// How many of this kind one slot can hold.
    pub fn max_stack(self) -> (r: i8)
        ensures
            r == spec_max_stack(self),
    {
        64
    }
}

/// A stack of items: a kind and how many of it.
#[derive(Clone, Copy, Debug, PartialEq, Eq, Structural)]
pub struct ItemStack {
    /// What the stack holds.
    pub item: ItemKind,
    /// How many of it; zero or less means nothing.
    pub count: i8,
}

/// A stack counts as empty when it has no items or only air.
pub open spec fn stack_is_empty(s: ItemStack) -> bool {
    s.count <= 0 || s.item.raw == 0
}

/// The stack an emptied slot is left with.
pub open spec fn empty_stack() -> ItemStack {
    ItemStack { item: ItemKind { raw: 0 }, count: 0 }
}

impl ItemStack {
    /// A stack of `count` items of `item`.
    pub fn new(item: ItemKind, count: i8) -> (r: Self)
        ensures
            r.item == item,
            r.count == count,
    {
        ItemStack { item, count }
    }

    /// The empty stack.
    pub fn empty() -> (r: Self)
        ensures
            r == empty_stack(),
    {
        ItemStack { item: ItemKind { raw: 0 }, count: 0 }
    }

    /// This stack's kind with another count.
    pub fn with_count(self, count: i8) -> (r: Self)
        ensures
            r.item == self.item,
            r.count == count,
    {
        ItemStack { count, ..self }
    }

    /// Whether the stack counts as empty.
    pub fn is_empty(&self) -> (r: bool)
        ensures
            r == stack_is_empty(*self),
    {
        self.count <= 0 || self.item.raw == 0
    }
}

/// Why a slot access was refused.
#[derive(Clone, Copy, Debug, PartialEq, Eq, Structural)]
pub enum InventoryAccessError {
    /// The inventory has no slot with this index.
    InvalidSlot { index: u16 },
}

/// What one attempt to add into one slot did.
enum TryAddSlot {
    /// Everything was placed.
    Complete,
    /// Some was placed; the rest is still in hand.
    Partial,
    /// The slot could not take any of it.
    Skipped,
}

/// What remains after trying to add an item to the inventory.
#[derive(Debug)]
pub struct AddItemResult {
    /// What could not be placed, if anything.
    pub remaining: Option<ItemStack>,
}

/// First slot of the hotbar region.
pub const HAND_START_SLOT: u16 = 36;

/// One past the last hand slot.
pub const HAND_END_SLOT: u16 = 45;

/// The offhand slot of a player inventory.
pub const OFFHAND_SLOT: u16 = 45;

/// The hotbar slot behind a hand index, or slot 0 for an index no hand
/// has.
pub fn slot_index_from_hand(hand_idx: u8) -> (r: u16)
    ensures
        hand_idx < 9 ==> r == hand_idx + HAND_START_SLOT,
        hand_idx >= 9 ==> r == 0,
{
    if hand_idx >= 9 {
        return 0;
    }
    hand_idx as u16 + HAND_START_SLOT
}

/// An inventory of `N` slots with a held-item cursor and change tracking.
/// Its view is the sequence of slots.
pub struct Inventory<const N: usize> {
    slots: Vec<ItemStack>,
    hand_slot: u16,
    /// Slots written since the last tick boundary.
    pub updated_since_last_tick: roaring::RoaringBitmap,
    /// Whether the cursor moved since the last tick boundary.
    pub hand_slot_updated_since_last_tick: bool,
}

/// A player's inventory: 46 slots.
pub type PlayerInventory = Inventory<46>;

impl<const N: usize> View for Inventory<N> {
    type V = Seq<ItemStack>;

    closed spec fn view(&self) -> Seq<ItemStack> {
        self.slots@
    }
}

impl<const N: usize> Inventory<N> {
    /// The inventory has all its slots.
    pub open spec fn wf(&self) -> bool {
        self@.len() == N
    }

    /// Where the held-item cursor points, as a hand index.
    pub closed spec fn cursor(&self) -> u16 {
        self.hand_slot
    }

    /// The write-tracking bitmap.
    pub closed spec fn updated(&self) -> roaring::RoaringBitmap {
        self.updated_since_last_tick
    }

    /// Whether the cursor moved since the last tick boundary.
    pub closed spec fn cursor_moved(&self) -> bool {
        self.hand_slot_updated_since_last_tick
    }
}

impl<const N: usize> Default for Inventory<N> {
    /// An inventory of empty slots, cursor on the first hand slot, with
    /// clean change tracking.
    fn default() -> (r: Self)
        ensures
            r.wf(),
            forall|i: int| 0 <= i < N ==> #[trigger] r@[i] == empty_stack(),
            r.cursor() == 0,
            bitmap_set(r.updated()) == Set::<u32>::empty(),
            r.cursor_moved() == false,
    {
        let mut slots: Vec<ItemStack> = Vec::new();
        while slots.len() < N
            invariant
                slots@.len() <= N,
                forall|i: int| 0 <= i < slots@.len() ==> #[trigger] slots@[i] == empty_stack(),
            decreases N - slots@.len(),
        {
            slots.push(ItemStack::empty());
        }
        Inventory {
            slots,
            hand_slot: 0,
            updated_since_last_tick: bitmap_new(),
            hand_slot_updated_since_last_tick: false,
        }
    }
}

impl<const N: usize> Inventory<N> {
    /// Stores a stack in a slot and records the write; refused for a slot
    /// the inventory does not have.
    pub fn set(&mut self, index: u16, stack: ItemStack) -> (r: Result<(), InventoryAccessError>)
        requires
            old(self).wf(),
        ensures
            final(self).wf(),
            r is Ok <==> index < N,
            final(self).cursor() == old(self).cursor(),
            final(self).cursor_moved() == old(self).cursor_moved(),
            match r {
                Ok(()) => {
                    &&& final(self)@ == old(self)@.update(index as int, stack)
                    &&& bitmap_set(final(self).updated()) == bitmap_set(old(self).updated()).insert(index as u32)
                },
                Err(e) => {
                    &&& e == (InventoryAccessError::InvalidSlot { index })
                    &&& final(self)@ == old(self)@
                    &&& final(self).updated() == old(self).updated()
                },
            },
    {
        if (index as usize) < self.slots.len() {
            let p = &mut self.slots[index as usize];
            *p = stack;
            bitmap_insert(&mut self.updated_since_last_tick, index as u32);
            Ok(())
        } else {
            Err(InventoryAccessError::InvalidSlot { index })
        }
    }

    /// The stack in a slot; refused for a slot the inventory does not
    /// have.
    pub fn get(&self, index: u16) -> (r: Result<&ItemStack, InventoryAccessError>)
        requires
            self.wf(),
        ensures
            match r {
                Ok(s) => index < N && *s == self@[index as int],
                Err(e) => index >= N && e == (InventoryAccessError::InvalidSlot { index }),
            },
    {
        if (index as usize) < self.slots.len() {
            Ok(&self.slots[index as usize])
        } else {
            Err(InventoryAccessError::InvalidSlot { index })
        }
    }

    /// The occupied slots, in order: each index with the stack it holds.
    pub fn items(&self) -> (r: Vec<(u16, ItemStack)>)
        requires
            self.wf(),
            N <= u16::MAX,
        ensures
            r@ == occupied_from(self@, 0),
    {
        let mut out: Vec<(u16, ItemStack)> = Vec::new();
        let mut i: usize = 0;
        assert(occupied_from(self@, 0) =~= out@ + occupied_from(self@, 0));
        while i < self.slots.len()
            invariant
                self.wf(),
                i <= N,
                N <= u16::MAX,
                occupied_from(self@, 0) == out@ + occupied_from(self@, i as int),
            decreases N - i,
        {
            let s = self.slots[i];
            if !s.is_empty() {
                let ghost pre = out@;
                out.push((i as u16, s));
                assert(pre + occupied_from(self@, i as int) =~= out@ + occupied_from(
                    self@,
                    i + 1,
                ));
            }
            i = i + 1;
        }
        assert(occupied_from(self@, N as int) =~= Seq::<(u16, ItemStack)>::empty());
        assert(out@ + Seq::<(u16, ItemStack)>::empty() =~= out@);
        out
    }

    /// All slots, in order.
    pub fn slots(&self) -> (r: &[ItemStack])
        ensures
            r@ == self@,
    {
        self.slots.as_slice()
    }

    /// Empties every occupied slot and records each write; slots already
    /// empty are left as they are.
    pub fn clear(&mut self)
        requires
            old(self).wf(),
            N <= u32::MAX,
        ensures
            final(self).wf(),
            final(self).cursor() == old(self).cursor(),
            final(self).cursor_moved() == old(self).cursor_moved(),
            forall|i: int|
                0 <= i < N ==> #[trigger] final(self)@[i] == if stack_is_empty(old(self)@[i]) {
                    old(self)@[i]
                } else {
                    empty_stack()
                },
            forall|v: u32|
                bitmap_set(final(self).updated()).contains(v) <==> (bitmap_set(old(self).updated()).contains(v) || (v < N && !stack_is_empty(old(self)@[v as int]))),
    {
        let mut i: usize = 0;
        while i < self.slots.len()
            invariant
                self.wf(),
                self@.len() == old(self)@.len(),
                i <= N,
                N <= u32::MAX,
                self.cursor() == old(self).cursor(),
                self.cursor_moved() == old(self).cursor_moved(),
                forall|j: int|
                    0 <= j < i ==> #[trigger] self@[j] == if stack_is_empty(old(self)@[j]) {
                        old(self)@[j]
                    } else {
                        empty_stack()
                    },
                forall|j: int| i <= j < N ==> #[trigger] self@[j] == old(self)@[j],
                forall|v: u32|
                    bitmap_set(self.updated()).contains(v) <==> (bitmap_set(old(self).updated()).contains(v) || (v < i && !stack_is_empty(old(self)@[v as int]))),
            decreases N - i,
        {
            let s = self.slots[i];
            assert(s == old(self)@[i as int]);
            if !s.is_empty() {
                let p = &mut self.slots[i];
                *p = ItemStack::empty();
                bitmap_insert(&mut self.updated_since_last_tick, i as u32);
                assert(!stack_is_empty(old(self)@[i as int]));
            } else {
                assert(stack_is_empty(old(self)@[i as int]));
            }
            proof {
                assert forall|v: u32|
                    bitmap_set(self.updated()).contains(v) <==> (bitmap_set(
                        old(self).updated(),
                    ).contains(v) || (v < i + 1 && !stack_is_empty(old(self)@[v as int]))) by {
                    if v == i as u32 {
                        assert(bitmap_set(self.updated()).contains(v) <==> !stack_is_empty(
                            old(self)@[v as int],
                        ) || bitmap_set(old(self).updated()).contains(v));
                    }
                }
            }
            i = i + 1;
        }
    }

    /// Moves the held-item cursor; a move to where it already points is
    /// not recorded.
    pub fn set_cursor(&mut self, index: u16)
        ensures
            final(self)@ == old(self)@,
            final(self).cursor() == index,
            final(self).updated() == old(self).updated(),
            final(self).cursor_moved() == (old(self).cursor() != index || old(self).cursor_moved()),
    {
        if self.hand_slot == index {
            return ;
        }
        self.hand_slot = index;
        self.hand_slot_updated_since_last_tick = true;
    }

    /// The hotbar slot the cursor points at.
    pub fn get_cursor_index(&self) -> (r: u16)
        requires
            self.cursor() < 9,
        ensures
            r == self.cursor() + HAND_START_SLOT,
    {
        self.hand_slot + HAND_START_SLOT
    }

    /// The stack under the cursor.
    pub fn get_cursor(&self) -> (r: &ItemStack)
        requires
            self.wf(),
            self.cursor() < 9,
            N == 46,
        ensures
            *r == self@[self.cursor() + HAND_START_SLOT],
    {
        &self.slots[(self.hand_slot + HAND_START_SLOT) as usize]
    }


    /// A mutable handle on the stack under the cursor; the slot is
    /// recorded as written, whatever the caller does with the handle.
    pub fn get_cursor_mut(&mut self) -> (r: &mut ItemStack)
        requires
            old(self).wf(),
            old(self).cursor() < 9,
            N == 46,
        ensures
            final(self).wf(),
            final(self).cursor() == old(self).cursor(),
            *r == old(self)@[old(self).cursor() + HAND_START_SLOT],
            final(self)@ == old(self)@.update(
                old(self).cursor() + HAND_START_SLOT,
                *final(r),
            ),
            bitmap_set(final(self).updated()) == bitmap_set(old(self).updated()).insert(
                (old(self).cursor() + HAND_START_SLOT) as u32,
            ),
    {
        let idx = self.hand_slot + HAND_START_SLOT;
        bitmap_insert(&mut self.updated_since_last_tick, idx as u32);
        &mut self.slots[idx as usize]
    }



    /// A mutable handle on a slot's stack, recording the slot as written;
    /// refused for a slot the inventory does not have.
    pub fn get_mut(&mut self, index: u16) -> (r: Result<&mut ItemStack, InventoryAccessError>)
        requires
            old(self).wf(),
        ensures
            final(self).wf(),
            final(self).cursor() == old(self).cursor(),
            final(self).cursor_moved() == old(self).cursor_moved(),
            match r {
                Ok(p) => {
                    &&& index < N
                    &&& *p == old(self)@[index as int]
                    &&& final(self)@ == old(self)@.update(index as int, *final(p))
                    &&& bitmap_set(final(self).updated()) == bitmap_set(
                        old(self).updated(),
                    ).insert(index as u32)
                },
                Err(e) => {
                    &&& index >= N
                    &&& e == (InventoryAccessError::InvalidSlot { index })
                    &&& final(self)@ == old(self)@
                    &&& final(self).updated() == old(self).updated()
                },
            },
    {
        if (index as usize) >= self.slots.len() {
            return Err(InventoryAccessError::InvalidSlot { index });
        }
        bitmap_insert(&mut self.updated_since_last_tick, index as u32);
        Ok(&mut self.slots[index as usize])
    }

    /// A mutable handle on a hand slot's stack, recording the slot as
    /// written; refused for an index past the hand region.
    pub fn get_hand_slot_mut(&mut self, idx: u16) -> (r: Result<
        &mut ItemStack,
        InventoryAccessError,
    >)
        requires
            old(self).wf(),
            N == 46,
            idx <= u16::MAX - HAND_START_SLOT,
        ensures
            final(self).wf(),
            final(self).cursor() == old(self).cursor(),
            final(self).cursor_moved() == old(self).cursor_moved(),
            match r {
                Ok(p) => {
                    &&& idx + HAND_START_SLOT < HAND_END_SLOT
                    &&& *p == old(self)@[idx + HAND_START_SLOT]
                    &&& final(self)@ == old(self)@.update(
                        idx + HAND_START_SLOT,
                        *final(p),
                    )
                    &&& bitmap_set(final(self).updated()) == bitmap_set(
                        old(self).updated(),
                    ).insert((idx + HAND_START_SLOT) as u32)
                },
                Err(e) => {
                    &&& idx + HAND_START_SLOT >= HAND_END_SLOT
                    &&& e == (InventoryAccessError::InvalidSlot {
                        index: (idx + HAND_START_SLOT) as u16,
                    })
                    &&& final(self)@ == old(self)@
                    &&& final(self).updated() == old(self).updated()
                },
            },
    {
        let slot = idx + HAND_START_SLOT;
        if slot >= HAND_END_SLOT {
            return Err(InventoryAccessError::InvalidSlot { index: slot });
        }
        match self.get_mut(slot) {
            Ok(p) => Ok(p),
            Err(e) => Err(e),
        }
    }

    /// Takes one item off the stack under the cursor, records the slot as
    /// written, and hands back a single-item stack of its kind; an empty
    /// hand yields the empty stack and writes nothing.
    pub fn take_one_held(&mut self) -> (r: ItemStack)
        requires
            old(self).wf(),
            old(self).cursor() < 9,
            N == 46,
        ensures
            final(self).wf(),
            final(self).cursor() == old(self).cursor(),
            ({
                let idx = old(self).cursor() + HAND_START_SLOT;
                let held = old(self)@[idx as int];
                &&& bitmap_set(final(self).updated()) == bitmap_set(old(self).updated()).insert(idx as u32)
                &&& if stack_is_empty(held) {
                    r == empty_stack() && final(self)@ == old(self)@
                } else {
                    r == (ItemStack { item: held.item, count: 1 }) && final(self)@ == old(
                        self,
                    )@.update(
                        idx as int,
                        (ItemStack { item: held.item, count: (held.count - 1) as i8 }),
                    )
                }
            }),
    {
        let idx = self.hand_slot + HAND_START_SLOT;
        bitmap_insert(&mut self.updated_since_last_tick, idx as u32);
        let held = self.slots[idx as usize];
        if held.is_empty() {
            assert(final(self)@ =~= old(self)@);
            return ItemStack::empty();
        }
        let p = &mut self.slots[idx as usize];
        *p = held.with_count(held.count - 1);
        ItemStack::new(held.item, 1)
    }

    /// Swaps the stacks of two slots.
    pub fn swap(&mut self, index_a: u16, index_b: u16)
        requires
            old(self).wf(),
            index_a < N,
            index_b < N,
        ensures
            final(self).wf(),
            final(self)@ == old(self)@.update(index_a as int, old(self)@[index_b as int]).update(
                index_b as int,
                old(self)@[index_a as int],
            ),
            final(self).cursor() == old(self).cursor(),
            final(self).updated() == old(self).updated(),
    {
        let va = self.slots[index_a as usize];
        let vb = self.slots[index_b as usize];
        let pa = &mut self.slots[index_a as usize];
        *pa = vb;
        let pb = &mut self.slots[index_b as usize];
        *pb = va;
    }

    /// The stack in a hand slot; refused for an index past the hand
    /// region.
    pub fn get_hand_slot(&self, idx: u16) -> (r: Result<&ItemStack, InventoryAccessError>)
        requires
            self.wf(),
            N == 46,
            idx <= u16::MAX - HAND_START_SLOT,
        ensures
            match r {
                Ok(s) => idx + HAND_START_SLOT < HAND_END_SLOT && *s == self@[idx
                    + HAND_START_SLOT],
                Err(e) => idx + HAND_START_SLOT >= HAND_END_SLOT && e
                    == (InventoryAccessError::InvalidSlot { index: (idx + HAND_START_SLOT) as u16 }),
            },
    {
        let slot = idx + HAND_START_SLOT;
        if slot >= HAND_END_SLOT {
            return Err(InventoryAccessError::InvalidSlot { index: slot });
        }
        Ok(&self.slots[slot as usize])
    }

    /// Tries to move items from `to_add` into one slot: tops up a stack of
    /// the same kind, fills an empty slot when allowed, and otherwise
    /// skips. The slot is recorded as written whenever it exists.
    fn try_add_to_slot(
        &mut self,
        slot: u16,
        to_add: &mut ItemStack,
        can_add_to_empty: bool,
    ) -> (r: Result<TryAddSlot, InventoryAccessError>)
        requires
            old(self).wf(),
        ensures
            final(self).wf(),
            final(self).cursor() == old(self).cursor(),
            final(self).cursor_moved() == old(self).cursor_moved(),
            match r {
                Err(e) => {
                    &&& slot >= N
                    &&& e == (InventoryAccessError::InvalidSlot { index: slot })
                    &&& final(self)@ == old(self)@
                    &&& final(self).updated() == old(self).updated()
                    &&& *final(to_add) == *old(to_add)
                },
                Ok(res) => {
                    &&& slot < N
                    &&& bitmap_set(final(self).updated()) == bitmap_set(old(self).updated()).insert(slot as u32)
                    &&& ({
                        let existing = old(self)@[slot as int];
                        let max = spec_max_stack(old(to_add).item);
                        if stack_is_empty(existing) {
                            if can_add_to_empty {
                                let placed = if old(to_add).count <= max {
                                    old(to_add).count
                                } else {
                                    max
                                };
                                &&& final(self)@ == old(self)@.update(
                                    slot as int,
                                    (ItemStack { item: old(to_add).item, count: placed }),
                                )
                                &&& final(to_add).count == old(to_add).count - placed
                                &&& final(to_add).item == old(to_add).item
                                &&& res == (if final(to_add).count > 0 {
                                    TryAddSlot::Partial
                                } else {
                                    TryAddSlot::Complete
                                })
                            } else {
                                &&& final(self)@ == old(self)@
                                &&& *final(to_add) == *old(to_add)
                                &&& res == TryAddSlot::Skipped
                            }
                        } else if existing.item == old(to_add).item && existing.count < max {
                            let space = (max - existing.count) as i8;
                            if old(to_add).count <= space {
                                &&& final(self)@ == old(self)@.update(
                                    slot as int,
                                    (ItemStack {
                                        item: existing.item,
                                        count: (existing.count + old(to_add).count) as i8,
                                    }),
                                )
                                &&& *final(to_add) == empty_stack()
                                &&& res == TryAddSlot::Complete
                            } else {
                                &&& final(self)@ == old(self)@.update(
                                    slot as int,
                                    (ItemStack { item: existing.item, count: max }),
                                )
                                &&& final(to_add).count == old(to_add).count - space
                                &&& final(to_add).item == old(to_add).item
                                &&& res == TryAddSlot::Partial
                            }
                        } else {
                            &&& final(self)@ == old(self)@
                            &&& *final(to_add) == *old(to_add)
                            &&& res == TryAddSlot::Skipped
                        }
                    })
                },
            },
    {
        let max_stack_size: i8 = to_add.item.max_stack();
        if (slot as usize) >= self.slots.len() {
            return Err(InventoryAccessError::InvalidSlot { index: slot });
        }
        bitmap_insert(&mut self.updated_since_last_tick, slot as u32);
        let existing = self.slots[slot as usize];
        if existing.is_empty() {
            if can_add_to_empty {
                let new_count = if to_add.count <= max_stack_size {
                    to_add.count
                } else {
                    max_stack_size
                };
                let p = &mut self.slots[slot as usize];
                *p = ItemStack::new(to_add.item, new_count);
                to_add.count = to_add.count - new_count;
                if to_add.count > 0 {
                    Ok(TryAddSlot::Partial)
                } else {
                    Ok(TryAddSlot::Complete)
                }
            } else {
                assert(final(self)@ =~= old(self)@);
                Ok(TryAddSlot::Skipped)
            }
        } else if existing.item == to_add.item && existing.count < max_stack_size {
            let space_left = max_stack_size - existing.count;
            if to_add.count <= space_left {
                let p = &mut self.slots[slot as usize];
                *p = existing.with_count(existing.count + to_add.count);
                *to_add = ItemStack::empty();
                Ok(TryAddSlot::Complete)
            } else {
                let p = &mut self.slots[slot as usize];
                *p = existing.with_count(max_stack_size);
                to_add.count = to_add.count - space_left;
                Ok(TryAddSlot::Partial)
            }
        } else {
            assert(final(self)@ =~= old(self)@);
            Ok(TryAddSlot::Skipped)
        }
    }
}

/// The occupied slots of `s` from index `i` on: each index with its
/// stack, empty slots left out.
pub open spec fn occupied_from(s: Seq<ItemStack>, i: int) -> Seq<(u16, ItemStack)>
    decreases s.len() - i,
    when 0 <= i <= s.len()
{
    if i >= s.len() {
        Seq::empty()
    } else if stack_is_empty(s[i]) {
        occupied_from(s, i + 1)
    } else {
        seq![(i as u16, s[i])] + occupied_from(s, i + 1)
    }
}


/// A 2×2 crafting grid of item kinds; air marks an empty cell.
#[derive(Clone, Copy, Debug, PartialEq, Eq, Structural)]
pub struct Crafting2x2 {
    pub top_left: ItemKind,
    pub top_right: ItemKind,
    pub bottom_left: ItemKind,
    pub bottom_right: ItemKind,
}

/// One 2×2 recipe: a grid and what it crafts.
#[derive(Clone, Copy, Debug, PartialEq, Eq, Structural)]
pub struct Recipe2x2 {
    /// The grid that crafts the result.
    pub grid: Crafting2x2,
    /// What the grid crafts.
    pub result: ItemStack,
}

/// The result of the first recipe whose grid matches.
pub open spec fn lookup_2x2(rs: Seq<Recipe2x2>, grid: Crafting2x2) -> Option<ItemStack>
    decreases rs.len(),
{
    if rs.len() == 0 {
        None
    } else if rs[0].grid == grid {
        Some(rs[0].result)
    } else {
        lookup_2x2(rs.skip(1), grid)
    }
}

/// The known 2×2 recipes, in registration order. Its view is the recipe
/// sequence.
pub struct CraftingRegistry {
    recipes: Vec<Recipe2x2>,
}

impl View for CraftingRegistry {
    type V = Seq<Recipe2x2>;

    closed spec fn view(&self) -> Seq<Recipe2x2> {
        self.recipes@
    }
}

impl CraftingRegistry {
    /// A registry with no recipes.
    pub fn new() -> (r: Self)
        ensures
            r@.len() == 0,
    {
        CraftingRegistry { recipes: Vec::new() }
    }

    /// Adds a recipe behind the ones already known.
    pub fn register_2x2(&mut self, recipe: Recipe2x2)
        ensures
            final(self)@ == old(self)@.push(recipe),
    {
        self.recipes.push(recipe);
    }

    /// Looks up the first recipe whose grid matches.
    pub fn get_result_2x2(&self, grid: Crafting2x2) -> (r: Option<ItemStack>)
        ensures
            r == lookup_2x2(self@, grid),
    {
        let mut i: usize = 0;
        assert(self@.skip(0) =~= self@);
        while i < self.recipes.len()
            invariant
                i <= self@.len(),
                lookup_2x2(self@, grid) == lookup_2x2(self@.skip(i as int), grid),
            decreases self@.len() - i,
        {
            let rec = self.recipes[i];
            if rec.grid == grid {
                assert(self@.skip(i as int)[0] == rec);
                return Some(rec.result);
            }
            assert(self@.skip(i as int).skip(1) =~= self@.skip(i + 1));
            i = i + 1;
        }
        assert(self@.skip(i as int).len() == 0);
        None
    }
}

/// The kind a crafting cell contributes: its stack's kind, or air for an
/// empty cell.
pub open spec fn slot_kind(s: ItemStack) -> ItemKind {
    if stack_is_empty(s) {
        ItemKind { raw: 0 }
    } else {
        s.item
    }
}

/// The 2×2 grid a player inventory presents: slots 1 through 4.
pub open spec fn crafting_grid(s: Seq<ItemStack>) -> Crafting2x2 {
    Crafting2x2 {
        top_left: slot_kind(s[1]),
        top_right: slot_kind(s[2]),
        bottom_left: slot_kind(s[3]),
        bottom_right: slot_kind(s[4]),
    }
}

impl Inventory<46> {
    /// The boots armor slot.
    pub const BOOTS_SLOT: u16 = 8;

    /// The chestplate armor slot.
    pub const CHESTPLATE_SLOT: u16 = 6;

    /// The helmet armor slot.
    pub const HELMET_SLOT: u16 = 5;

    /// First slot of the hotbar.
    pub const HOTBAR_START_SLOT: u16 = 36;

    /// The leggings armor slot.
    pub const LEGGINGS_SLOT: u16 = 7;

    /// What the current 2×2 crafting grid yields under `registry`: the
    /// first matching recipe's result, or the empty stack.
    pub fn crafting_result(&self, registry: &CraftingRegistry) -> (r: ItemStack)
        requires
            self.wf(),
        ensures
            r == match lookup_2x2(registry@, crafting_grid(self@)) {
                Some(stack) => stack,
                None => empty_stack(),
            },
    {
        let c1 = self.slots[1];
        let c2 = self.slots[2];
        let c3 = self.slots[3];
        let c4 = self.slots[4];
        let grid = Crafting2x2 {
            top_left: if c1.is_empty() {
                ItemKind::air()
            } else {
                c1.item
            },
            top_right: if c2.is_empty() {
                ItemKind::air()
            } else {
                c2.item
            },
            bottom_left: if c3.is_empty() {
                ItemKind::air()
            } else {
                c3.item
            },
            bottom_right: if c4.is_empty() {
                ItemKind::air()
            } else {
                c4.item
            },
        };
        match registry.get_result_2x2(grid) {
            Some(stack) => stack,
            None => ItemStack::empty(),
        }
    }

    /// Stores a stack in a hotbar slot by hand index; an index no hand
    /// has does nothing.
    pub fn set_hotbar(&mut self, idx: u16, stack: ItemStack)
        requires
            old(self).wf(),
        ensures
            final(self).wf(),
            final(self).cursor() == old(self).cursor(),
            idx < 9 ==> final(self)@ == old(self)@.update((idx + HAND_START_SLOT) as int, stack)
                && bitmap_set(final(self).updated()) == bitmap_set(old(self).updated()).insert(
                (idx + HAND_START_SLOT) as u32,
            ),
            idx >= 9 ==> final(self)@ == old(self)@ && final(self).updated() == old(
                self,
            ).updated(),
    {
        if idx >= 9 {
            return ;
        }
        match self.set(idx + HAND_START_SLOT, stack) {
            Ok(()) => {},
            Err(_) => {
                proof {
                    assert(false);
                }
            },
        }
    }

    /// Stores a stack in the offhand slot.
    pub fn set_offhand(&mut self, stack: ItemStack)
        requires
            old(self).wf(),
        ensures
            final(self).wf(),
            final(self)@ == old(self)@.update(OFFHAND_SLOT as int, stack),
    {
        match self.set(OFFHAND_SLOT, stack) {
            Ok(()) => {},
            Err(_) => {
                proof {
                    assert(false);
                }
            },
        }
    }

    /// Stores a stack in the helmet slot.
    pub fn set_helmet(&mut self, stack: ItemStack)
        requires
            old(self).wf(),
        ensures
            final(self).wf(),
            final(self)@ == old(self)@.update(Self::HELMET_SLOT as int, stack),
    {
        match self.set(Self::HELMET_SLOT, stack) {
            Ok(()) => {},
            Err(_) => {
                proof {
                    assert(false);
                }
            },
        }
    }

    /// Stores a stack in the chestplate slot.
    pub fn set_chestplate(&mut self, stack: ItemStack)
        requires
            old(self).wf(),
        ensures
            final(self).wf(),
            final(self)@ == old(self)@.update(Self::CHESTPLATE_SLOT as int, stack),
    {
        match self.set(Self::CHESTPLATE_SLOT, stack) {
            Ok(()) => {},
            Err(_) => {
                proof {
                    assert(false);
                }
            },
        }
    }

    /// Stores a stack in the leggings slot.
    pub fn set_leggings(&mut self, stack: ItemStack)
        requires
            old(self).wf(),
        ensures
            final(self).wf(),
            final(self)@ == old(self)@.update(Self::LEGGINGS_SLOT as int, stack),
    {
        match self.set(Self::LEGGINGS_SLOT, stack) {
            Ok(()) => {},
            Err(_) => {
                proof {
                    assert(false);
                }
            },
        }
    }

    /// Stores a stack in the boots slot.
    pub fn set_boots(&mut self, stack: ItemStack)
        requires
            old(self).wf(),
        ensures
            final(self).wf(),
            final(self)@ == old(self)@.update(Self::BOOTS_SLOT as int, stack),
    {
        match self.set(Self::BOOTS_SLOT, stack) {
            Ok(()) => {},
            Err(_) => {
                proof {
                    assert(false);
                }
            },
        }
    }

    /// The stack in the helmet slot.
    pub fn get_helmet(&self) -> (r: &ItemStack)
        requires
            self.wf(),
        ensures
            *r == self@[Self::HELMET_SLOT as int],
    {
        &self.slots[Self::HELMET_SLOT as usize]
    }

    /// The stack in the chestplate slot.
    pub fn get_chestplate(&self) -> (r: &ItemStack)
        requires
            self.wf(),
        ensures
            *r == self@[Self::CHESTPLATE_SLOT as int],
    {
        &self.slots[Self::CHESTPLATE_SLOT as usize]
    }

    /// The stack in the leggings slot.
    pub fn get_leggings(&self) -> (r: &ItemStack)
        requires
            self.wf(),
        ensures
            *r == self@[Self::LEGGINGS_SLOT as int],
    {
        &self.slots[Self::LEGGINGS_SLOT as usize]
    }

    /// The stack in the boots slot.
    pub fn get_boots(&self) -> (r: &ItemStack)
        requires
            self.wf(),
        ensures
            *r == self@[Self::BOOTS_SLOT as int],
    {
        &self.slots[Self::BOOTS_SLOT as usize]
    }

    /// One pass over the hotbar then the main inventory, trying each slot
    /// in first-fit order. True when everything was placed.
    fn try_add_pass(&mut self, item: &mut ItemStack, can_add_to_empty: bool) -> (complete: bool)
        requires
            old(self).wf(),
        ensures
            final(self).wf(),
            final(self).cursor() == old(self).cursor(),
            final(self).cursor_moved() == old(self).cursor_moved(),
            forall|j: int|
                0 <= j < 46 ==> (#[trigger] final(self)@[j] == old(self)@[j] || final(self)@[j].item
                    == old(item).item),
            !complete ==> final(item).item == old(item).item,
            complete ==> final(item).count <= 0,
    {
        let mut slot: u16 = 36;
        while slot < 45
            invariant
                36 <= slot <= 45,
                self.wf(),
                self.cursor() == old(self).cursor(),
                self.cursor_moved() == old(self).cursor_moved(),
                item.item == old(item).item,
                forall|j: int|
                    0 <= j < 46 ==> (#[trigger] self@[j] == old(self)@[j] || self@[j].item == old(
                        item,
                    ).item),
            decreases 45 - slot,
        {
            match self.try_add_to_slot(slot, item, can_add_to_empty) {
                Ok(TryAddSlot::Complete) => {
                    return true;
                },
                Ok(_) => {},
                Err(_) => {
                    proof {
                        assert(false);
                    }
                },
            }
            slot = slot + 1;
        }
        let mut slot: u16 = 9;
        while slot < 36
            invariant
                9 <= slot <= 36,
                self.wf(),
                self.cursor() == old(self).cursor(),
                self.cursor_moved() == old(self).cursor_moved(),
                item.item == old(item).item,
                forall|j: int|
                    0 <= j < 46 ==> (#[trigger] self@[j] == old(self)@[j] || self@[j].item == old(
                        item,
                    ).item),
            decreases 36 - slot,
        {
            match self.try_add_to_slot(slot, item, can_add_to_empty) {
                Ok(TryAddSlot::Complete) => {
                    return true;
                },
                Ok(_) => {},
                Err(_) => {
                    proof {
                        assert(false);
                    }
                },
            }
            slot = slot + 1;
        }
        false
    }

    /// Adds an item to the inventory in first-fit order: a stacking pass
    /// over the hotbar then the main inventory, then a pass that may fill
    /// empty slots. Whatever could not be placed comes back as the
    /// remainder; every slot that changed now holds the added kind.
    pub fn try_add_item(&mut self, item: ItemStack) -> (r: AddItemResult)
        requires
            old(self).wf(),
        ensures
            final(self).wf(),
            final(self).cursor() == old(self).cursor(),
            final(self).cursor_moved() == old(self).cursor_moved(),
            forall|j: int|
                0 <= j < 46 ==> (#[trigger] final(self)@[j] == old(self)@[j] || final(self)@[j].item
                    == item.item),
            match r.remaining {
                Some(rem) => rem.item == item.item && rem.count > 0,
                None => true,
            },
    {
        let mut to_add = item;
        if self.try_add_pass(&mut to_add, false) {
            return AddItemResult { remaining: None };
        }
        if self.try_add_pass(&mut to_add, true) {
            return AddItemResult { remaining: None };
        }
        if to_add.count > 0 {
            AddItemResult { remaining: Some(to_add) }
        } else {
            AddItemResult { remaining: None }
        }
    }
}

} // verus!
