use hyperion_core::event::Posture;
use hyperion_core::inventory::{
    slot_index_from_hand, Crafting2x2, CraftingRegistry, InventoryAccessError, ItemKind,
    ItemStack, PlayerInventory, Recipe2x2,
};

fn stone(count: i8) -> ItemStack {
    ItemStack::new(ItemKind::from_raw(1), count)
}

#[test]
fn set_and_get_round_trip() {
    let mut inv = PlayerInventory::default();
    inv.set(10, stone(7)).unwrap();
    assert_eq!(*inv.get(10).unwrap(), stone(7));
    assert!(inv.updated_since_last_tick.contains(10));
}

#[test]
fn out_of_range_slots_are_refused() {
    let mut inv = PlayerInventory::default();
    assert_eq!(
        inv.set(46, stone(1)),
        Err(InventoryAccessError::InvalidSlot { index: 46 })
    );
    assert_eq!(
        inv.get(100).unwrap_err(),
        InventoryAccessError::InvalidSlot { index: 100 }
    );
}

#[test]
fn try_add_item_fills_the_hotbar_first() {
    let mut inv = PlayerInventory::default();
    let result = inv.try_add_item(stone(64));
    assert!(result.remaining.is_none());
    assert_eq!(inv.get(36).unwrap().count, 64);
}

#[test]
fn try_add_item_tops_up_existing_stacks_before_empty_slots() {
    let mut inv = PlayerInventory::default();
    inv.set(36, stone(32)).unwrap();
    let result = inv.try_add_item(stone(64));
    assert!(result.remaining.is_none());
    assert_eq!(inv.get(36).unwrap().count, 64);
    assert_eq!(inv.get(37).unwrap().count, 32);
}

#[test]
fn try_add_item_reports_what_does_not_fit() {
    let mut inv = PlayerInventory::default();
    for slot in 0..46 {
        inv.set(slot, stone(64)).unwrap();
    }
    let result = inv.try_add_item(stone(64));
    assert_eq!(result.remaining, Some(stone(64)));
}

#[test]
fn take_one_held_decrements_the_cursor_stack() {
    let mut inv = PlayerInventory::default();
    inv.set(36, stone(3)).unwrap();
    let taken = inv.take_one_held();
    assert_eq!(taken, stone(1));
    assert_eq!(inv.get(36).unwrap().count, 2);

    let mut empty_hand = PlayerInventory::default();
    assert_eq!(empty_hand.take_one_held(), ItemStack::empty());
}

#[test]
fn clear_empties_occupied_slots_and_records_them() {
    let mut inv = PlayerInventory::default();
    inv.set(3, stone(5)).unwrap();
    inv.set(40, stone(9)).unwrap();
    inv.clear();
    assert!(inv.get(3).unwrap().is_empty());
    assert!(inv.get(40).unwrap().is_empty());
    assert!(inv.updated_since_last_tick.contains(3));
    assert!(inv.updated_since_last_tick.contains(40));
}

#[test]
fn items_lists_only_occupied_slots() {
    let mut inv = PlayerInventory::default();
    inv.set(2, stone(1)).unwrap();
    inv.set(44, stone(2)).unwrap();
    let items = inv.items();
    assert_eq!(items, vec![(2u16, stone(1)), (44u16, stone(2))]);
}

#[test]
fn swap_exchanges_two_slots() {
    let mut inv = PlayerInventory::default();
    inv.set(1, stone(1)).unwrap();
    inv.set(2, stone(2)).unwrap();
    inv.swap(1, 2);
    assert_eq!(inv.get(1).unwrap().count, 2);
    assert_eq!(inv.get(2).unwrap().count, 1);
}

#[test]
fn hand_slot_indexing() {
    assert_eq!(slot_index_from_hand(0), 36);
    assert_eq!(slot_index_from_hand(8), 44);
    assert_eq!(slot_index_from_hand(9), 0);
}

#[test]
fn crafting_result_uses_the_first_matching_recipe() {
    let mut registry = CraftingRegistry::new();
    let planks = ItemKind::from_raw(20);
    let log = ItemKind::from_raw(40);
    let grid = Crafting2x2 {
        top_left: log,
        top_right: ItemKind::air(),
        bottom_left: ItemKind::air(),
        bottom_right: ItemKind::air(),
    };
    registry.register_2x2(Recipe2x2 { grid, result: ItemStack::new(planks, 4) });

    let mut inv = PlayerInventory::default();
    inv.set(1, ItemStack::new(log, 1)).unwrap();
    assert_eq!(inv.crafting_result(&registry), ItemStack::new(planks, 4));

    inv.set(1, ItemStack::empty()).unwrap();
    assert_eq!(inv.crafting_result(&registry), ItemStack::empty());
}

#[test]
fn armor_slots_round_trip() {
    let mut inv = PlayerInventory::default();
    inv.set_helmet(stone(1));
    inv.set_chestplate(stone(2));
    inv.set_leggings(stone(3));
    inv.set_boots(stone(4));
    inv.set_offhand(stone(5));
    assert_eq!(inv.get_helmet().count, 1);
    assert_eq!(inv.get_chestplate().count, 2);
    assert_eq!(inv.get_leggings().count, 3);
    assert_eq!(inv.get_boots().count, 4);
    assert_eq!(inv.get(45).unwrap().count, 5);
}

#[test]
fn posture_wire_ids() {
    assert_eq!(Posture::Standing.id(), 0);
    assert_eq!(Posture::Sneaking.id(), 5);
    assert_eq!(Posture::Digging.id(), 14);
}

#[test]
fn mutable_slot_access_records_the_write() {
    let mut inv = PlayerInventory::default();
    *inv.get_mut(12).unwrap() = stone(6);
    assert_eq!(inv.get(12).unwrap().count, 6);
    assert!(inv.updated_since_last_tick.contains(12));
    assert!(inv.get_mut(46).is_err());
}

#[test]
fn cursor_handle_points_at_the_held_slot() {
    let mut inv = PlayerInventory::default();
    *inv.get_cursor_mut() = stone(2);
    assert_eq!(inv.get_cursor().count, 2);
    assert_eq!(inv.get_cursor_index(), 36);
    assert!(inv.get_hand_slot(0).unwrap().count == 2);
    assert!(inv.get_hand_slot_mut(9).is_err());
}
