use blockworld::block::BlockType;
use blockworld::inventory::{
    has_stack_room, put_into_chest, spill_all, take_from_chest, Inventory, Slot,
};

fn count(slots: &[Slot; 9], b: BlockType) -> u32 {
    slots
        .iter()
        .map(|s| match s {
            Some((x, q)) if *x == b => *q,
            _ => 0,
        })
        .sum()
}

#[test]
fn new_inventory_is_empty() {
    let inv = Inventory::new();
    assert_eq!(inv.selected_slot, 0);
    assert!(inv.slots.iter().all(|s| s.is_none()));
    assert_eq!(inv.get_selected_block(), None);
}

#[test]
fn select_slot_within_hotbar() {
    let mut inv = Inventory::new();
    inv.select_slot(4);
    assert_eq!(inv.selected_slot, 4);
    inv.select_slot(8);
    assert_eq!(inv.selected_slot, 8);
}

#[test]
fn select_slot_outside_hotbar_is_ignored() {
    let mut inv = Inventory::new();
    inv.select_slot(3);
    inv.select_slot(9);
    assert_eq!(inv.selected_slot, 3);
    inv.select_slot(usize::MAX);
    assert_eq!(inv.selected_slot, 3);
}

#[test]
fn add_block_fills_first_empty_slot() {
    let mut inv = Inventory::new();
    assert!(inv.add_block(BlockType::Stone));
    assert_eq!(inv.slots[0], Some((BlockType::Stone, 1)));
    assert!(inv.add_block(BlockType::Dirt));
    assert_eq!(inv.slots[1], Some((BlockType::Dirt, 1)));
    assert_eq!(inv.get_selected_block(), Some(BlockType::Stone));
}

#[test]
fn add_block_stacks_onto_existing_stack() {
    let mut inv = Inventory::new();
    inv.slots[3] = Some((BlockType::Sand, 5));
    assert!(inv.add_block(BlockType::Sand));
    assert_eq!(inv.slots[3], Some((BlockType::Sand, 6)));
    assert_eq!(inv.slots[0], None);
}

#[test]
fn add_block_stacks_onto_first_of_two_stacks() {
    let mut inv = Inventory::new();
    inv.slots[2] = Some((BlockType::Wood, 1));
    inv.slots[5] = Some((BlockType::Wood, 7));
    assert!(inv.add_block(BlockType::Wood));
    assert_eq!(inv.slots[2], Some((BlockType::Wood, 2)));
    assert_eq!(inv.slots[5], Some((BlockType::Wood, 7)));
}

#[test]
fn add_block_into_full_inventory_fails_unchanged() {
    let mut inv = Inventory::new();
    for i in 0..9 {
        inv.slots[i] = Some((BlockType::Stone, i as u32 + 1));
    }
    let before = inv.slots;
    assert!(!inv.add_block(BlockType::Dirt));
    assert_eq!(inv.slots, before);
    assert!(inv.add_block(BlockType::Stone));
    assert_eq!(inv.slots[0], Some((BlockType::Stone, 2)));
}

#[test]
fn decrement_selected_uses_one_item() {
    let mut inv = Inventory::new();
    inv.slots[0] = Some((BlockType::Torch, 3));
    inv.decrement_selected();
    assert_eq!(inv.slots[0], Some((BlockType::Torch, 2)));
}

#[test]
fn decrement_selected_empties_last_item() {
    let mut inv = Inventory::new();
    inv.slots[2] = Some((BlockType::Torch, 1));
    inv.select_slot(2);
    assert_eq!(inv.get_selected_block(), Some(BlockType::Torch));
    inv.decrement_selected();
    assert_eq!(inv.slots[2], None);
    assert_eq!(inv.get_selected_block(), None);
}

#[test]
fn decrement_selected_on_empty_slot_does_nothing() {
    let mut inv = Inventory::new();
    inv.slots[1] = Some((BlockType::Dirt, 4));
    inv.decrement_selected();
    assert_eq!(inv.slots[0], None);
    assert_eq!(inv.slots[1], Some((BlockType::Dirt, 4)));
}

#[test]
fn zero_stack_is_not_a_selected_block() {
    let mut inv = Inventory::new();
    inv.slots[0] = Some((BlockType::Gold, 0));
    assert_eq!(inv.get_selected_block(), None);
    inv.decrement_selected();
    assert_eq!(inv.slots[0], Some((BlockType::Gold, 0)));
}

#[test]
fn add_then_decrement_restores_count() {
    let mut inv = Inventory::new();
    inv.slots[0] = Some((BlockType::Coal, 2));
    let before = count(&inv.slots, BlockType::Coal);
    assert!(inv.add_block(BlockType::Coal));
    assert_eq!(count(&inv.slots, BlockType::Coal), before + 1);
    inv.decrement_selected();
    assert_eq!(count(&inv.slots, BlockType::Coal), before);
}

#[test]
fn take_from_chest_moves_one_item() {
    let mut chest: [Slot; 9] = [None; 9];
    chest[4] = Some((BlockType::Iron, 3));
    let mut inv = Inventory::new();
    assert!(take_from_chest(&mut chest, 4, &mut inv));
    assert_eq!(chest[4], Some((BlockType::Iron, 2)));
    assert_eq!(inv.slots[0], Some((BlockType::Iron, 1)));
    assert!(take_from_chest(&mut chest, 4, &mut inv));
    assert!(take_from_chest(&mut chest, 4, &mut inv));
    assert_eq!(chest[4], None);
    assert_eq!(inv.slots[0], Some((BlockType::Iron, 3)));
    assert!(!take_from_chest(&mut chest, 4, &mut inv));
}

#[test]
fn take_from_chest_into_full_inventory_keeps_chest() {
    let mut chest: [Slot; 9] = [None; 9];
    chest[0] = Some((BlockType::Diamond, 1));
    let mut inv = Inventory::new();
    for i in 0..9 {
        inv.slots[i] = Some((BlockType::Stone, 1));
    }
    assert!(!take_from_chest(&mut chest, 0, &mut inv));
    assert_eq!(chest[0], Some((BlockType::Diamond, 1)));
}

#[test]
fn put_into_chest_stacks_and_conserves() {
    let mut chest: [Slot; 9] = [None; 9];
    chest[6] = Some((BlockType::Sand, 10));
    let mut inv = Inventory::new();
    inv.slots[1] = Some((BlockType::Sand, 2));
    let total = count(&chest, BlockType::Sand) + count(&inv.slots, BlockType::Sand);
    assert!(put_into_chest(&mut chest, 1, &mut inv));
    assert_eq!(chest[6], Some((BlockType::Sand, 11)));
    assert_eq!(inv.slots[1], Some((BlockType::Sand, 1)));
    assert!(put_into_chest(&mut chest, 1, &mut inv));
    assert_eq!(inv.slots[1], None);
    assert_eq!(count(&chest, BlockType::Sand) + count(&inv.slots, BlockType::Sand), total);
}

#[test]
fn put_into_full_chest_keeps_inventory() {
    let mut chest: [Slot; 9] = [Some((BlockType::Dirt, 1)); 9];
    let mut inv = Inventory::new();
    inv.slots[0] = Some((BlockType::Gravel, 3));
    assert!(!put_into_chest(&mut chest, 0, &mut inv));
    assert_eq!(inv.slots[0], Some((BlockType::Gravel, 3)));
    assert!(!put_into_chest(&mut chest, 5, &mut inv));
}

#[test]
fn dying_spills_every_item_slot_by_slot() {
    let mut inv = Inventory::new();
    inv.slots[0] = Some((BlockType::Dirt, 2));
    inv.slots[3] = Some((BlockType::Torch, 1));
    inv.slots[5] = Some((BlockType::Dirt, 1));
    inv.slots[8] = Some((BlockType::Stone, 0));
    inv.selected_slot = 4;
    let items = spill_all(&mut inv);
    assert_eq!(
        items,
        vec![BlockType::Dirt, BlockType::Dirt, BlockType::Torch, BlockType::Dirt]
    );
    assert!(inv.slots.iter().all(|s| s.is_none()));
    assert_eq!(inv.selected_slot, 4);
    assert!(spill_all(&mut Inventory::new()).is_empty());
}

#[test]
fn stack_room_looks_at_the_first_stack_only() {
    let mut inv = Inventory::new();
    assert!(has_stack_room(&inv.slots, BlockType::Dirt));
    inv.slots[2] = Some((BlockType::Dirt, u32::MAX));
    assert!(!has_stack_room(&inv.slots, BlockType::Dirt));
    assert!(has_stack_room(&inv.slots, BlockType::Stone));
    inv.slots[1] = Some((BlockType::Dirt, 5));
    assert!(has_stack_room(&inv.slots, BlockType::Dirt));
}
