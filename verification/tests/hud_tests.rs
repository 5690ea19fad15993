use blockworld::block::BlockType;
use blockworld::hud::{decimal_digits, hotbar_view, prepend_selection_quad, quad_indices, HOTBAR_NUM_SLOTS};
use blockworld::inventory::Inventory;

#[test]
fn digits_of_numbers() {
    assert_eq!(decimal_digits(0), vec![0]);
    assert_eq!(decimal_digits(7), vec![7]);
    assert_eq!(decimal_digits(10), vec![1, 0]);
    assert_eq!(decimal_digits(64), vec![6, 4]);
    assert_eq!(decimal_digits(100), vec![1, 0, 0]);
    assert_eq!(decimal_digits(u32::MAX), vec![4, 2, 9, 4, 9, 6, 7, 2, 9, 5]);
}

#[test]
fn hotbar_shows_six_slots() {
    let mut inv = Inventory::new();
    inv.slots[0] = Some((BlockType::Grass, 1));
    inv.slots[1] = Some((BlockType::Stone, 23));
    inv.slots[2] = Some((BlockType::Dirt, 0));
    inv.slots[7] = Some((BlockType::Sand, 5));
    inv.select_slot(1);
    let views = hotbar_view(&inv);
    assert_eq!(views.len(), HOTBAR_NUM_SLOTS);
    assert!(!views[0].selected && views[1].selected);
    assert_eq!(views[0].icon, Some(1));
    assert!(views[0].count.is_empty());
    assert_eq!(views[1].icon, Some(3));
    assert_eq!(views[1].count, vec![2, 3]);
    assert_eq!(views[2].icon, None);
    assert_eq!(views[3].icon, None);
}

#[test]
fn quad_index_lists() {
    assert_eq!(quad_indices(0), [0, 1, 2, 0, 2, 3]);
    assert_eq!(quad_indices(8), [8, 9, 10, 8, 10, 11]);
    let hotbar = vec![0u16, 1, 2, 0, 2, 3, 4, 5, 6, 4, 6, 7];
    let all = prepend_selection_quad(&hotbar);
    assert_eq!(all, vec![0, 1, 2, 0, 2, 3, 4, 5, 6, 4, 6, 7, 8, 9, 10, 8, 10, 11]);
    assert_eq!(prepend_selection_quad(&Vec::new()), vec![0, 1, 2, 0, 2, 3]);
}
