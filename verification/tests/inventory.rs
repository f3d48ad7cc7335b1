use numcraft_world::world_converter::numcraft_v0_1_0::constants::BlockType;
use numcraft_world::world_converter::numcraft_v0_1_0::constants::ItemType;
use numcraft_world::world_converter::numcraft_v0_1_0::inventory::plan_transfer;
use numcraft_world::world_converter::numcraft_v0_1_0::inventory::Inventory;
use numcraft_world::world_converter::numcraft_v0_1_0::inventory::ItemStack;

fn stone(amount: u8) -> ItemStack {
    ItemStack::new(ItemType::StoneBlock, amount, false)
}

fn dirt(amount: u8) -> ItemStack {
    ItemStack::new(ItemType::DirtBlock, amount, false)
}

fn inventory_of(stacks: &[ItemStack]) -> Inventory {
    let mut inventory = Inventory::new(stacks.len());
    for (i, stack) in stacks.iter().enumerate() {
        assert_eq!(inventory.replace_slot_item_stack(i, *stack), Some(()));
    }
    inventory.modified = false;
    inventory
}

fn total(inventory: &Inventory) -> usize {
    inventory
        .get_all_slots()
        .iter()
        .map(|s| if s.get_item_type() == ItemType::Air { 0 } else { s.get_amount() as usize })
        .sum()
}

#[test]
fn item_table_of_the_old_format() {
    assert_eq!(ItemType::Air.get_max_stack_amount(), 0);
    assert_eq!(ItemType::StoneBlock.get_max_stack_amount(), 64);
    assert_eq!(ItemType::GrassBlock.get_max_stack_amount(), 64);
    assert_eq!(ItemType::DirtBlock.get_max_stack_amount(), 64);
    assert_eq!(ItemType::Air.get_matching_block_type(), None);
    assert_eq!(ItemType::StoneBlock.get_matching_block_type(), Some(BlockType::Stone));
    assert_eq!(ItemType::GrassBlock.get_matching_block_type(), Some(BlockType::Grass));
    assert_eq!(ItemType::DirtBlock.get_matching_block_type(), Some(BlockType::Dirt));
    for id in 0u8..=255 {
        match ItemType::get_from_id(id) {
            Some(item) => assert_eq!(item.get_id(), id),
            None => assert!(id >= 4),
        }
    }
}

#[test]
fn block_table_of_the_old_format() {
    assert!(BlockType::Air.is_air());
    assert!(!BlockType::Stone.is_air());
    assert_eq!(BlockType::get_from_id(0), Some(BlockType::Air));
    assert_eq!(BlockType::get_from_id(1), Some(BlockType::Stone));
    assert_eq!(BlockType::get_from_id(2), Some(BlockType::Grass));
    assert_eq!(BlockType::get_from_id(3), Some(BlockType::Dirt));
    assert_eq!(BlockType::get_from_id(4), None);
    assert_eq!(BlockType::get_from_id(255), None);
    assert_eq!(BlockType::Air.get_dropped_item_type(), ItemType::Air);
    assert_eq!(BlockType::Stone.get_dropped_item_type(), ItemType::StoneBlock);
    assert_eq!(BlockType::Grass.get_dropped_item_type(), ItemType::DirtBlock);
    assert_eq!(BlockType::Dirt.get_dropped_item_type(), ItemType::DirtBlock);
    assert_eq!(BlockType::Dirt.get_id(), 3);
}

#[test]
fn void_stack_is_empty_air() {
    let stack = ItemStack::void();
    assert_eq!(stack.get_item_type(), ItemType::Air);
    assert_eq!(stack.get_amount(), 0);
    assert!(!stack.creative_slot);
}

#[test]
fn creative_stack_reports_a_full_stack() {
    for raw in [0u8, 1, 64, 200, 255] {
        assert_eq!(ItemStack::new(ItemType::StoneBlock, raw, true).get_amount(), 64);
        assert_eq!(ItemStack::new(ItemType::Air, raw, true).get_amount(), 0);
        assert_eq!(ItemStack::new(ItemType::StoneBlock, raw, false).get_amount(), raw);
    }
}

#[test]
fn clear_keeps_the_creative_flag() {
    let mut stack = ItemStack::new(ItemType::DirtBlock, 12, true);
    stack.clear();
    assert_eq!(stack, ItemStack::new(ItemType::Air, 0, true));
}

#[test]
fn new_inventory_is_void_and_modified() {
    let inventory = Inventory::new(5);
    assert_eq!(inventory.get_all_slots().len(), 5);
    assert!(inventory.get_all_slots().iter().all(|s| *s == ItemStack::void()));
    assert!(inventory.modified);
    assert!(inventory.is_modified());
    assert_eq!(Inventory::new(0).get_all_slots().len(), 0);
}

#[test]
fn fill_writes_every_slot() {
    let mut inventory = inventory_of(&[stone(1), dirt(2), ItemStack::void()]);
    inventory.fill(stone(9));
    assert_eq!(inventory.get_all_slots(), &vec![stone(9), stone(9), stone(9)]);
    assert!(inventory.modified);
    let mut none = Inventory::new(0);
    none.modified = false;
    none.fill(stone(9));
    assert!(!none.modified);
}

#[test]
fn add_to_one_empty_stone_slot_leaves_thirty_six() {
    let mut inventory = inventory_of(&[stone(0)]);
    let remaining = inventory.add_item_stack(stone(100));
    assert_eq!(remaining, 36);
    assert_eq!(inventory.get_all_slots(), &vec![stone(64)]);
    assert!(inventory.modified);
}

#[test]
fn add_tops_up_before_it_fills_empty_slots() {
    let mut inventory = inventory_of(&[ItemStack::void(), stone(60), dirt(3), stone(64), ItemStack::void()]);
    let remaining = inventory.add_item_stack(stone(80));
    assert_eq!(remaining, 0);
    assert_eq!(
        inventory.get_all_slots(),
        &vec![stone(64), stone(64), dirt(3), stone(64), stone(12)]
    );
}

#[test]
fn add_conserves_items() {
    let layouts: Vec<Vec<ItemStack>> = vec![
        vec![],
        vec![stone(10)],
        vec![ItemStack::void(), stone(63), dirt(64), ItemStack::void()],
        vec![ItemStack::new(ItemType::StoneBlock, 3, true), stone(1), ItemStack::void()],
        vec![stone(200), ItemStack::new(ItemType::Air, 7, false)],
    ];
    for layout in layouts {
        for amount in [0u8, 1, 63, 64, 65, 128, 255] {
            let mut inventory = inventory_of(&layout);
            let before = total(&inventory);
            let remaining = inventory.add_item_stack(stone(amount));
            assert!(remaining <= amount);
            assert_eq!(total(&inventory) + remaining as usize, before + amount as usize);
            assert_eq!(inventory.get_all_slots().len(), layout.len());
            assert_eq!(inventory.modified, remaining < amount);
        }
    }
}

#[test]
fn add_of_air_or_of_nothing_changes_nothing() {
    let layout = [ItemStack::void(), stone(5)];
    let mut inventory = inventory_of(&layout);
    assert_eq!(inventory.add_item_stack(ItemStack::new(ItemType::Air, 9, false)), 9);
    assert_eq!(inventory.add_item_stack(stone(0)), 0);
    assert_eq!(inventory.get_all_slots(), &layout.to_vec());
    assert!(!inventory.modified);
}

#[test]
fn add_leaves_creative_and_overfull_stacks_alone() {
    let creative = ItemStack::new(ItemType::StoneBlock, 2, true);
    let mut inventory = inventory_of(&[creative, stone(90)]);
    assert_eq!(inventory.add_item_stack(stone(10)), 10);
    assert_eq!(inventory.get_all_slots(), &vec![creative, stone(90)]);
}

#[test]
fn move_from_creative_slot_into_empty_slot() {
    let creative = ItemStack::new(ItemType::StoneBlock, 0, true);
    let mut inventory = inventory_of(&[creative, ItemStack::void()]);
    assert_eq!(inventory.move_item(0, 1, Some(10)), Some(()));
    assert_eq!(inventory.get_all_slots()[1], stone(10));
    assert_eq!(inventory.get_all_slots()[0], creative);
    assert_eq!(inventory.get_all_slots()[0].get_amount(), 64);
    assert!(inventory.modified);
}

#[test]
fn move_from_creative_slot_tops_up_the_same_type() {
    let creative = ItemStack::new(ItemType::StoneBlock, 0, true);
    let mut inventory = inventory_of(&[creative, stone(60), stone(5)]);
    assert_eq!(inventory.move_item(0, 1, Some(10)), Some(()));
    assert_eq!(inventory.get_all_slots()[1], stone(64));
    assert_eq!(inventory.move_item(0, 2, Some(10)), Some(()));
    assert_eq!(inventory.get_all_slots()[2], stone(15));
    assert_eq!(inventory.move_item(0, 2, None), Some(()));
    assert_eq!(inventory.get_all_slots()[2], stone(64));
    assert_eq!(inventory.get_all_slots()[0], creative);
}

#[test]
fn move_from_creative_slot_overwrites_another_type() {
    let creative = ItemStack::new(ItemType::StoneBlock, 0, true);
    let mut inventory = inventory_of(&[creative, dirt(40)]);
    assert_eq!(inventory.move_item(0, 1, Some(7)), Some(()));
    assert_eq!(inventory.get_all_slots(), &vec![creative, stone(7)]);
}

#[test]
fn move_into_creative_slot_swallows_the_items() {
    let creative = ItemStack::new(ItemType::DirtBlock, 0, true);
    let mut inventory = inventory_of(&[stone(30), creative]);
    assert_eq!(inventory.move_item(0, 1, Some(10)), Some(()));
    assert_eq!(inventory.get_all_slots(), &vec![stone(20), creative]);
    assert_eq!(inventory.move_item(0, 1, None), Some(()));
    assert_eq!(inventory.get_all_slots(), &vec![ItemStack::void(), creative]);
}

#[test]
fn move_between_creative_slots_does_nothing() {
    let a = ItemStack::new(ItemType::DirtBlock, 0, true);
    let b = ItemStack::new(ItemType::StoneBlock, 0, true);
    let mut inventory = inventory_of(&[a, b]);
    assert_eq!(inventory.move_item(0, 1, Some(3)), Some(()));
    assert_eq!(inventory.get_all_slots(), &vec![a, b]);
    assert!(!inventory.modified);
}

#[test]
fn move_merges_stacks_of_one_type() {
    let mut inventory = inventory_of(&[stone(10), stone(20)]);
    assert_eq!(inventory.move_item(0, 1, Some(4)), Some(()));
    assert_eq!(inventory.get_all_slots(), &vec![stone(6), stone(24)]);
    assert_eq!(inventory.move_item(0, 1, None), Some(()));
    assert_eq!(inventory.get_all_slots(), &vec![ItemStack::void(), stone(30)]);

    let mut full = inventory_of(&[stone(10), stone(54)]);
    assert_eq!(full.move_item(0, 1, None), Some(()));
    assert_eq!(full.get_all_slots(), &vec![ItemStack::void(), stone(64)]);

    let mut over = inventory_of(&[stone(30), stone(50)]);
    assert_eq!(over.move_item(0, 1, None), Some(()));
    assert_eq!(over.get_all_slots(), &vec![stone(16), stone(64)]);
}

#[test]
fn move_splits_into_an_empty_slot() {
    let mut inventory = inventory_of(&[stone(30), ItemStack::void()]);
    assert_eq!(inventory.move_item(0, 1, Some(12)), Some(()));
    assert_eq!(inventory.get_all_slots(), &vec![stone(18), stone(12)]);
}

#[test]
fn move_swaps_unlike_or_full_stacks() {
    let mut inventory = inventory_of(&[stone(30), dirt(7), ItemStack::void(), stone(64)]);
    assert_eq!(inventory.move_item(0, 1, Some(5)), Some(()));
    assert_eq!(inventory.get_all_slots()[0], dirt(7));
    assert_eq!(inventory.get_all_slots()[1], stone(30));
    assert_eq!(inventory.move_item(1, 2, None), Some(()));
    assert_eq!(inventory.get_all_slots()[1], ItemStack::void());
    assert_eq!(inventory.get_all_slots()[2], stone(30));
    assert_eq!(inventory.move_item(2, 3, Some(5)), Some(()));
    assert_eq!(inventory.get_all_slots()[2], stone(64));
    assert_eq!(inventory.get_all_slots()[3], stone(30));
}

#[test]
fn move_of_more_than_there_is_moves_everything() {
    let mut inventory = inventory_of(&[stone(30), ItemStack::void()]);
    assert_eq!(inventory.move_item(0, 1, Some(1000)), Some(()));
    assert_eq!(inventory.get_all_slots(), &vec![ItemStack::void(), stone(30)]);
}

#[test]
fn move_with_a_slot_out_of_range_is_refused() {
    let layout = [stone(30), dirt(2)];
    let mut inventory = inventory_of(&layout);
    assert_eq!(inventory.move_item(0, 2, None), None);
    assert_eq!(inventory.move_item(2, 0, None), None);
    assert_eq!(inventory.move_item(usize::MAX, usize::MAX, Some(1)), None);
    assert_eq!(inventory.get_all_slots(), &layout.to_vec());
    assert!(!inventory.modified);
    assert_eq!(inventory.move_item(1, 1, None), Some(()));
    assert_eq!(inventory.get_all_slots(), &layout.to_vec());
    assert!(!inventory.modified);
}

#[test]
fn move_between_two_inventories() {
    let mut here = inventory_of(&[stone(30), dirt(2)]);
    let mut there = inventory_of(&[ItemStack::void(), stone(60)]);
    assert_eq!(here.move_item_in_other_inventory(&mut there, 0, 0, Some(10)), Some(()));
    assert_eq!(here.get_all_slots(), &vec![stone(20), dirt(2)]);
    assert_eq!(there.get_all_slots(), &vec![stone(10), stone(60)]);
    assert!(here.modified && there.modified);
    assert_eq!(here.move_item_in_other_inventory(&mut there, 0, 1, None), Some(()));
    assert_eq!(here.get_all_slots(), &vec![stone(16), dirt(2)]);
    assert_eq!(there.get_all_slots(), &vec![stone(10), stone(64)]);
    assert_eq!(here.move_item_in_other_inventory(&mut there, 1, 0, None), Some(()));
    assert_eq!(here.get_all_slots(), &vec![stone(16), stone(10)]);
    assert_eq!(there.get_all_slots(), &vec![dirt(2), stone(64)]);
}

#[test]
fn move_between_two_inventories_out_of_range_is_refused() {
    let mut here = inventory_of(&[stone(30)]);
    let mut there = inventory_of(&[ItemStack::void(), stone(60)]);
    assert_eq!(here.move_item_in_other_inventory(&mut there, 1, 0, None), None);
    assert_eq!(here.move_item_in_other_inventory(&mut there, 0, 2, None), None);
    assert_eq!(here.get_all_slots(), &vec![stone(30)]);
    assert_eq!(there.get_all_slots(), &vec![ItemStack::void(), stone(60)]);
    assert!(!here.modified && !there.modified);
}

#[test]
fn creative_source_marks_only_the_other_inventory() {
    let creative = ItemStack::new(ItemType::StoneBlock, 0, true);
    let mut here = inventory_of(&[creative]);
    let mut there = inventory_of(&[ItemStack::void()]);
    assert_eq!(here.move_item_in_other_inventory(&mut there, 0, 0, Some(3)), Some(()));
    assert!(!here.modified);
    assert!(there.modified);
    assert_eq!(there.get_all_slots(), &vec![stone(3)]);
}

#[test]
fn plan_says_what_is_written() {
    let plan = plan_transfer(stone(10), stone(20), Some(4));
    assert_eq!(plan.start, Some(stone(6)));
    assert_eq!(plan.end, Some(stone(24)));
    let creative = ItemStack::new(ItemType::StoneBlock, 0, true);
    let plan = plan_transfer(creative, dirt(1), None);
    assert_eq!(plan.start, None);
    assert_eq!(plan.end, Some(stone(64)));
    let plan = plan_transfer(creative, creative, None);
    assert_eq!(plan.start, None);
    assert_eq!(plan.end, None);
}

#[test]
fn take_one_counts_down_and_clears() {
    let creative = ItemStack::new(ItemType::DirtBlock, 1, true);
    let mut inventory = inventory_of(&[stone(2), creative, ItemStack::void()]);
    assert_eq!(inventory.take_one(0), Some(ItemType::StoneBlock));
    assert_eq!(inventory.get_all_slots()[0], stone(1));
    assert!(inventory.modified);
    assert_eq!(inventory.take_one(0), Some(ItemType::StoneBlock));
    assert_eq!(inventory.get_all_slots()[0], ItemStack::void());
    assert_eq!(inventory.take_one(0), Some(ItemType::Air));
    inventory.modified = false;
    assert_eq!(inventory.take_one(1), Some(ItemType::DirtBlock));
    assert_eq!(inventory.get_all_slots()[1], creative);
    assert_eq!(inventory.take_one(2), Some(ItemType::Air));
    assert!(!inventory.modified);
    assert_eq!(inventory.take_one(3), None);
}

#[test]
fn slot_access_is_bounds_checked() {
    let mut inventory = inventory_of(&[stone(2), dirt(5)]);
    assert_eq!(inventory.get_ref_to_slot(1), Some(&dirt(5)));
    assert_eq!(inventory.get_ref_to_slot(2), None);
    assert!(inventory.get_ref_to_slot_mut(2).is_none());
    *inventory.get_ref_to_slot_mut(0).unwrap() = dirt(9);
    assert_eq!(inventory.get_all_slots(), &vec![dirt(9), dirt(5)]);
    assert!(!inventory.modified);
    assert_eq!(inventory.replace_slot_item_stack(2, stone(1)), None);
    assert_eq!(inventory.swap_slots(0, 2), None);
    assert_eq!(inventory.swap_slots(2, 0), None);
    let mut held = stone(3);
    assert_eq!(inventory.swap_item_stack(2, &mut held), None);
    assert_eq!(held, stone(3));
    assert_eq!(inventory.get_all_slots(), &vec![dirt(9), dirt(5)]);
    assert!(!inventory.modified);
}

#[test]
fn swaps_exchange_stacks() {
    let mut inventory = inventory_of(&[stone(2), dirt(5)]);
    assert_eq!(inventory.swap_slots(0, 1), Some(()));
    assert_eq!(inventory.get_all_slots(), &vec![dirt(5), stone(2)]);
    assert!(inventory.modified);
    inventory.modified = false;
    let mut held = stone(40);
    assert_eq!(inventory.swap_item_stack(0, &mut held), Some(()));
    assert_eq!(held, dirt(5));
    assert_eq!(inventory.get_all_slots(), &vec![stone(40), stone(2)]);
    assert!(inventory.modified);
}

#[test]
fn clone_copies_slots_and_flag() {
    let inventory = inventory_of(&[stone(2), dirt(5)]);
    let copy = inventory.clone();
    assert_eq!(copy.get_all_slots(), inventory.get_all_slots());
    assert_eq!(copy.modified, inventory.modified);
}
