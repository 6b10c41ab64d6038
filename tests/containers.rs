use pixelscape::bank::{deposit_all_items, deposit_items, withdraw_items, Bank};
use pixelscape::inventory::{Inventory, Item, ItemType, ResourceType};

fn stack_of_logs(quantity: u32) -> Item {
    Item {
        name: "Logs".to_string(),
        item_type: ItemType::Resource(ResourceType::Logs { firemaking_level: 1 }),
        stackable: true,
        quantity,
    }
}

fn occupied(inv: &Inventory) -> usize {
    inv.get_items().iter().filter(|s| s.is_some()).count()
}

#[test]
fn stackable_adds_merge_into_one_slot() {
    let mut inv = Inventory::new(28);
    assert!(inv.add_item(stack_of_logs(3)));
    assert!(inv.add_item(stack_of_logs(4)));
    assert_eq!(occupied(&inv), 1);
    assert_eq!(inv.get_item(0).unwrap().quantity, 7);
}

#[test]
fn currency_stacks_even_without_flag() {
    let mut inv = Inventory::new(28);
    let mut coins = Item::gp(5);
    coins.stackable = false;
    assert!(coins.is_stackable());
    assert!(inv.add_item(coins));
    assert!(inv.add_item(Item::gp(10)));
    assert_eq!(occupied(&inv), 1);
    assert_eq!(inv.get_item(0).unwrap().quantity, 15);
}

#[test]
fn unstackable_items_take_separate_slots() {
    let mut inv = Inventory::new(28);
    assert!(inv.add_item(Item::logs()));
    assert!(inv.add_item(Item::logs()));
    assert_eq!(occupied(&inv), 2);
}

#[test]
fn full_inventory_refuses_unstackable_item() {
    let mut inv = Inventory::new(28);
    for _ in 0..28 {
        assert!(inv.add_item(Item::bones()));
    }
    let before: Vec<String> = inv.get_items().iter().map(|s| s.as_ref().unwrap().name.clone()).collect();
    assert!(!inv.add_item(Item::bronze_sword()));
    let after: Vec<String> = inv.get_items().iter().map(|s| s.as_ref().unwrap().name.clone()).collect();
    assert_eq!(before, after);
    assert_eq!(occupied(&inv), 28);
}

#[test]
fn full_inventory_still_merges_into_existing_stack() {
    let mut inv = Inventory::new(2);
    assert!(inv.add_item(Item::gp(1)));
    assert!(inv.add_item(Item::bones()));
    assert!(inv.add_item(Item::gp(2)));
    assert_eq!(inv.get_item(0).unwrap().quantity, 3);
}

#[test]
fn remove_n_more_than_held_changes_nothing() {
    let mut inv = Inventory::new(28);
    inv.add_item(stack_of_logs(5));
    assert!(inv.remove_items(0, 6).is_none());
    assert_eq!(inv.get_item(0).unwrap().quantity, 5);
}

#[test]
fn remove_n_splits_and_empties() {
    let mut inv = Inventory::new(28);
    inv.add_item(stack_of_logs(5));
    let part = inv.remove_items(0, 2).unwrap();
    assert_eq!(part.quantity, 2);
    assert_eq!(part.name, "Logs");
    assert!(part.stackable);
    assert_eq!(inv.get_item(0).unwrap().quantity, 3);
    let rest = inv.remove_items(0, 3).unwrap();
    assert_eq!(rest.quantity, 3);
    assert!(inv.get_item(0).is_none());
}

#[test]
fn remove_n_refuses_zero_and_unstackable() {
    let mut inv = Inventory::new(28);
    inv.add_item(stack_of_logs(5));
    inv.add_item(Item::bones());
    assert!(inv.remove_items(0, 0).is_none());
    assert!(inv.remove_items(1, 1).is_none());
    assert_eq!(inv.get_item(0).unwrap().quantity, 5);
    assert!(inv.get_item(1).is_some());
}

#[test]
fn out_of_range_slot_is_safe() {
    let mut inv = Inventory::new(28);
    assert!(inv.get_item(28).is_none());
    assert!(inv.remove_item(100).is_none());
    assert!(inv.remove_items(100, 1).is_none());
    let bank = Bank::new(4);
    assert!(bank.get_item(4).is_none());
}

#[test]
fn remove_one_then_add_restores_stack() {
    let mut inv = Inventory::new(28);
    inv.add_item(stack_of_logs(4));
    let one = inv.remove_item(0).unwrap();
    assert_eq!(one.quantity, 1);
    assert_eq!(inv.get_item(0).unwrap().quantity, 3);
    assert!(inv.add_item(one));
    assert_eq!(inv.get_item(0).unwrap().quantity, 4);
    assert_eq!(occupied(&inv), 1);
}

#[test]
fn remove_one_then_add_restores_single_item() {
    let mut inv = Inventory::new(28);
    inv.add_item(Item::bones());
    inv.add_item(Item::logs());
    let taken = inv.remove_item(1).unwrap();
    assert!(inv.get_item(1).is_none());
    assert!(inv.add_item(taken));
    assert_eq!(inv.get_item(1).unwrap().name, "Logs");
    assert_eq!(occupied(&inv), 2);
}

#[test]
fn bank_stacks_everything() {
    let mut bank = Bank::new(800);
    assert!(bank.add_item(Item::logs()));
    assert!(bank.add_item(Item::logs()));
    assert_eq!(bank.get_item(0).unwrap().quantity, 2);
    assert!(bank.get_item(1).is_none());
}

#[test]
fn bank_remove_one_splits_a_stack() {
    let mut bank = Bank::new(10);
    bank.add_item(Item::gp(2));
    let one = bank.remove_item(0).unwrap();
    assert_eq!(one.quantity, 1);
    assert_eq!(bank.get_item(0).unwrap().quantity, 1);
    bank.remove_item(0).unwrap();
    assert!(bank.get_item(0).is_none());
}

#[test]
fn bank_remove_one_takes_whole_unstackable_slot() {
    let mut bank = Bank::new(10);
    bank.add_item(Item::logs());
    bank.add_item(Item::logs());
    assert_eq!(bank.get_item(0).unwrap().quantity, 2);
    let all = bank.remove_item(0).unwrap();
    assert_eq!(all.quantity, 2);
    assert!(!all.stackable);
    assert!(bank.get_item(0).is_none());
}

#[test]
fn deposit_all_merges_with_bank_stack() {
    let mut inv = Inventory::new(28);
    let mut bank = Bank::new(800);
    inv.add_item(stack_of_logs(5));
    bank.add_item(stack_of_logs(10));
    let moved = deposit_all_items(0, &mut inv, &mut bank);
    assert_eq!(moved, 5);
    assert!(inv.get_item(0).is_none());
    assert_eq!(bank.get_item(0).unwrap().quantity, 15);
    assert_eq!(bank.get_items().iter().filter(|s| s.is_some()).count(), 1);
}

#[test]
fn deposit_all_takes_every_slot_of_the_name() {
    let mut inv = Inventory::new(28);
    let mut bank = Bank::new(800);
    inv.add_item(Item::logs());
    inv.add_item(Item::bones());
    inv.add_item(Item::logs());
    let moved = deposit_all_items(2, &mut inv, &mut bank);
    assert_eq!(moved, 2);
    assert_eq!(occupied(&inv), 1);
    assert_eq!(inv.get_item(1).unwrap().name, "Bones");
    assert_eq!(bank.get_item(0).unwrap().quantity, 2);
}

#[test]
fn deposit_stops_when_bank_is_full() {
    let mut inv = Inventory::new(28);
    let mut bank = Bank::new(1);
    bank.add_item(Item::bones());
    inv.add_item(Item::logs());
    assert_eq!(deposit_items(0, 1, &mut inv, &mut bank), 0);
    assert!(inv.get_item(0).is_some());
    assert_eq!(deposit_all_items(0, &mut inv, &mut bank), 0);
    assert!(inv.get_item(0).is_some());
}

#[test]
fn deposit_part_of_a_stack() {
    let mut inv = Inventory::new(28);
    let mut bank = Bank::new(10);
    inv.add_item(Item::gp(100));
    assert_eq!(deposit_items(0, 30, &mut inv, &mut bank), 30);
    assert_eq!(inv.get_item(0).unwrap().quantity, 70);
    assert_eq!(bank.get_item(0).unwrap().quantity, 30);
    assert_eq!(deposit_items(0, 500, &mut inv, &mut bank), 70);
    assert!(inv.get_item(0).is_none());
    assert_eq!(bank.get_item(0).unwrap().quantity, 100);
}

#[test]
fn withdraw_one_at_a_time_until_full() {
    let mut inv = Inventory::new(3);
    let mut bank = Bank::new(10);
    for _ in 0..5 {
        bank.add_item(Item::logs());
    }
    assert_eq!(withdraw_items(0, 10, &mut inv, &mut bank), 3);
    assert_eq!(occupied(&inv), 3);
    assert_eq!(bank.get_item(0).unwrap().quantity, 2);
    assert_eq!(withdraw_items(0, 1, &mut inv, &mut bank), 0);
}

#[test]
fn withdraw_everything_empties_bank_slot() {
    let mut inv = Inventory::new(28);
    let mut bank = Bank::new(10);
    bank.add_item(Item::gp(7));
    assert_eq!(withdraw_items(0, 100, &mut inv, &mut bank), 7);
    assert!(bank.get_item(0).is_none());
    assert_eq!(inv.get_item(0).unwrap().quantity, 7);
}

#[test]
fn stack_with_merges_only_same_stackable_name() {
    let mut a = stack_of_logs(2);
    assert!(a.stack_with(&stack_of_logs(3)));
    assert_eq!(a.quantity, 5);
    assert!(!a.stack_with(&Item::bones()));
    let mut b = Item::logs();
    assert!(!b.stack_with(&Item::logs()));
    assert_eq!(b.quantity, 1);
}

#[test]
fn stack_overflow_is_refused() {
    let mut inv = Inventory::new(1);
    inv.add_item(Item::gp(u32::MAX));
    assert!(!inv.add_item(Item::gp(1)));
    assert_eq!(inv.get_item(0).unwrap().quantity, u32::MAX);
}

#[test]
fn item_kinds() {
    assert!(Item::bronze_sword().can_equip());
    assert!(Item::bronze_helmet().can_equip());
    assert!(!Item::logs().can_equip());
    assert!(Item::bronze_axe().is_tool());
    assert!(Item::bones().is_resource());
    assert!(!Item::shrimp().is_resource());
}

#[test]
fn restoring_slots_checks_rules() {
    let inv = Inventory::from_slots(vec![None, Some(Item::logs()), None]).unwrap();
    assert_eq!(inv.capacity(), 3);
    assert_eq!(inv.get_item(1).unwrap().name, "Logs");
    assert!(Inventory::from_slots(vec![Some(Item { quantity: 0, ..Item::logs() })]).is_none());
    assert!(Bank::from_slots(vec![Some(Item::logs()), Some(Item::logs())]).is_none());
    let bank = Bank::from_slots(vec![Some(Item::logs()), None]).unwrap();
    assert!(bank.has_room_for(&Item::bones()));
    assert!(!inv.is_empty());
    assert!(Inventory::new(4).is_empty());
}
