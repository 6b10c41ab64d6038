use pixelscape::game::FishOutcome;
use pixelscape::save::{apply_save_data, create_save_data, SaveError};
use pixelscape::entity::{DropTable, DropTableEntry, Entity, EntityType};
use pixelscape::game::{
    chop_time_ms, ChopOutcome, ClickButton, GameEvent, GameState, OngoingAction, PendingAction,
};
use pixelscape::inventory::{Item, ItemType, ResourceType};
use pixelscape::skills::Skills;
use pixelscape::world::{cook_with_roll, fish_with_roll, in_range, FishType, FishingSpot, Fire, Tree};
use pixelscape::world_objects::{ObjectType, WorldObject};

fn count_named(state: &GameState, name: &str) -> u32 {
    state
        .inventory
        .get_items()
        .iter()
        .filter_map(|s| s.as_ref())
        .filter(|it| it.name == name)
        .map(|it| it.quantity)
        .sum()
}

#[test]
fn chopping_a_tree_three_times_fells_it() {
    let mut state = GameState::new(0, 0, vec![Tree::new(10, 10)], Vec::new());
    assert!(state.inventory.add_item(Item::bronze_axe()));
    state.ongoing_action = OngoingAction::ChoppingTree { x: 10, y: 10, tree_index: 0 };
    state.action_timer = 0;
    for round in 1..=3u32 {
        state.update_ongoing_action(3000);
        assert_eq!(count_named(&state, "Logs"), round);
        assert_eq!(state.skills.woodcutting.get_experience(), 25 * round);
        if round < 3 {
            assert!(!state.trees[0].fallen);
            assert_eq!(state.trees[0].health, 3 - round as u8);
            assert!(matches!(state.ongoing_action, OngoingAction::ChoppingTree { .. }));
            assert_eq!(state.action_timer, 2920);
        }
    }
    assert!(state.trees[0].fallen);
    assert!(state.trees[0].is_chopped());
    assert_eq!(state.trees[0].respawn_timer, Some(30000));
    assert_eq!(state.ongoing_action, OngoingAction::Idle);
    assert!(state.events.contains(&GameEvent::TreeFalls));
}

#[test]
fn chopping_without_an_axe_cancels() {
    let mut state = GameState::new(0, 0, vec![Tree::new(0, 0)], Vec::new());
    state.ongoing_action = OngoingAction::ChoppingTree { x: 0, y: 0, tree_index: 0 };
    state.update_ongoing_action(10);
    assert_eq!(state.ongoing_action, OngoingAction::Idle);
    assert_eq!(state.trees[0].health, 3);
    assert!(state.events.contains(&GameEvent::NeedAxe));
}

#[test]
fn chopping_with_full_inventory_cancels_and_spares_tree() {
    let mut state = GameState::new(0, 0, vec![Tree::new(0, 0)], Vec::new());
    state.inventory.add_item(Item::bronze_axe());
    for _ in 0..27 {
        state.inventory.add_item(Item::bones());
    }
    assert_eq!(state.chop_tick(0), ChopOutcome::InventoryFull);
    assert_eq!(state.trees[0].health, 3);
    state.ongoing_action = OngoingAction::ChoppingTree { x: 0, y: 0, tree_index: 0 };
    state.update_ongoing_action(10);
    assert_eq!(state.ongoing_action, OngoingAction::Idle);
}

#[test]
fn chopping_far_tree_walks_back() {
    let mut state = GameState::new(0, 0, vec![Tree::new(500, 0)], Vec::new());
    state.inventory.add_item(Item::bronze_axe());
    assert_eq!(state.chop_tick(0), ChopOutcome::OutOfRange);
    assert_eq!(state.target, Some((500, 0)));
    assert_eq!(state.pending_action, PendingAction::ChopTree(0));
}

#[test]
fn chop_time_has_a_floor() {
    assert_eq!(chop_time_ms(1, 1), 2920);
    assert_eq!(chop_time_ms(99, 1), 1200);
    assert_eq!(chop_time_ms(10, 0), 2700);
}

#[test]
fn timer_counts_down_before_acting() {
    let mut state = GameState::new(0, 0, vec![Tree::new(0, 0)], Vec::new());
    state.inventory.add_item(Item::bronze_axe());
    state.ongoing_action = OngoingAction::ChoppingTree { x: 0, y: 0, tree_index: 0 };
    state.action_timer = 2000;
    state.update_ongoing_action(500);
    assert_eq!(state.action_timer, 1500);
    assert_eq!(state.trees[0].health, 3);
}

#[test]
fn cancel_resets_action() {
    let mut state = GameState::new(0, 0, Vec::new(), Vec::new());
    state.ongoing_action = OngoingAction::Fighting { target_index: 0 };
    state.action_timer = 1000;
    state.cancel_ongoing_action();
    assert_eq!(state.ongoing_action, OngoingAction::Idle);
    assert_eq!(state.action_timer, 0);
}

#[test]
fn walking_reaches_target_and_starts_chopping() {
    let mut state = GameState::new(0, 0, vec![Tree::new(300, 0)], Vec::new());
    state.set_destination(300, 0, PendingAction::ChopTree(0));
    state.update_movement(1000);
    assert_eq!(state.player_x, 240);
    assert_eq!(state.player_y, 0);
    assert!(state.is_near_target() == false);
    state.update_movement(1000);
    assert_eq!(state.player_x, 300);
    state.update_movement(16);
    assert!(state.target.is_none());
    assert_eq!(state.pending_action, PendingAction::Idle);
    assert!(matches!(state.ongoing_action, OngoingAction::ChoppingTree { tree_index: 0, .. }));
}

#[test]
fn walls_block_one_axis_only() {
    let walls = vec![WorldObject::new(40, 0, ObjectType::Wall)];
    let mut state = GameState::new(0, 0, Vec::new(), walls);
    state.set_destination(200, 200, PendingAction::Idle);
    state.update_movement(100);
    assert_eq!(state.player_x, 0);
    assert_eq!(state.player_y, 24);
}

#[test]
fn trout_without_bait_never_bites() {
    let mut skills = Skills::new();
    skills.gain_fishing_xp(5000);
    assert!(skills.fishing.get_level() >= 15);
    let rod = Item::fishing_rod();
    let spot = FishingSpot::new(0, 0, FishType::Trout);
    for _ in 0..200 {
        assert!(spot.try_fish(&skills, Some(&rod), false).is_none());
    }
    for roll in 0..100 {
        assert!(fish_with_roll(FishType::Trout, 99, true, false, roll).is_none());
    }
}

#[test]
fn fishing_rolls() {
    assert_eq!(fish_with_roll(FishType::Shrimp, 1, true, false, 39).unwrap().name, "Raw Shrimp");
    assert!(fish_with_roll(FishType::Shrimp, 1, true, false, 40).is_none());
    assert!(fish_with_roll(FishType::Shrimp, 1, false, false, 0).is_none());
    assert_eq!(fish_with_roll(FishType::Trout, 15, true, true, 29).unwrap().name, "Raw Trout");
    assert!(fish_with_roll(FishType::Trout, 14, true, true, 0).is_none());
    assert!(fish_with_roll(FishType::Trout, 15, true, true, 30).is_none());
}

#[test]
fn fishing_trout_uses_bait() {
    let mut state = GameState::new(0, 0, Vec::new(), Vec::new());
    state.skills.gain_fishing_xp(5000);
    state.inventory.add_item(Item::fishing_rod());
    state.inventory.add_item(Item::bait());
    state.fishing_spots.push(FishingSpot::new(0, 0, FishType::Trout));
    let mut caught = false;
    for _ in 0..300 {
        state.fish_tick(0, 0, 0);
        if count_named(&state, "Raw Trout") > 0 {
            caught = true;
            break;
        }
    }
    assert!(caught);
    assert_eq!(count_named(&state, "Fishing Bait"), 0);
}

#[test]
fn cooking_rolls() {
    let fish = cook_with_roll(&Item::raw_shrimp(), 1, 0).unwrap();
    assert_eq!(fish.name, "Cooked fish");
    let burnt = cook_with_roll(&Item::raw_trout(), 15, 0).unwrap();
    assert_eq!(burnt.name, "Cooked fish");
    assert!(cook_with_roll(&Item::raw_trout(), 14, 0).is_none());
    let beef = cook_with_roll(&Item::raw_beef(), 1, 37).unwrap();
    assert_eq!(beef.name, "Burnt beef");
    let beef = cook_with_roll(&Item::raw_beef(), 1, 38).unwrap();
    assert_eq!(beef.name, "Cooked beef");
    assert!(matches!(beef.item_type, ItemType::Food(8)));
    assert!(cook_with_roll(&Item::logs(), 99, 0).is_none());
    let fire = Fire::new(0, 0);
    assert!(fire.try_cook(&Item::raw_trout(), 1).is_none());
}

#[test]
fn lighting_a_fire_burns_logs() {
    let mut state = GameState::new(5, 5, Vec::new(), Vec::new());
    state.inventory.add_item(Item::tinderbox());
    state.inventory.add_item(Item::logs());
    state.handle_inventory_click(0, ClickButton::Left);
    assert_eq!(state.selected_item, Some(0));
    state.handle_inventory_click(1, ClickButton::Left);
    assert_eq!(state.fires.len(), 1);
    assert_eq!((state.fires[0].x, state.fires[0].y), (5, 5));
    assert_eq!(count_named(&state, "Logs"), 0);
    assert_eq!(state.skills.firemaking.get_experience(), 40);
}

#[test]
fn clicking_equips_and_drops() {
    let mut state = GameState::new(0, 0, Vec::new(), Vec::new());
    state.inventory.add_item(Item::bronze_sword());
    state.inventory.add_item(Item::bones());
    state.handle_inventory_click(0, ClickButton::Left);
    assert!(state.inventory.get_item(0).is_none());
    assert_eq!(state.equipment.get_weapon().unwrap().name, "Bronze Sword");
    state.handle_inventory_click(1, ClickButton::Right);
    assert!(state.inventory.get_item(1).is_none());
    assert_eq!(state.dropped_items.len(), 1);
    assert_eq!(state.dropped_items[0].item.name, "Bones");
}

#[test]
fn tree_regrows_after_timer() {
    let mut tree = Tree::new(0, 0);
    let skills = Skills::new();
    let axe = Item::bronze_axe();
    for _ in 0..3 {
        assert!(tree.try_chop(&skills, Some(&axe)));
    }
    assert!(!tree.try_chop(&skills, Some(&axe)));
    let logs = tree.get_random_logs();
    assert!((1..=35).contains(&logs));
    tree.update(10000);
    assert_eq!(tree.respawn_timer, Some(20000));
    tree.update(20000);
    assert!(!tree.fallen);
    assert_eq!(tree.health, 3);
    assert_eq!(tree.get_random_logs(), 0);
}

#[test]
fn walls_cannot_be_chopped() {
    let mut wall = Tree::new_wall(0, 0);
    assert!(!wall.try_chop(&Skills::new(), Some(&Item::bronze_axe())));
    assert!(!wall.is_chopped());
    let mut tree = Tree::new(0, 0);
    assert!(!tree.try_chop(&Skills::new(), Some(&Item::logs())));
    assert!(!tree.try_chop(&Skills::new(), None));
}

#[test]
fn range_checks() {
    assert!(in_range(0, 0, 39, 0));
    assert!(!in_range(0, 0, 40, 0));
    assert!(in_range(0, 0, 28, 28));
    assert!(!in_range(0, 0, 29, 29));
}

#[test]
fn drop_rolls_are_independent() {
    let table = DropTable {
        entries: vec![
            DropTableEntry { item: Item::bones(), chance: 100 },
            DropTableEntry { item: Item::bronze_sword(), chance: 5 },
            DropTableEntry { item: Item::bait(), chance: 25 },
        ],
    };
    let drops = table.drops_with_rolls(&vec![99, 4, 25]);
    let names: Vec<&str> = drops.iter().map(|i| i.name.as_str()).collect();
    assert_eq!(names, vec!["Bones", "Bronze Sword"]);
    assert_eq!(table.drops_with_rolls(&vec![0, 99, 0]).len(), 2);
    let cow = Entity::new_cow(0, 0);
    assert_eq!(cow.get_drops().len(), 3);
}

#[test]
fn slain_creature_respawns() {
    let mut goblin = Entity::new_goblin(50, 60);
    assert!(goblin.is_alive());
    goblin.take_damage(100);
    assert!(!goblin.is_alive());
    goblin.respawn_timer = Some(1000);
    goblin.x = 0;
    goblin.update(1000);
    assert!(goblin.is_alive());
    assert_eq!(goblin.get_position(), (50, 60));
    assert!(matches!(goblin.entity_type, EntityType::Goblin(c) if c.health == 10));
}

#[test]
fn collisions_use_boxes() {
    let wall = WorldObject::new(0, 0, ObjectType::Wall);
    assert!(wall.collides_with(35, 0, 32, 32));
    assert!(!wall.collides_with(36, 0, 32, 32));
    let road = WorldObject::new(0, 0, ObjectType::Road);
    assert!(!road.collides_with(0, 0, 32, 32));
    assert_eq!(ObjectType::BankChest.get_sprite_name(), "bank_chest");
    let mut tree = WorldObject::new(0, 0, ObjectType::Tree);
    assert!(tree.try_chop(&Skills::new(), Some(&Item::bronze_axe())));
    tree.set_chopped();
    assert!(tree.is_chopped());
    assert!(!tree.blocks_movement);
    assert!((1..=35).contains(&tree.get_random_logs()));
}

#[test]
fn fighting_a_goblin_eventually_kills_it() {
    let mut state = GameState::new(0, 0, Vec::new(), Vec::new());
    state.player_combat.max_health = 1_000_000;
    state.player_combat.health = 1_000_000;
    state.entities.push(Entity::new_goblin(10, 0));
    let mut killed = false;
    for _ in 0..2000 {
        state.attack_nearest_entity();
        if !state.entities[0].is_alive() {
            killed = true;
            break;
        }
    }
    assert!(killed);
    assert!(state.dropped_items.iter().any(|d| d.item.name == "Bones"));
    assert!(state.skills.attack.get_experience() >= 14);
}

#[test]
fn resource_kinds() {
    assert!(matches!(Item::bait().item_type, ItemType::Resource(ResourceType::Bait)));
}

#[test]
fn random_rolls_vary() {
    let mut tree = Tree::new(0, 0);
    let skills = Skills::new();
    let axe = Item::bronze_axe();
    for _ in 0..3 {
        tree.try_chop(&skills, Some(&axe));
    }
    let rolls: Vec<u32> = (0..200).map(|_| tree.get_random_logs()).collect();
    assert!(rolls.iter().all(|r| (1..=35).contains(r)));
    assert!(rolls.iter().any(|&r| r > 1));
    assert!(rolls.iter().any(|&r| r < 35));
}

#[test]
fn context_chop_picks_closest_standing_tree() {
    let mut state = GameState::new(0, 0, vec![Tree::new(90, 0), Tree::new(30, 0), Tree::new(10, 0)], Vec::new());
    state.trees[2].fallen = true;
    state.handle_context_action(pixelscape::ui::ContextMenuAction::ChopTree, 0, 0);
    assert_eq!(state.pending_action, PendingAction::ChopTree(1));
    assert_eq!(state.target, Some((30, 0)));
    let mut far = GameState::new(0, 0, vec![Tree::new(500, 0)], Vec::new());
    far.handle_context_action(pixelscape::ui::ContextMenuAction::ChopTree, 0, 0);
    assert_eq!(far.pending_action, PendingAction::Idle);
    assert!(far.target.is_none());
}

#[test]
fn context_fish_and_attack_set_destination() {
    let mut state = GameState::new(0, 0, Vec::new(), Vec::new());
    state.handle_context_action(pixelscape::ui::ContextMenuAction::Fish, 150, 600);
    assert_eq!(state.pending_action, PendingAction::Fish(150, 600));
    assert_eq!(state.target, Some((150, 600)));
    state.handle_context_action(pixelscape::ui::ContextMenuAction::Attack, 5, 6);
    assert_eq!(state.pending_action, PendingAction::Attack);
}

#[test]
fn fishing_action_with_vanished_spot_stops() {
    let mut state = GameState::new(0, 0, Vec::new(), Vec::new());
    state.ongoing_action = OngoingAction::Fishing { x: 0, y: 0, spot_index: 3 };
    state.update_ongoing_action(0);
    assert_eq!(state.ongoing_action, OngoingAction::Idle);
}

#[test]
fn starter_kit_only_for_empty_inventory() {
    let mut state = GameState::new(0, 0, Vec::new(), Vec::new());
    state.give_starter_kit();
    assert_eq!(count_named(&state, "GP"), 1000);
    assert_eq!(count_named(&state, "Bronze Axe"), 1);
    state.give_starter_kit();
    assert_eq!(count_named(&state, "GP"), 1000);
}

#[test]
fn cows_always_give_beef() {
    let cow = Entity::new_cow(0, 0);
    let mut skills = Skills::new();
    let got = cow.interact(&mut skills).unwrap();
    assert_eq!(got[0].name, "Raw beef");
    let goblin = Entity::new_goblin(0, 0);
    if let Some(v) = goblin.interact(&mut skills) {
        assert_eq!(v[0].name, "Bones");
    }
}

#[test]
fn snapshot_round_trip() {
    let mut state = GameState::new(7, 9, Vec::new(), Vec::new());
    state.give_starter_kit();
    state.skills.gain_fishing_xp(200);
    state.handle_inventory_click(0, ClickButton::Left);
    let data = create_save_data(&state);
    assert_eq!(data.fishing_xp, 200);
    assert_eq!(data.weapon.as_ref().unwrap().name, "Bronze Sword");
    let mut fresh = GameState::new(0, 0, Vec::new(), Vec::new());
    assert!(apply_save_data(&mut fresh, data).is_ok());
    assert_eq!((fresh.player_x, fresh.player_y), (7, 9));
    assert_eq!(fresh.skills.fishing.get_level(), 3);
    assert_eq!(fresh.equipment.get_weapon().unwrap().name, "Bronze Sword");
    assert_eq!(count_named(&fresh, "GP"), 1000);
    let mut bad = create_save_data(&fresh);
    bad.health = bad.max_health + 1;
    assert_eq!(apply_save_data(&mut fresh, bad), Err(SaveError::BadHitPoints));
    let mut bad = create_save_data(&fresh);
    bad.weapon = Some(Item::logs());
    assert_eq!(apply_save_data(&mut fresh, bad), Err(SaveError::BadWeapon));
    let mut bad = create_save_data(&fresh);
    bad.head = Some(Item::bronze_platelegs());
    assert_eq!(apply_save_data(&mut fresh, bad), Err(SaveError::BadArmor));
    let mut bad = create_save_data(&fresh);
    bad.bank = vec![Some(Item::logs()), Some(Item::logs())];
    assert_eq!(apply_save_data(&mut fresh, bad), Err(SaveError::BadBank));
}

#[test]
fn combat_round_from_fixed_results() {
    let mut state = GameState::new(0, 0, Vec::new(), Vec::new());
    state.entities.push(Entity::new_cow(5, 0));
    state.resolve_round(0, Some(3), Some(2), &vec![Item::bones()]);
    assert!(matches!(state.entities[0].entity_type, EntityType::Cow(c) if c.health == 5));
    assert_eq!(state.player_combat.health, 18);
    assert_eq!(state.skills.attack.get_experience(), 4);
    assert_eq!(state.skills.defense.get_experience(), 4);
    state.resolve_round(0, Some(9), Some(2), &vec![Item::bones(), Item::raw_beef()]);
    assert!(!state.entities[0].is_alive());
    assert_eq!(state.player_combat.health, 18);
    assert_eq!(state.dropped_items.len(), 2);
    assert_eq!((state.dropped_items[1].x, state.dropped_items[1].y), (5, 0));
    assert_eq!(state.skills.attack.get_experience(), 18);
    assert_eq!(state.skills.strength.get_experience(), 10);
    assert_eq!(state.skills.defense.get_experience(), 14);
    state.resolve_round(0, None, Some(5), &Vec::new());
    assert_eq!(state.player_combat.health, 18);
}

#[test]
fn catch_settlement() {
    let mut state = GameState::new(0, 0, Vec::new(), Vec::new());
    state.inventory.add_item(Item::bait());
    assert_eq!(state.apply_catch(FishType::Trout, None), FishOutcome::Failed);
    assert_eq!(state.apply_catch(FishType::Trout, Some(Item::raw_trout())), FishOutcome::Caught);
    assert_eq!(count_named(&state, "Raw Trout"), 1);
    assert_eq!(count_named(&state, "Fishing Bait"), 0);
    assert_eq!(state.skills.fishing.get_experience(), 50);
    assert_eq!(state.apply_catch(FishType::Shrimp, Some(Item::raw_shrimp())), FishOutcome::Caught);
    assert_eq!(state.skills.fishing.get_experience(), 60);
    let mut full = GameState::new(0, 0, Vec::new(), Vec::new());
    for _ in 0..28 {
        full.inventory.add_item(Item::bones());
    }
    assert_eq!(full.apply_catch(FishType::Shrimp, Some(Item::raw_shrimp())), FishOutcome::InventoryFull);
    assert_eq!(count_named(&full, "Raw Shrimp"), 0);
    assert_eq!(full.skills.fishing.get_experience(), 0);
}

#[test]
fn cooking_on_a_fire() {
    let mut state = GameState::new(0, 0, Vec::new(), Vec::new());
    state.fires.push(Fire::new(10, 0));
    state.inventory.add_item(Item::tinderbox());
    state.inventory.add_item(Item::raw_shrimp());
    state.use_item_on_item(0, 1);
    assert!(state.inventory.get_item(1).is_some());
    let name = state.inventory.get_item(1).unwrap().name.clone();
    assert!(name == "Cooked fish" || name == "Burnt fish");
    assert_eq!(count_named(&state, "Raw Shrimp"), 0);
}

#[test]
fn drop_tables_by_kind() {
    let goblin = Entity::new_goblin(0, 0).entity_type.get_drop_table();
    assert_eq!(goblin.entries.len(), 9);
    assert_eq!(goblin.entries[7].item.name, "Fishing Bait");
    assert_eq!(goblin.entries[7].chance, 25);
    let cow = Entity::new_cow(0, 0).entity_type.get_drop_table();
    assert!(cow.entries.iter().all(|e| e.chance == 100));
}

#[test]
fn cow_respawns_as_a_cow() {
    let mut cow = Entity::new_cow(3, 4);
    cow.take_damage(100);
    cow.respawn_timer = Some(10);
    cow.update(10);
    assert!(matches!(cow.entity_type, EntityType::Cow(c) if c.health == 8 && c.max_health == 8));
}
