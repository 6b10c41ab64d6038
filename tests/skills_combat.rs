use pixelscape::combat::{hit_chance_percent, max_hit_of, resolve_attack, Combat};
use pixelscape::equipment::Equipment;
use pixelscape::inventory::{ArmorSlot, Inventory, Item};
use pixelscape::skills::{Skill, Skills};

#[test]
fn new_skill_is_level_one() {
    let s = Skill::new();
    assert_eq!(s.get_level(), 1);
    assert_eq!(s.get_experience(), 0);
}

#[test]
fn zero_experience_keeps_level() {
    let mut s = Skill::new();
    s.add_experience(500);
    let level = s.get_level();
    s.add_experience(0);
    s.add_experience(0);
    assert_eq!(s.get_level(), level);
    assert_eq!(s.get_experience(), 500);
}

#[test]
fn level_thresholds() {
    let mut s = Skill::new();
    s.add_experience(82);
    assert_eq!(s.get_level(), 1);
    s.add_experience(1);
    assert_eq!(s.get_level(), 2);
    let mut t = Skill::new();
    t.add_experience(173);
    assert_eq!(t.get_level(), 2);
    t.add_experience(1);
    assert_eq!(t.get_level(), 3);
}

#[test]
fn level_caps_at_ninety_nine() {
    let mut s = Skill::new();
    s.add_experience(13_034_393);
    assert_eq!(s.get_level(), 98);
    s.add_experience(1);
    assert_eq!(s.get_level(), 99);
    s.add_experience(100_000_000);
    assert_eq!(s.get_level(), 99);
}

#[test]
fn gaining_xp_touches_one_skill() {
    let mut skills = Skills::new();
    skills.gain_woodcutting_xp(100);
    assert_eq!(skills.woodcutting.get_experience(), 100);
    assert_eq!(skills.woodcutting.get_level(), 2);
    assert_eq!(skills.attack.get_experience(), 0);
    skills.gain_fishing_xp(10);
    assert_eq!(skills.fishing.get_experience(), 10);
}

#[test]
fn damage_and_heal_are_clamped() {
    let mut c = Combat::new(10);
    c.take_damage(4);
    assert_eq!(c.health, 6);
    c.heal(100);
    assert_eq!(c.health, 10);
    c.take_damage(25);
    assert_eq!(c.health, 0);
    assert!(c.is_dead());
}

#[test]
fn hit_chance_has_a_floor() {
    assert_eq!(hit_chance_percent(1, 0, 1, 0), 50);
    assert_eq!(hit_chance_percent(1, 0, 99, 1000), 10);
    assert_eq!(hit_chance_percent(99, 10, 1, 0), 158);
}

#[test]
fn max_hit_formula() {
    assert_eq!(max_hit_of(1, 0), 1);
    assert_eq!(max_hit_of(1, 9), 2);
    assert_eq!(max_hit_of(99, 3), 11);
}

#[test]
fn resolve_attack_from_rolls() {
    assert_eq!(resolve_attack(50, 49, 3, 5), Some(3));
    assert_eq!(resolve_attack(50, 50, 3, 5), None);
    assert_eq!(resolve_attack(10, 0, 1, 1), Some(1));
}

#[test]
fn attack_damage_stays_in_bounds() {
    let attacker = Skills::new();
    let defender = Skills::new();
    let c = Combat::new(10);
    for _ in 0..500 {
        if let Some(d) = c.attack(&attacker, &defender, 0, 25, 100_000) {
            assert!(d >= 1 && d <= 3);
        }
    }
}

#[test]
fn sure_hit_always_lands() {
    let attacker = Skills::new();
    let defender = Skills::new();
    let c = Combat::new(10);
    for _ in 0..100 {
        assert!(c.attack(&attacker, &defender, 60, 0, 0).is_some());
    }
}

#[test]
fn eating_food_heals_and_empties_slot() {
    let mut inv = Inventory::new(28);
    let mut c = Combat::new(10);
    c.take_damage(5);
    inv.add_item(Item::cooked_trout());
    inv.add_item(Item::logs());
    assert!(inv.use_item(0, &mut c));
    assert_eq!(c.health, 10);
    assert!(inv.get_item(0).is_none());
    assert!(!inv.use_item(1, &mut c));
    assert!(inv.get_item(1).is_some());
}

#[test]
fn equipping_replaces_and_returns() {
    let mut eq = Equipment::new();
    assert!(eq.equip_weapon(Item::bronze_sword()).is_none());
    let old = eq.equip_weapon(Item::bronze_sword());
    assert_eq!(old.unwrap().name, "Bronze Sword");
    assert_eq!(eq.get_total_attack_bonus(), 4);
    assert_eq!(eq.get_total_strength_bonus(), 3);
    assert!(eq.equip_armor(Item::bronze_helmet()).is_none());
    assert!(eq.equip_armor(Item::bronze_platebody()).is_none());
    assert!(eq.equip_armor(Item::bronze_platelegs()).is_none());
    assert_eq!(eq.get_total_defense_bonus(), 12);
    let back = eq.equip_armor(Item::bronze_helmet());
    assert_eq!(back.unwrap().name, "Bronze Helmet");
    assert!(eq.equip_armor(Item::logs()).is_none());
    assert_eq!(eq.unequip_armor(ArmorSlot::Body).unwrap().name, "Bronze Platebody");
    assert!(eq.get_armor(&ArmorSlot::Body).is_none());
    assert_eq!(eq.get_total_defense_bonus(), 7);
    assert_eq!(eq.unequip_weapon().unwrap().name, "Bronze Sword");
    assert_eq!(eq.get_total_attack_bonus(), 0);
}
