use vstd::prelude::*;

verus! {

/// A skill, by name.
#[derive(Debug, Clone, Copy, PartialEq, Eq, Structural)]
pub enum SkillType {
    Attack,
    Strength,
    Defense,
    Woodcutting,
    Firemaking,
    Fishing,
    Cooking,
}

/// Where an item is worn.
#[derive(Debug, Clone, Copy, PartialEq, Eq, Structural)]
pub enum EquipmentSlot {
    Head,
    Body,
    Legs,
    Weapon,
    Shield,
    Amulet,
    Ring,
    Cape,
}

#[derive(Debug, Clone, Copy, PartialEq, Eq, Structural)]
pub struct WeaponStats {
    pub attack_speed: u8,
    pub attack_bonus: i16,
    pub strength_bonus: i16,
    pub magic_bonus: i16,
    pub ranged_bonus: i16,
}

#[derive(Debug, Clone, Copy, PartialEq, Eq, Structural)]
pub struct ArmorStats {
    pub defense_bonus: i16,
    pub magic_defense_bonus: i16,
    pub ranged_defense_bonus: i16,
}

/// What eating or drinking an item does.
#[derive(Debug, Clone, Copy, PartialEq, Eq, Structural)]
pub enum ConsumableEffect {
    Heal(u16),
    BoostSkill { skill: SkillType, amount: i16, duration: u32 },
    Poison { damage: u16, duration: u32 },
}

/// The description of one kind of item, as a data file gives it.
#[derive(Debug, Clone)]
pub struct ItemDefinition {
    pub id: u32,
    pub name: String,
    pub description: String,
    pub stackable: bool,
    pub tradeable: bool,
    pub value: u32,
    pub equipment_slot: Option<EquipmentSlot>,
    pub weapon_stats: Option<WeaponStats>,
    pub armor_stats: Option<ArmorStats>,
    pub consumable_effects: Vec<ConsumableEffect>,
}

#[derive(Debug, Clone, Copy, PartialEq, Eq, Structural)]
pub enum CombatStyle {
    Melee,
    Ranged,
    Magic,
}

/// One possible drop of a monster: an item id, the least and most of it, and the
/// chance in percent.
#[derive(Debug, Clone, Copy)]
pub struct Drop {
    pub item_id: u32,
    pub quantity: (u16, u16),
    pub chance: u32,
}

#[derive(Debug, Clone, Copy, PartialEq, Eq, Structural)]
pub struct MonsterSkill {
    pub skill_type: SkillType,
    pub level: u16,
}

/// The description of one kind of monster, as a data file gives it.
#[derive(Debug, Clone)]
pub struct MonsterDefinition {
    pub id: u32,
    pub name: String,
    pub level: u16,
    pub hitpoints: u16,
    pub attack_speed: u8,
    pub attack_bonus: i16,
    pub strength_bonus: i16,
    pub defense_bonus: i16,
    pub magic_bonus: i16,
    pub magic_defense_bonus: i16,
    pub ranged_bonus: i16,
    pub ranged_defense_bonus: i16,
    pub combat_style: CombatStyle,
    pub drop_table: Vec<Drop>,
    pub skills: Vec<MonsterSkill>,
}

/// The item definitions built into the game: none yet.
pub fn load_item_definitions() -> (r: Vec<ItemDefinition>)
    ensures
        r@.len() == 0,
{
    Vec::new()
}

/// The monster definitions built into the game: none yet.
pub fn load_monster_definitions() -> (r: Vec<MonsterDefinition>)
    ensures
        r@.len() == 0,
{
    Vec::new()
}

} // verus!
