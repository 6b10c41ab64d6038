use vstd::prelude::*;

use crate::bank::{names_unique, Bank};
use crate::combat::Combat;
use crate::equipment::Equipment;
use crate::game::GameState;
use crate::inventory::{quantities_positive, ArmorSlot, Inventory, Item, ItemType};
use crate::skills::{level_for, Skill, Skills};

verus! {

/// What a saved game keeps of a session: where the player stands, the experience of
/// each skill, the hit points, and the items held, worn and banked.
#[derive(Debug)]
pub struct SaveData {
    pub player_x: i32,
    pub player_y: i32,
    pub attack_xp: u32,
    pub strength_xp: u32,
    pub defense_xp: u32,
    pub woodcutting_xp: u32,
    pub firemaking_xp: u32,
    pub fishing_xp: u32,
    pub cooking_xp: u32,
    pub health: i32,
    pub max_health: i32,
    pub inventory: Vec<Option<Item>>,
    pub weapon: Option<Item>,
    pub head: Option<Item>,
    pub body: Option<Item>,
    pub legs: Option<Item>,
    pub bank: Vec<Option<Item>>,
}

/// Why a saved game was refused.
#[derive(Debug, Clone, Copy, PartialEq, Eq, Structural)]
pub enum SaveError {
    /// Hit points below zero or above the maximum.
    BadHitPoints,
    /// An inventory slot holds an item with no units, or there are too many slots.
    BadInventory,
    /// A bank slot holds an item with no units, or two slots share a name.
    BadBank,
    /// The weapon slot holds something that is no weapon.
    BadWeapon,
    /// An armour slot holds something that is not armour for it.
    BadArmor,
}

/// A copy of `slot`.
fn copy_item(slot: &Option<Item>) -> (r: Option<Item>)
    ensures
        r == *slot,
{
    match slot {
        Some(it) => Some(it.with_quantity(it.quantity)),
        None => None,
    }
}

/// A copy of the item behind `slot`.
fn copy_ref(slot: Option<&Item>) -> (r: Option<Item>)
    ensures
        match slot {
            Some(it) => r == Some(*it),
            None => r is None,
        },
{
    match slot {
        Some(it) => Some(it.with_quantity(it.quantity)),
        None => None,
    }
}

/// A copy of a row of slots.
fn copy_slots(v: &Vec<Option<Item>>) -> (r: Vec<Option<Item>>)
    ensures
        r@ == v@,
{
    let mut out: Vec<Option<Item>> = Vec::new();
    let mut i: usize = 0;
    while i < v.len()
        invariant
            i <= v@.len(),
            out@ == v@.take(i as int),
        decreases v@.len() - i,
    {
        out.push(copy_item(&v[i]));
        i = i + 1;
        proof {
            assert(out@ =~= v@.take(i as int));
        }
    }
    proof {
        assert(v@.take(i as int) =~= v@);
    }
    out
}

/// A skill with `experience`, at the level the curve gives it.
fn skill_with(experience: u32) -> (r: Skill)
    ensures
        r.spec_experience() == experience,
        r.spec_level() == level_for(experience as int),
        r.wf(),
{
    let mut s = Skill::new();
    s.add_experience(experience);
    s
}

/// Whether `slot` may stand in the weapon slot.
pub open spec fn fits_weapon(slot: Option<Item>) -> bool {
    slot matches Some(w) ==> w.item_type is Weapon
}

/// Whether `slot` may stand in armour slot `s`.
pub open spec fn fits_armor(slot: Option<Item>, s: ArmorSlot) -> bool {
    slot matches Some(a) ==> crate::equipment::armor_for(a, s)
}

/// Whether a saved game keeps the game's rules, so that it can be restored.
pub open spec fn save_valid(d: SaveData) -> bool {
    &&& 0 <= d.health <= d.max_health
    &&& quantities_positive(d.inventory@) && d.inventory@.len() <= u32::MAX
    &&& quantities_positive(d.bank@) && names_unique(d.bank@)
    &&& fits_weapon(d.weapon)
    &&& fits_armor(d.head, ArmorSlot::Head) && fits_armor(d.body, ArmorSlot::Body) && fits_armor(d.legs, ArmorSlot::Legs)
}

/// The snapshot of `state` that a saved game keeps.
pub fn create_save_data(state: &GameState) -> (r: SaveData)
    ensures
        r.player_x == state.player_x && r.player_y == state.player_y,
        r.attack_xp == state.skills.attack.spec_experience(),
        r.strength_xp == state.skills.strength.spec_experience(),
        r.defense_xp == state.skills.defense.spec_experience(),
        r.woodcutting_xp == state.skills.woodcutting.spec_experience(),
        r.firemaking_xp == state.skills.firemaking.spec_experience(),
        r.fishing_xp == state.skills.fishing.spec_experience(),
        r.cooking_xp == state.skills.cooking.spec_experience(),
        r.health == state.player_combat.health && r.max_health == state.player_combat.max_health,
        r.inventory@ == state.inventory@,
        r.bank@ == state.bank@,
        r.weapon == state.equipment.spec_weapon(),
        r.head == state.equipment.spec_armor(ArmorSlot::Head),
        r.body == state.equipment.spec_armor(ArmorSlot::Body),
        r.legs == state.equipment.spec_armor(ArmorSlot::Legs),
{
    SaveData {
        player_x: state.player_x,
        player_y: state.player_y,
        attack_xp: state.skills.attack.get_experience(),
        strength_xp: state.skills.strength.get_experience(),
        defense_xp: state.skills.defense.get_experience(),
        woodcutting_xp: state.skills.woodcutting.get_experience(),
        firemaking_xp: state.skills.firemaking.get_experience(),
        fishing_xp: state.skills.fishing.get_experience(),
        cooking_xp: state.skills.cooking.get_experience(),
        health: state.player_combat.health,
        max_health: state.player_combat.max_health,
        inventory: copy_slots(state.inventory.get_items()),
        weapon: copy_ref(state.equipment.get_weapon()),
        head: copy_ref(state.equipment.get_armor(&ArmorSlot::Head)),
        body: copy_ref(state.equipment.get_armor(&ArmorSlot::Body)),
        legs: copy_ref(state.equipment.get_armor(&ArmorSlot::Legs)),
        bank: copy_slots(state.bank.get_items()),
    }
}

/// Restores the saved progress `data` into `state`: position, experience, hit points,
/// inventory, equipment and bank. A save that breaks the game's rules is refused with
/// the first rule it breaks, and `state` is left as it was.
pub fn apply_save_data(state: &mut GameState, data: SaveData) -> (r: Result<(), SaveError>)
    requires
        old(state).wf(),
    ensures
        final(state).wf(),
        r is Ok <==> save_valid(data),
        r is Err ==> *final(state) == *old(state),
        r matches Err(e) ==> e == (if !(0 <= data.health <= data.max_health) {
            SaveError::BadHitPoints
        } else if !(quantities_positive(data.inventory@) && data.inventory@.len() <= u32::MAX) {
            SaveError::BadInventory
        } else if !(quantities_positive(data.bank@) && names_unique(data.bank@)) {
            SaveError::BadBank
        } else if !fits_weapon(data.weapon) {
            SaveError::BadWeapon
        } else {
            SaveError::BadArmor
        }),
        r is Ok ==> {
            &&& final(state).player_x == data.player_x && final(state).player_y == data.player_y
            &&& final(state).skills.attack.spec_experience() == data.attack_xp
            &&& final(state).skills.strength.spec_experience() == data.strength_xp
            &&& final(state).skills.defense.spec_experience() == data.defense_xp
            &&& final(state).skills.woodcutting.spec_experience() == data.woodcutting_xp
            &&& final(state).skills.firemaking.spec_experience() == data.firemaking_xp
            &&& final(state).skills.fishing.spec_experience() == data.fishing_xp
            &&& final(state).skills.cooking.spec_experience() == data.cooking_xp
            &&& final(state).player_combat == Combat { health: data.health, max_health: data.max_health }
            &&& final(state).inventory@ == data.inventory@
            &&& final(state).bank@ == data.bank@
            &&& final(state).equipment.spec_weapon() == data.weapon
            &&& final(state).equipment.spec_armor(ArmorSlot::Head) == data.head
            &&& final(state).equipment.spec_armor(ArmorSlot::Body) == data.body
            &&& final(state).equipment.spec_armor(ArmorSlot::Legs) == data.legs
        },
{
    if data.health < 0 || data.health > data.max_health {
        return Err(SaveError::BadHitPoints);
    }
    if data.inventory.len() as u64 > u32::MAX as u64 {
        return Err(SaveError::BadInventory);
    }
    let SaveData {
        player_x,
        player_y,
        attack_xp,
        strength_xp,
        defense_xp,
        woodcutting_xp,
        firemaking_xp,
        fishing_xp,
        cooking_xp,
        health,
        max_health,
        inventory,
        weapon,
        head,
        body,
        legs,
        bank,
    } = data;
    let inventory = match Inventory::from_slots(inventory) {
        Some(inv) => inv,
        None => {
            return Err(SaveError::BadInventory);
        },
    };
    let bank = match Bank::from_slots(bank) {
        Some(b) => b,
        None => {
            return Err(SaveError::BadBank);
        },
    };
    let mut equipment = Equipment::new();
    if let Some(w) = weapon {
        if !matches!(w.item_type, ItemType::Weapon(_)) {
            return Err(SaveError::BadWeapon);
        }
        equipment.equip_weapon(w);
    }
    if !armor_fits(&head, ArmorSlot::Head) || !armor_fits(&body, ArmorSlot::Body) || !armor_fits(&legs, ArmorSlot::Legs) {
        return Err(SaveError::BadArmor);
    }
    if let Some(h) = head {
        equipment.equip_armor(h);
    }
    if let Some(b) = body {
        equipment.equip_armor(b);
    }
    if let Some(l) = legs {
        equipment.equip_armor(l);
    }
    state.player_x = player_x;
    state.player_y = player_y;
    state.skills = Skills {
        attack: skill_with(attack_xp),
        strength: skill_with(strength_xp),
        defense: skill_with(defense_xp),
        woodcutting: skill_with(woodcutting_xp),
        firemaking: skill_with(firemaking_xp),
        fishing: skill_with(fishing_xp),
        cooking: skill_with(cooking_xp),
    };
    state.player_combat = Combat { health, max_health };
    state.inventory = inventory;
    state.equipment = equipment;
    state.bank = bank;
    Ok(())
}

fn armor_fits(slot: &Option<Item>, s: ArmorSlot) -> (r: bool)
    ensures
        r == fits_armor(*slot, s),
{
    match slot {
        Some(a) => match a.item_type {
            ItemType::Armor(stats) => stats.slot == s,
            _ => false,
        },
        None => true,
    }
}

} // verus!
