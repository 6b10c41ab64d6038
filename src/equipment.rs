use vstd::prelude::*;

use crate::combat::clamp;
use crate::inventory::{ArmorSlot, Item, ItemType};

verus! {

/// What the player wears: at most one item in each of the weapon, head, body and legs
/// slots.
#[derive(Debug, Clone)]
pub struct Equipment {
    weapon: Option<Item>,
    head: Option<Item>,
    body: Option<Item>,
    legs: Option<Item>,
}

/// Whether `it` is armour for `slot`.
pub open spec fn armor_for(it: Item, slot: ArmorSlot) -> bool {
    it.item_type matches ItemType::Armor(a) && a.slot == slot
}

/// The defence bonus that a worn slot adds.
pub open spec fn defense_of(slot: Option<Item>) -> int {
    match slot {
        Some(it) => match it.item_type {
            ItemType::Armor(a) => a.defense_bonus as int,
            _ => 0,
        },
        None => 0,
    }
}

impl Equipment {
    pub closed spec fn spec_weapon(&self) -> Option<Item> {
        self.weapon
    }

    pub closed spec fn spec_armor(&self, slot: ArmorSlot) -> Option<Item> {
        match slot {
            ArmorSlot::Head => self.head,
            ArmorSlot::Body => self.body,
            ArmorSlot::Legs => self.legs,
        }
    }

    /// Every worn item fits the slot it is in.
    pub open spec fn wf(&self) -> bool {
        &&& (self.spec_weapon() matches Some(w) ==> w.item_type is Weapon)
        &&& self.spec_armor(ArmorSlot::Head) matches Some(a) ==> armor_for(a, ArmorSlot::Head)
        &&& self.spec_armor(ArmorSlot::Body) matches Some(a) ==> armor_for(a, ArmorSlot::Body)
        &&& self.spec_armor(ArmorSlot::Legs) matches Some(a) ==> armor_for(a, ArmorSlot::Legs)
    }

    /// The armour slots of `self` and `other` agree, but for `except`.
    pub open spec fn armor_same_except(&self, other: &Equipment, except: Option<ArmorSlot>) -> bool {
        &&& except != Some(ArmorSlot::Head) ==> self.spec_armor(ArmorSlot::Head) == other.spec_armor(ArmorSlot::Head)
        &&& except != Some(ArmorSlot::Body) ==> self.spec_armor(ArmorSlot::Body) == other.spec_armor(ArmorSlot::Body)
        &&& except != Some(ArmorSlot::Legs) ==> self.spec_armor(ArmorSlot::Legs) == other.spec_armor(ArmorSlot::Legs)
    }

    /// The sum of the defence bonuses of the worn armour.
    pub open spec fn spec_defense_total(&self) -> int {
        defense_of(self.spec_armor(ArmorSlot::Head)) + defense_of(self.spec_armor(ArmorSlot::Body))
            + defense_of(self.spec_armor(ArmorSlot::Legs))
    }

    pub fn new() -> (r: Self)
        ensures
            r.wf(),
            r.spec_weapon() is None,
            r.spec_armor(ArmorSlot::Head) is None,
            r.spec_armor(ArmorSlot::Body) is None,
            r.spec_armor(ArmorSlot::Legs) is None,
    {
        Equipment { weapon: None, head: None, body: None, legs: None }
    }

    /// Wields `item`, handing back the weapon it replaces.
    pub fn equip_weapon(&mut self, item: Item) -> (r: Option<Item>)
        requires
            old(self).wf(),
            item.item_type is Weapon,
        ensures
            final(self).wf(),
            r == old(self).spec_weapon(),
            final(self).spec_weapon() == Some(item),
            final(self).armor_same_except(&old(self), None),
    {
        let old_weapon = self.weapon.take();
        self.weapon = Some(item);
        old_weapon
    }

    /// Wears armour in the slot it is made for, handing back what it replaces; an item
    /// that is not armour changes nothing and gives `None`.
    pub fn equip_armor(&mut self, item: Item) -> (r: Option<Item>)
        requires
            old(self).wf(),
        ensures
            final(self).wf(),
            final(self).spec_weapon() == old(self).spec_weapon(),
            match item.item_type {
                ItemType::Armor(a) => {
                    &&& r == old(self).spec_armor(a.slot)
                    &&& final(self).spec_armor(a.slot) == Some(item)
                    &&& final(self).armor_same_except(&old(self), Some(a.slot))
                },
                _ => r is None && final(self).armor_same_except(&old(self), None),
            },
    {
        match item.item_type {
            ItemType::Armor(stats) => match stats.slot {
                ArmorSlot::Head => {
                    let old_item = self.head.take();
                    self.head = Some(item);
                    old_item
                },
                ArmorSlot::Body => {
                    let old_item = self.body.take();
                    self.body = Some(item);
                    old_item
                },
                ArmorSlot::Legs => {
                    let old_item = self.legs.take();
                    self.legs = Some(item);
                    old_item
                },
            },
            _ => None,
        }
    }

    pub fn unequip_weapon(&mut self) -> (r: Option<Item>)
        requires
            old(self).wf(),
        ensures
            final(self).wf(),
            r == old(self).spec_weapon(),
            final(self).spec_weapon() is None,
            final(self).armor_same_except(&old(self), None),
    {
        self.weapon.take()
    }

    pub fn unequip_armor(&mut self, slot: ArmorSlot) -> (r: Option<Item>)
        requires
            old(self).wf(),
        ensures
            final(self).wf(),
            r == old(self).spec_armor(slot),
            final(self).spec_armor(slot) is None,
            final(self).spec_weapon() == old(self).spec_weapon(),
            final(self).armor_same_except(&old(self), Some(slot)),
    {
        match slot {
            ArmorSlot::Head => self.head.take(),
            ArmorSlot::Body => self.body.take(),
            ArmorSlot::Legs => self.legs.take(),
        }
    }

    pub fn get_weapon(&self) -> (r: Option<&Item>)
        ensures
            match r {
                Some(w) => self.spec_weapon() == Some(*w),
                None => self.spec_weapon() is None,
            },
    {
        self.weapon.as_ref()
    }

    pub fn get_armor(&self, slot: &ArmorSlot) -> (r: Option<&Item>)
        ensures
            match r {
                Some(a) => self.spec_armor(*slot) == Some(*a),
                None => self.spec_armor(*slot) is None,
            },
    {
        match slot {
            ArmorSlot::Head => self.head.as_ref(),
            ArmorSlot::Body => self.body.as_ref(),
            ArmorSlot::Legs => self.legs.as_ref(),
        }
    }

    /// The wielded weapon's attack bonus, or 0.
    pub fn get_total_attack_bonus(&self) -> (r: i32)
        ensures
            r == match self.spec_weapon() {
                Some(w) => match w.item_type {
                    ItemType::Weapon(ws) => ws.attack_bonus,
                    _ => 0,
                },
                None => 0,
            },
    {
        if let Some(weapon) = &self.weapon {
            if let ItemType::Weapon(stats) = weapon.item_type {
                return stats.attack_bonus;
            }
        }
        0
    }

    /// The wielded weapon's strength bonus, or 0.
    pub fn get_total_strength_bonus(&self) -> (r: i32)
        ensures
            r == match self.spec_weapon() {
                Some(w) => match w.item_type {
                    ItemType::Weapon(ws) => ws.strength_bonus,
                    _ => 0,
                },
                None => 0,
            },
    {
        if let Some(weapon) = &self.weapon {
            if let ItemType::Weapon(stats) = weapon.item_type {
                return stats.strength_bonus;
            }
        }
        0
    }

    /// The sum of the worn armour's defence bonuses, held to the range of `i32`.
    pub fn get_total_defense_bonus(&self) -> (r: i32)
        ensures
            r == clamp(self.spec_defense_total(), i32::MIN as int, i32::MAX as int),
    {
        let total: i64 = slot_defense(&self.head) + slot_defense(&self.body) + slot_defense(&self.legs);
        if total < i32::MIN as i64 {
            i32::MIN
        } else if total > i32::MAX as i64 {
            i32::MAX
        } else {
            total as i32
        }
    }
}

fn slot_defense(slot: &Option<Item>) -> (r: i64)
    ensures
        r == defense_of(*slot),
{
    if let Some(item) = slot {
        if let ItemType::Armor(stats) = item.item_type {
            return stats.defense_bonus as i64;
        }
    }
    0
}

} // verus!
