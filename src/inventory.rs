use vstd::prelude::*;

use crate::combat::{clamp, Combat};

verus! {

/// What kind of thing an item is, with the numbers that kind carries.
#[derive(Debug, Clone, Copy, PartialEq, Eq, Structural)]
pub enum ItemType {
    Weapon(WeaponStats),
    Armor(ArmorStats),
    /// Hit points healed when eaten.
    Food(i32),
    Tool(ToolType),
    Resource(ResourceType),
    /// Value in GP of one unit.
    Currency(u32),
}

#[derive(Debug, Clone, Copy, PartialEq, Eq, Structural)]
pub struct WeaponStats {
    pub attack_bonus: i32,
    pub strength_bonus: i32,
}

#[derive(Debug, Clone, Copy, PartialEq, Eq, Structural)]
pub struct ArmorStats {
    pub defense_bonus: i32,
    pub slot: ArmorSlot,
}

#[derive(Debug, Clone, Copy, PartialEq, Eq, Structural)]
pub enum ArmorSlot {
    Head,
    Body,
    Legs,
}

#[derive(Debug, Clone, Copy, PartialEq, Eq, Structural)]
pub enum ToolType {
    Axe { woodcutting_level: u32 },
    Tinderbox,
    FishingRod { fishing_level: u32 },
}

#[derive(Debug, Clone, Copy, PartialEq, Eq, Structural)]
pub enum ResourceType {
    Logs { firemaking_level: u32 },
    RawFish { cooking_level: u32, burn_level: u32 },
    CookedFish { healing: u32 },
    BurntFish,
    RawBeef { cooking_level: u32, burn_level: u32 },
    BurntBeef,
    Bait,
    Hide,
    Bones,
}

/// A stack of one kind of item. The name is its identity: two items stack together
/// when their names agree.
#[derive(Debug, Clone)]
pub struct Item {
    pub name: String,
    pub item_type: ItemType,
    pub stackable: bool,
    pub quantity: u32,
}

impl Item {
    /// Currency always stacks, whatever its flag says.
    pub open spec fn spec_stackable(&self) -> bool {
        self.stackable || self.item_type is Currency
    }

    /// The same item with another quantity.
    pub open spec fn spec_with_quantity(self, quantity: u32) -> Item {
        Item { name: self.name, item_type: self.item_type, stackable: self.stackable, quantity }
    }

    /// A copy of this item holding `quantity` units.
    pub fn with_quantity(&self, quantity: u32) -> (r: Item)
        ensures
            r == self.spec_with_quantity(quantity),
    {
        Item {
            name: self.name.clone(),
            item_type: self.item_type,
            stackable: self.stackable,
            quantity,
        }
    }

    pub fn gp(amount: u32) -> (r: Item)
        requires
            amount >= 1,
        ensures
            r.name@ == "GP"@,
            r.item_type == ItemType::Currency(1),
            r.stackable == true,
            r.quantity == amount,
    {
        Item {
            name: "GP".to_owned(),
            item_type: ItemType::Currency(1),
            stackable: true,
            quantity: amount,
        }
    }

    pub fn bronze_sword() -> (r: Item)
        ensures
            r.name@ == "Bronze Sword"@,
            r.item_type == ItemType::Weapon(WeaponStats { attack_bonus: 4, strength_bonus: 3 }),
            r.stackable == false,
            r.quantity == 1,
    {
        Item {
            name: "Bronze Sword".to_owned(),
            item_type: ItemType::Weapon(WeaponStats { attack_bonus: 4, strength_bonus: 3 }),
            stackable: false,
            quantity: 1,
        }
    }

    pub fn bronze_helmet() -> (r: Item)
        ensures
            r.name@ == "Bronze Helmet"@,
            r.item_type == ItemType::Armor(ArmorStats { defense_bonus: 3, slot: ArmorSlot::Head }),
            r.stackable == false,
            r.quantity == 1,
    {
        Item {
            name: "Bronze Helmet".to_owned(),
            item_type: ItemType::Armor(ArmorStats { defense_bonus: 3, slot: ArmorSlot::Head }),
            stackable: false,
            quantity: 1,
        }
    }

    pub fn bronze_platebody() -> (r: Item)
        ensures
            r.name@ == "Bronze Platebody"@,
            r.item_type == ItemType::Armor(ArmorStats { defense_bonus: 5, slot: ArmorSlot::Body }),
            r.stackable == false,
            r.quantity == 1,
    {
        Item {
            name: "Bronze Platebody".to_owned(),
            item_type: ItemType::Armor(ArmorStats { defense_bonus: 5, slot: ArmorSlot::Body }),
            stackable: false,
            quantity: 1,
        }
    }

    pub fn bronze_platelegs() -> (r: Item)
        ensures
            r.name@ == "Bronze Platelegs"@,
            r.item_type == ItemType::Armor(ArmorStats { defense_bonus: 4, slot: ArmorSlot::Legs }),
            r.stackable == false,
            r.quantity == 1,
    {
        Item {
            name: "Bronze Platelegs".to_owned(),
            item_type: ItemType::Armor(ArmorStats { defense_bonus: 4, slot: ArmorSlot::Legs }),
            stackable: false,
            quantity: 1,
        }
    }

    pub fn shrimp() -> (r: Item)
        ensures
            r.name@ == "Shrimp"@,
            r.item_type == ItemType::Food(3),
            r.stackable == false,
            r.quantity == 1,
    {
        Item {
            name: "Shrimp".to_owned(),
            item_type: ItemType::Food(3),
            stackable: false,
            quantity: 1,
        }
    }

    pub fn bronze_axe() -> (r: Item)
        ensures
            r.name@ == "Bronze Axe"@,
            r.item_type == ItemType::Tool(ToolType::Axe { woodcutting_level: 1 }),
            r.stackable == false,
            r.quantity == 1,
    {
        Item {
            name: "Bronze Axe".to_owned(),
            item_type: ItemType::Tool(ToolType::Axe { woodcutting_level: 1 }),
            stackable: false,
            quantity: 1,
        }
    }

    pub fn tinderbox() -> (r: Item)
        ensures
            r.name@ == "Tinderbox"@,
            r.item_type == ItemType::Tool(ToolType::Tinderbox),
            r.stackable == false,
            r.quantity == 1,
    {
        Item {
            name: "Tinderbox".to_owned(),
            item_type: ItemType::Tool(ToolType::Tinderbox),
            stackable: false,
            quantity: 1,
        }
    }

    pub fn logs() -> (r: Item)
        ensures
            r.name@ == "Logs"@,
            r.item_type == ItemType::Resource(ResourceType::Logs { firemaking_level: 1 }),
            r.stackable == false,
            r.quantity == 1,
    {
        Item {
            name: "Logs".to_owned(),
            item_type: ItemType::Resource(ResourceType::Logs { firemaking_level: 1 }),
            stackable: false,
            quantity: 1,
        }
    }

    pub fn fishing_rod() -> (r: Item)
        ensures
            r.name@ == "Fishing Rod"@,
            r.item_type == ItemType::Tool(ToolType::FishingRod { fishing_level: 1 }),
            r.stackable == false,
            r.quantity == 1,
    {
        Item {
            name: "Fishing Rod".to_owned(),
            item_type: ItemType::Tool(ToolType::FishingRod { fishing_level: 1 }),
            stackable: false,
            quantity: 1,
        }
    }

    pub fn bait() -> (r: Item)
        ensures
            r.name@ == "Fishing Bait"@,
            r.item_type == ItemType::Resource(ResourceType::Bait),
            r.stackable == false,
            r.quantity == 1,
    {
        Item {
            name: "Fishing Bait".to_owned(),
            item_type: ItemType::Resource(ResourceType::Bait),
            stackable: false,
            quantity: 1,
        }
    }

    pub fn raw_shrimp() -> (r: Item)
        ensures
            r.name@ == "Raw Shrimp"@,
            r.item_type == ItemType::Resource(ResourceType::RawFish { cooking_level: 1, burn_level: 1 }),
            r.stackable == false,
            r.quantity == 1,
    {
        Item {
            name: "Raw Shrimp".to_owned(),
            item_type: ItemType::Resource(ResourceType::RawFish { cooking_level: 1, burn_level: 1 }),
            stackable: false,
            quantity: 1,
        }
    }

    pub fn raw_trout() -> (r: Item)
        ensures
            r.name@ == "Raw Trout"@,
            r.item_type == ItemType::Resource(ResourceType::RawFish { cooking_level: 15, burn_level: 15 }),
            r.stackable == false,
            r.quantity == 1,
    {
        Item {
            name: "Raw Trout".to_owned(),
            item_type: ItemType::Resource(ResourceType::RawFish { cooking_level: 15, burn_level: 15 }),
            stackable: false,
            quantity: 1,
        }
    }

    pub fn cooked_shrimp() -> (r: Item)
        ensures
            r.name@ == "Cooked Shrimp"@,
            r.item_type == ItemType::Food(3),
            r.stackable == false,
            r.quantity == 1,
    {
        Item {
            name: "Cooked Shrimp".to_owned(),
            item_type: ItemType::Food(3),
            stackable: false,
            quantity: 1,
        }
    }

    pub fn cooked_trout() -> (r: Item)
        ensures
            r.name@ == "Cooked Trout"@,
            r.item_type == ItemType::Food(7),
            r.stackable == false,
            r.quantity == 1,
    {
        Item {
            name: "Cooked Trout".to_owned(),
            item_type: ItemType::Food(7),
            stackable: false,
            quantity: 1,
        }
    }

    pub fn cooked_fish() -> (r: Item)
        ensures
            r.name@ == "Cooked fish"@,
            r.item_type == ItemType::Resource(ResourceType::CookedFish { healing: 3 }),
            r.stackable == false,
            r.quantity == 1,
    {
        Item {
            name: "Cooked fish".to_owned(),
            item_type: ItemType::Resource(ResourceType::CookedFish { healing: 3 }),
            stackable: false,
            quantity: 1,
        }
    }

    pub fn burnt_fish() -> (r: Item)
        ensures
            r.name@ == "Burnt fish"@,
            r.item_type == ItemType::Resource(ResourceType::BurntFish),
            r.stackable == false,
            r.quantity == 1,
    {
        Item {
            name: "Burnt fish".to_owned(),
            item_type: ItemType::Resource(ResourceType::BurntFish),
            stackable: false,
            quantity: 1,
        }
    }

    pub fn beef() -> (r: Item)
        ensures
            r.name@ == "Beef"@,
            r.item_type == ItemType::Food(4),
            r.stackable == false,
            r.quantity == 1,
    {
        Item {
            name: "Beef".to_owned(),
            item_type: ItemType::Food(4),
            stackable: false,
            quantity: 1,
        }
    }

    pub fn cow_hide() -> (r: Item)
        ensures
            r.name@ == "Cow hide"@,
            r.item_type == ItemType::Resource(ResourceType::Hide),
            r.stackable == false,
            r.quantity == 1,
    {
        Item {
            name: "Cow hide".to_owned(),
            item_type: ItemType::Resource(ResourceType::Hide),
            stackable: false,
            quantity: 1,
        }
    }

    pub fn bones() -> (r: Item)
        ensures
            r.name@ == "Bones"@,
            r.item_type == ItemType::Resource(ResourceType::Bones),
            r.stackable == false,
            r.quantity == 1,
    {
        Item {
            name: "Bones".to_owned(),
            item_type: ItemType::Resource(ResourceType::Bones),
            stackable: false,
            quantity: 1,
        }
    }

    pub fn raw_beef() -> (r: Item)
        ensures
            r.name@ == "Raw beef"@,
            r.item_type == ItemType::Resource(ResourceType::RawBeef { cooking_level: 1, burn_level: 30 }),
            r.stackable == false,
            r.quantity == 1,
    {
        Item {
            name: "Raw beef".to_owned(),
            item_type: ItemType::Resource(ResourceType::RawBeef { cooking_level: 1, burn_level: 30 }),
            stackable: false,
            quantity: 1,
        }
    }

    pub fn cooked_beef() -> (r: Item)
        ensures
            r.name@ == "Cooked beef"@,
            r.item_type == ItemType::Food(8),
            r.stackable == false,
            r.quantity == 1,
    {
        Item {
            name: "Cooked beef".to_owned(),
            item_type: ItemType::Food(8),
            stackable: false,
            quantity: 1,
        }
    }

    pub fn burnt_beef() -> (r: Item)
        ensures
            r.name@ == "Burnt beef"@,
            r.item_type == ItemType::Resource(ResourceType::BurntBeef),
            r.stackable == false,
            r.quantity == 1,
    {
        Item {
            name: "Burnt beef".to_owned(),
            item_type: ItemType::Resource(ResourceType::BurntBeef),
            stackable: false,
            quantity: 1,
        }
    }

    pub fn can_equip(&self) -> (r: bool)
        ensures
            r == (self.item_type is Weapon || self.item_type is Armor),
    {
        matches!(self.item_type, ItemType::Weapon(_) | ItemType::Armor(_))
    }

    pub fn is_tool(&self) -> (r: bool)
        ensures
            r == self.item_type is Tool,
    {
        matches!(self.item_type, ItemType::Tool(_))
    }

    pub fn is_resource(&self) -> (r: bool)
        ensures
            r == self.item_type is Resource,
    {
        matches!(self.item_type, ItemType::Resource(_))
    }

    /// Eats the item if it is food, healing `combat` by its amount; tells whether the
    /// item was used up.
    pub fn use_item(&self, combat: &mut Combat) -> (r: bool)
        requires
            old(combat).wf(),
        ensures
            r == self.item_type is Food,
            final(combat).wf(),
            final(combat).max_health == old(combat).max_health,
            match self.item_type {
                ItemType::Food(h) => final(combat).health == clamp(
                    old(combat).health + h,
                    0,
                    old(combat).max_health as int,
                ),
                _ => *final(combat) == *old(combat),
            },
    {
        match self.item_type {
            ItemType::Food(healing) => {
                combat.heal(healing);
                true
            },
            _ => false,
        }
    }

    pub fn is_stackable(&self) -> (r: bool)
        ensures
            r == self.spec_stackable(),
    {
        self.stackable || matches!(self.item_type, ItemType::Currency(_))
    }

    /// Merges `other` into this stack when the names agree and this item stacks; the
    /// merged quantity must fit, else nothing changes.
    pub fn stack_with(&mut self, other: &Item) -> (r: bool)
        ensures
            r == (old(self).name@ == other.name@ && old(self).spec_stackable()
                && old(self).quantity + other.quantity <= u32::MAX),
            r ==> *final(self) == old(self).spec_with_quantity((old(self).quantity + other.quantity) as u32),
            !r ==> *final(self) == *old(self),
    {
        if self.name == other.name && self.is_stackable() && self.quantity <= u32::MAX - other.quantity {
            self.quantity = self.quantity + other.quantity;
            true
        } else {
            false
        }
    }
}

/// An item lying on the ground, which can be picked up once its delay has passed.
#[derive(Debug)]
pub struct DroppedItem {
    pub item: Item,
    pub x: i32,
    pub y: i32,
    /// Milliseconds before the item can be picked up.
    pub pickup_delay: i64,
}

/// Milliseconds before a dropped item can be picked up.
pub const PICKUP_DELAY_MS: i64 = 1000;

impl DroppedItem {
    pub fn new(item: Item, x: i32, y: i32) -> (r: Self)
        ensures
            r.item == item && r.x == x && r.y == y,
            r.pickup_delay == PICKUP_DELAY_MS,
    {
        DroppedItem { item, x, y, pickup_delay: PICKUP_DELAY_MS }
    }

    /// Lets `dt` milliseconds of the pickup delay pass.
    pub fn update(&mut self, dt: u32)
        ensures
            final(self).item == old(self).item && final(self).x == old(self).x && final(self).y == old(self).y,
            old(self).pickup_delay > 0 ==> final(self).pickup_delay == if old(self).pickup_delay <= dt {
                0
            } else {
                old(self).pickup_delay - dt
            },
            old(self).pickup_delay <= 0 ==> final(self).pickup_delay == old(self).pickup_delay,
    {
        if self.pickup_delay > 0 {
            if self.pickup_delay <= dt as i64 {
                self.pickup_delay = 0;
            } else {
                self.pickup_delay = self.pickup_delay - dt as i64;
            }
        }
    }

    pub fn can_pickup(&self) -> (r: bool)
        ensures
            r == (self.pickup_delay <= 0),
    {
        self.pickup_delay <= 0
    }
}

/// The number of slots a player's inventory has.
pub const INVENTORY_CAPACITY: usize = 28;

/// The player's inventory: a fixed row of slots. Only items that stack are merged.
#[derive(Debug, Clone)]
pub struct Inventory {
    items: Vec<Option<Item>>,
    capacity: usize,
}

impl View for Inventory {
    type V = Seq<Option<Item>>;

    closed spec fn view(&self) -> Seq<Option<Item>> {
        self.items@
    }
}

impl Inventory {
    pub closed spec fn spec_capacity(&self) -> int {
        self.capacity as int
    }

    pub open spec fn wf(&self) -> bool {
        &&& self@.len() == self.spec_capacity()
        &&& quantities_positive(self@)
    }

    pub fn new(capacity: usize) -> (r: Self)
        ensures
            r.wf(),
            r.spec_capacity() == capacity,
            forall|i: int| 0 <= i < capacity ==> (#[trigger] r@[i]) is None,
    {
        Inventory { items: empty_slots(capacity), capacity }
    }

    /// An inventory holding exactly `items`, slot for slot, as a saved game gives them;
    /// `None` when a slot holds an item with no units.
    pub fn from_slots(items: Vec<Option<Item>>) -> (r: Option<Self>)
        ensures
            r is Some <==> quantities_positive(items@),
            r matches Some(inv) ==> inv.wf() && inv@ == items@ && inv.spec_capacity() == items@.len(),
    {
        if all_quantities_positive(&items) {
            let capacity = items.len();
            Some(Inventory { items, capacity })
        } else {
            None
        }
    }

    /// Adds `item`, merging it into a stack of the same name when it stacks, else into
    /// the first empty slot; `false` when there is no room, and then nothing changes.
    pub fn add_item(&mut self, item: Item) -> (r: bool)
        requires
            old(self).wf(),
            item.quantity >= 1,
        ensures
            final(self).wf(),
            final(self).spec_capacity() == old(self).spec_capacity(),
            r == slots_after_add(old(self)@, item, false) is Some,
            r ==> final(self)@ == slots_after_add(old(self)@, item, false)->0,
            !r ==> final(self)@ == old(self)@,
    {
        add_to_slots(&mut self.items, item, false)
    }

    /// Takes one unit out of slot `index` (the whole slot, unless it is a stack of more
    /// than one); `None` for an empty or missing slot.
    pub fn remove_item(&mut self, index: usize) -> (r: Option<Item>)
        requires
            old(self).wf(),
        ensures
            final(self).wf(),
            final(self).spec_capacity() == old(self).spec_capacity(),
            final(self)@ == slots_after_remove_one(old(self)@, index as int, false).0,
            r == slots_after_remove_one(old(self)@, index as int, false).1,
    {
        remove_one_from_slots(&mut self.items, index, false)
    }

    /// Takes `amount` units out of the stack in slot `index`; `None`, with nothing
    /// changed, when the slot holds no stack or fewer units than that.
    pub fn remove_items(&mut self, index: usize, amount: u32) -> (r: Option<Item>)
        requires
            old(self).wf(),
        ensures
            final(self).wf(),
            final(self).spec_capacity() == old(self).spec_capacity(),
            final(self)@ == slots_after_remove_n(old(self)@, index as int, amount, false).0,
            r == slots_after_remove_n(old(self)@, index as int, amount, false).1,
    {
        remove_n_from_slots(&mut self.items, index, amount, false)
    }

    pub fn get_items(&self) -> (r: &Vec<Option<Item>>)
        ensures
            r@ == self@,
    {
        &self.items
    }

    /// Eats the food in slot `index`, which empties the slot; `false`, with nothing
    /// changed, when the slot holds no food.
    pub fn use_item(&mut self, index: usize, combat: &mut Combat) -> (r: bool)
        requires
            old(self).wf(),
            old(combat).wf(),
        ensures
            final(self).wf(),
            final(self).spec_capacity() == old(self).spec_capacity(),
            final(combat).wf(),
            final(combat).max_health == old(combat).max_health,
            r == (index < old(self)@.len() && (old(self)@[index as int] matches Some(it) && it.item_type is Food)),
            r ==> final(self)@ == old(self)@.update(index as int, None),
            r ==> (old(self)@[index as int]->0.item_type matches ItemType::Food(h) && final(combat).health == clamp(
                old(combat).health + h,
                0,
                old(combat).max_health as int,
            )),
            !r ==> final(self)@ == old(self)@ && *final(combat) == *old(combat),
    {
        if index >= self.items.len() {
            return false;
        }
        let used = match &self.items[index] {
            Some(item) => item.use_item(combat),
            None => false,
        };
        if used {
            self.items[index] = None;
        }
        used
    }

    pub fn get_item(&self, index: usize) -> (r: Option<&Item>)
        requires
            self.wf(),
        ensures
            match r {
                Some(it) => index < self@.len() && self@[index as int] == Some(*it),
                None => index >= self@.len() || self@[index as int] is None,
            },
    {
        if index < self.capacity {
            self.items[index].as_ref()
        } else {
            None
        }
    }

    /// Whether `add_item` would take `item`.
    pub fn has_room_for(&self, item: &Item) -> (r: bool)
        ensures
            r == slots_after_add(self@, *item, false) is Some,
    {
        room_for(&self.items, item, false)
    }

    /// Whether every slot is empty.
    pub fn is_empty(&self) -> (r: bool)
        ensures
            r == forall|i: int| 0 <= i < self@.len() ==> (#[trigger] self@[i]) is None,
    {
        let mut i: usize = 0;
        while i < self.items.len()
            invariant
                i <= self@.len(),
                forall|j: int| 0 <= j < i ==> (#[trigger] self@[j]) is None,
            decreases self@.len() - i,
        {
            if self.items[i].is_some() {
                return false;
            }
            i = i + 1;
        }
        true
    }

    pub fn capacity(&self) -> (r: usize)
        ensures
            r == self.spec_capacity(),
    {
        self.capacity
    }
}

/// Whether a slot holds an item called `name`.
pub open spec fn holds_named(slot: Option<Item>, name: Seq<char>) -> bool {
    slot matches Some(it) && it.name@ == name
}

/// The first slot at or after `from` that holds an item called `name`, or -1.
pub open spec fn find_named(s: Seq<Option<Item>>, name: Seq<char>, from: int) -> int
    decreases s.len() - from,
{
    if from < 0 || from >= s.len() {
        -1
    } else if holds_named(s[from], name) {
        from
    } else {
        find_named(s, name, from + 1)
    }
}

/// The first empty slot at or after `from`, or -1.
pub open spec fn find_empty(s: Seq<Option<Item>>, from: int) -> int
    decreases s.len() - from,
{
    if from < 0 || from >= s.len() {
        -1
    } else if s[from] is None {
        from
    } else {
        find_empty(s, from + 1)
    }
}

/// The slots after `item` is added, or `None` when it is refused. An item that stacks
/// (every item, where `always_stack` holds) joins the first slot of the same name,
/// unless the sum would not fit; any other item takes the first empty slot.
pub open spec fn slots_after_add(s: Seq<Option<Item>>, item: Item, always_stack: bool) -> Option<Seq<Option<Item>>> {
    let k = find_named(s, item.name@, 0);
    let e = find_empty(s, 0);
    if (always_stack || item.spec_stackable()) && k >= 0 {
        let it = s[k]->0;
        if it.quantity + item.quantity <= u32::MAX {
            Some(s.update(k, Some(it.spec_with_quantity((it.quantity + item.quantity) as u32))))
        } else {
            None
        }
    } else if e >= 0 {
        Some(s.update(e, Some(item)))
    } else {
        None
    }
}

/// Taking one unit out of slot `index`: the slots after, and what was taken. A stack of
/// more than one (of an item that stacks, unless `always_stack`) gives up a single unit;
/// anything else leaves the slot whole.
pub open spec fn slots_after_remove_one(s: Seq<Option<Item>>, index: int, always_stack: bool) -> (Seq<Option<Item>>, Option<Item>) {
    if 0 <= index < s.len() && s[index] is Some {
        let it = s[index]->0;
        if (always_stack || it.spec_stackable()) && it.quantity > 1 {
            (s.update(index, Some(it.spec_with_quantity((it.quantity - 1) as u32))), Some(it.spec_with_quantity(1)))
        } else {
            (s.update(index, None), Some(it))
        }
    } else {
        (s, None)
    }
}

/// Taking `amount` units out of slot `index`: the slots after, and what was taken. Only
/// a stack (any item, where `always_stack`) of at least `amount` units gives them up;
/// taking all of it empties the slot.
pub open spec fn slots_after_remove_n(s: Seq<Option<Item>>, index: int, amount: u32, always_stack: bool) -> (Seq<Option<Item>>, Option<Item>) {
    if 0 <= index < s.len() && s[index] is Some {
        let it = s[index]->0;
        if !(always_stack || it.spec_stackable()) || amount == 0 || amount > it.quantity {
            (s, None)
        } else if amount == it.quantity {
            (s.update(index, None), Some(it))
        } else {
            (s.update(index, Some(it.spec_with_quantity((it.quantity - amount) as u32))), Some(it.spec_with_quantity(amount)))
        }
    } else {
        (s, None)
    }
}

/// When no slot from `from` on holds `name`, the search says so, and conversely.
pub proof fn lemma_find_named_absent(s: Seq<Option<Item>>, name: Seq<char>, from: int)
    requires
        0 <= from,
    ensures
        find_named(s, name, from) == -1 <==> forall|i: int| from <= i < s.len() ==> !holds_named(#[trigger] s[i], name),
        find_named(s, name, from) != -1 ==> from <= find_named(s, name, from) < s.len() && holds_named(
            s[find_named(s, name, from)],
            name,
        ),
    decreases s.len() - from,
{
    if from < s.len() {
        lemma_find_named_absent(s, name, from + 1);
    }
}

/// No slot before the one the search finds holds the name.
pub proof fn lemma_find_named_first(s: Seq<Option<Item>>, name: Seq<char>, from: int)
    requires
        0 <= from,
    ensures
        forall|i: int| from <= i < s.len() && (find_named(s, name, from) == -1 || i < find_named(s, name, from)) ==> !holds_named(#[trigger] s[i], name),
    decreases s.len() - from,
{
    if from < s.len() {
        lemma_find_named_first(s, name, from + 1);
    }
}

/// The empty slot that the search finds is empty and in range.
pub proof fn lemma_find_empty(s: Seq<Option<Item>>, from: int)
    requires
        0 <= from,
    ensures
        find_empty(s, from) == -1 <==> forall|i: int| from <= i < s.len() ==> (#[trigger] s[i]) is Some,
        find_empty(s, from) != -1 ==> from <= find_empty(s, from) < s.len() && s[find_empty(s, from)] is None,
    decreases s.len() - from,
{
    if from < s.len() {
        lemma_find_empty(s, from + 1);
    }
}

/// No slot before the one the search finds is empty.
pub proof fn lemma_find_empty_first(s: Seq<Option<Item>>, from: int)
    requires
        0 <= from,
    ensures
        forall|i: int| from <= i < s.len() && (find_empty(s, from) == -1 || i < find_empty(s, from)) ==> (#[trigger] s[i]) is Some,
    decreases s.len() - from,
{
    if from < s.len() {
        lemma_find_empty_first(s, from + 1);
    }
}

/// Every item held has at least one unit.
pub open spec fn quantities_positive(s: Seq<Option<Item>>) -> bool {
    forall|i: int| 0 <= i < s.len() && (#[trigger] s[i]) is Some ==> s[i]->0.quantity >= 1
}

pub(crate) fn all_quantities_positive(items: &Vec<Option<Item>>) -> (r: bool)
    ensures
        r == quantities_positive(items@),
{
    let mut i: usize = 0;
    while i < items.len()
        invariant
            i <= items@.len(),
            forall|j: int| 0 <= j < i && (#[trigger] items@[j]) is Some ==> items@[j]->0.quantity >= 1,
        decreases items@.len() - i,
    {
        if let Some(it) = &items[i] {
            if it.quantity == 0 {
                return false;
            }
        }
        i = i + 1;
    }
    true
}

pub(crate) fn empty_slots(capacity: usize) -> (r: Vec<Option<Item>>)
    ensures
        r@.len() == capacity,
        forall|i: int| 0 <= i < capacity ==> (#[trigger] r@[i]) is None,
{
    let mut v: Vec<Option<Item>> = Vec::new();
    while v.len() < capacity
        invariant
            v@.len() <= capacity,
            forall|i: int| 0 <= i < v@.len() ==> (#[trigger] v@[i]) is None,
        decreases capacity - v@.len(),
    {
        v.push(None);
    }
    v
}

pub(crate) fn find_named_slot(items: &Vec<Option<Item>>, name: &String) -> (r: Option<usize>)
    ensures
        r matches Some(i) ==> i < items@.len() && holds_named(items@[i as int], name@),
        find_named(items@, name@, 0) == match r {
            Some(i) => i as int,
            None => -1,
        },
{
    let mut i: usize = 0;
    while i < items.len()
        invariant
            i <= items@.len(),
            find_named(items@, name@, 0) == find_named(items@, name@, i as int),
        decreases items@.len() - i,
    {
        if let Some(it) = &items[i] {
            if it.name == *name {
                return Some(i);
            }
        }
        i = i + 1;
    }
    None
}

pub(crate) fn find_empty_slot(items: &Vec<Option<Item>>) -> (r: Option<usize>)
    ensures
        r matches Some(i) ==> i < items@.len() && items@[i as int] is None,
        find_empty(items@, 0) == match r {
            Some(i) => i as int,
            None => -1,
        },
{
    let mut i: usize = 0;
    while i < items.len()
        invariant
            i <= items@.len(),
            find_empty(items@, 0) == find_empty(items@, i as int),
        decreases items@.len() - i,
    {
        if items[i].is_none() {
            return Some(i);
        }
        i = i + 1;
    }
    None
}

/// Whether `slots_after_add` would take `item`.
pub(crate) fn room_for(items: &Vec<Option<Item>>, item: &Item, always_stack: bool) -> (r: bool)
    ensures
        r == slots_after_add(items@, *item, always_stack) is Some,
{
    if always_stack || item.is_stackable() {
        if let Some(k) = find_named_slot(items, &item.name) {
            return match &items[k] {
                Some(existing) => existing.quantity <= u32::MAX - item.quantity,
                None => false,
            };
        }
    }
    find_empty_slot(items).is_some()
}

/// Adds `item` to `items` as `slots_after_add` says.
pub(crate) fn add_to_slots(items: &mut Vec<Option<Item>>, item: Item, always_stack: bool) -> (r: bool)
    ensures
        r == slots_after_add(old(items)@, item, always_stack) is Some,
        r ==> final(items)@ == slots_after_add(old(items)@, item, always_stack)->0,
        !r ==> final(items)@ == old(items)@,
        final(items)@.len() == old(items)@.len(),
        quantities_positive(old(items)@) && item.quantity >= 1 ==> quantities_positive(final(items)@),
{
    if always_stack || item.is_stackable() {
        if let Some(k) = find_named_slot(items, &item.name) {
            let merged = match &items[k] {
                Some(existing) => {
                    if existing.quantity <= u32::MAX - item.quantity {
                        Some(existing.with_quantity(existing.quantity + item.quantity))
                    } else {
                        None
                    }
                },
                None => None,
            };
            return match merged {
                Some(m) => {
                    items[k] = Some(m);
                    true
                },
                None => false,
            };
        }
    }
    match find_empty_slot(items) {
        Some(e) => {
            items[e] = Some(item);
            true
        },
        None => false,
    }
}

pub(crate) fn remove_one_from_slots(items: &mut Vec<Option<Item>>, index: usize, always_stack: bool) -> (r: Option<Item>)
    ensures
        final(items)@ == slots_after_remove_one(old(items)@, index as int, always_stack).0,
        r == slots_after_remove_one(old(items)@, index as int, always_stack).1,
{
    if index >= items.len() {
        return None;
    }
    let (rest, taken) = match &items[index] {
        Some(it) => {
            if (always_stack || it.is_stackable()) && it.quantity > 1 {
                (Some(it.with_quantity(it.quantity - 1)), Some(it.with_quantity(1)))
            } else {
                (None, Some(it.with_quantity(it.quantity)))
            }
        },
        None => {
            return None;
        },
    };
    items[index] = rest;
    taken
}

pub(crate) fn remove_n_from_slots(items: &mut Vec<Option<Item>>, index: usize, amount: u32, always_stack: bool) -> (r: Option<Item>)
    ensures
        final(items)@ == slots_after_remove_n(old(items)@, index as int, amount, always_stack).0,
        r == slots_after_remove_n(old(items)@, index as int, amount, always_stack).1,
{
    if index >= items.len() {
        return None;
    }
    let (rest, taken) = match &items[index] {
        Some(it) => {
            if !(always_stack || it.is_stackable()) || amount == 0 || amount > it.quantity {
                return None;
            } else if amount == it.quantity {
                (None, Some(it.with_quantity(it.quantity)))
            } else {
                (Some(it.with_quantity(it.quantity - amount)), Some(it.with_quantity(amount)))
            }
        },
        None => {
            return None;
        },
    };
    items[index] = rest;
    taken
}

} // verus!

verus! {

/// Two stacking items of one name, added in turn where that name is not yet held and a
/// slot is free, end up as one stack in the first free slot holding both quantities; no
/// other slot changes.
pub proof fn lemma_add_twice_merges(s: Seq<Option<Item>>, a: Item, b: Item, always_stack: bool)
    requires
        a.name@ == b.name@,
        always_stack || (a.spec_stackable() && b.spec_stackable()),
        forall|i: int| 0 <= i < s.len() ==> !holds_named(#[trigger] s[i], a.name@),
        find_empty(s, 0) >= 0,
        a.quantity + b.quantity <= u32::MAX,
    ensures
        slots_after_add(s, a, always_stack) is Some,
        slots_after_add(slots_after_add(s, a, always_stack)->0, b, always_stack) == Some(
            s.update(find_empty(s, 0), Some(a.spec_with_quantity((a.quantity + b.quantity) as u32))),
        ),
{
    lemma_find_named_absent(s, a.name@, 0);
    lemma_find_empty(s, 0);
    let e = find_empty(s, 0);
    let t = s.update(e, Some(a));
    assert(slots_after_add(s, a, always_stack) == Some(t));
    lemma_find_named_absent(t, a.name@, 0);
    let k = find_named(t, a.name@, 0);
    assert(holds_named(t[e], a.name@));
    assert(k == e) by {
        if k < e {
            assert(holds_named(s[k], a.name@));
        }
        if k > e {
            assert(!holds_named(t[e], a.name@)) by {
                lemma_find_named_first(t, a.name@, 0);
            }
        }
    }
}

/// Taking out more units than a slot holds, or none, changes nothing; whatever is taken
/// has exactly the asked quantity and the slot keeps the rest, never a negative or empty
/// stack.
pub proof fn lemma_remove_n_bounds(s: Seq<Option<Item>>, index: int, amount: u32, always_stack: bool)
    requires
        quantities_positive(s),
    ensures
        quantities_positive(slots_after_remove_n(s, index, amount, always_stack).0),
        (0 <= index < s.len() && s[index] is Some && (amount > s[index]->0.quantity || amount == 0))
            ==> slots_after_remove_n(s, index, amount, always_stack) == (s, Option::<Item>::None),
        slots_after_remove_n(s, index, amount, always_stack).1 matches Some(x) ==> {
            &&& x.quantity == amount
            &&& x.name@ == s[index]->0.name@
            &&& slots_after_remove_n(s, index, amount, always_stack).0[index] matches Some(rest)
                ==> rest.quantity == s[index]->0.quantity - amount && rest.quantity >= 1
        },
{
}

/// Taking one unit out of a slot and adding it back gives the slots as they were, where
/// the add goes back to that slot: no earlier slot holds the name (when it stacks), no
/// later one either (when the slot is emptied), and no earlier slot is empty (when the
/// slot is emptied).
pub proof fn lemma_remove_one_then_add(s: Seq<Option<Item>>, index: int, always_stack: bool)
    requires
        quantities_positive(s),
        0 <= index < s.len(),
        s[index] is Some,
        (always_stack || s[index]->0.spec_stackable()) ==> forall|j: int|
            0 <= j < index ==> !holds_named(#[trigger] s[j], s[index]->0.name@),
        !((always_stack || s[index]->0.spec_stackable()) && s[index]->0.quantity > 1) ==> forall|j: int|
            0 <= j < index ==> (#[trigger] s[j]) is Some,
        ((always_stack || s[index]->0.spec_stackable()) && s[index]->0.quantity == 1) ==> forall|j: int|
            index < j < s.len() ==> !holds_named(#[trigger] s[j], s[index]->0.name@),
    ensures
        slots_after_remove_one(s, index, always_stack).1 is Some,
        slots_after_add(
            slots_after_remove_one(s, index, always_stack).0,
            slots_after_remove_one(s, index, always_stack).1->0,
            always_stack,
        ) == Some(s),
{
    let it = s[index]->0;
    let (t, r) = slots_after_remove_one(s, index, always_stack);
    let x = r->0;
    lemma_find_named_absent(t, it.name@, 0);
    lemma_find_empty(t, 0);
    if (always_stack || it.spec_stackable()) && it.quantity > 1 {
        let k = find_named(t, it.name@, 0);
        assert(holds_named(t[index], it.name@));
        lemma_find_named_first(t, it.name@, 0);
        assert(k == index);
        assert(t.update(index, Some(t[index]->0.spec_with_quantity((t[index]->0.quantity + x.quantity) as u32))) =~= s);
    } else {
        if always_stack || it.spec_stackable() {
            assert(find_named(t, it.name@, 0) == -1);
        }
        let e = find_empty(t, 0);
        assert(t[index] is None);
        lemma_find_empty_first(t, 0);
        assert(e == index);
        assert(t.update(index, Some(x)) =~= s);
    }
}

/// A container whose every slot is taken refuses an item that does not stack, and
/// nothing changes.
pub proof fn lemma_full_refuses_unstackable(s: Seq<Option<Item>>, item: Item)
    requires
        forall|i: int| 0 <= i < s.len() ==> (#[trigger] s[i]) is Some,
        !item.spec_stackable(),
    ensures
        slots_after_add(s, item, false) is None,
{
    lemma_find_empty(s, 0);
}

} // verus!
