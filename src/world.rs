use vstd::prelude::*;

use crate::inventory::{Item, ItemType, ResourceType, ToolType};
use crate::random::random_in;
use crate::skills::Skills;

verus! {

/// How close, in world units, the player must stand to act on something.
pub const INTERACTION_RANGE: i64 = 40;

/// Milliseconds a felled tree takes to grow back.
pub const TREE_RESPAWN_MS: i64 = 30000;

/// Milliseconds a fire burns.
pub const FIRE_LIFETIME_MS: i64 = 60000;

/// Milliseconds a fishing spot lasts.
pub const FISHING_SPOT_LIFETIME_MS: i64 = 30000;

/// Chops a standing tree takes to fall.
pub const TREE_HEALTH: u8 = 3;

/// Whether two points are closer than the interaction range.
pub open spec fn within_range(ax: int, ay: int, bx: int, by: int) -> bool {
    (ax - bx) * (ax - bx) + (ay - by) * (ay - by) < INTERACTION_RANGE * INTERACTION_RANGE
}

/// Whether `(ax, ay)` and `(bx, by)` are within the interaction range of each other.
pub fn in_range(ax: i32, ay: i32, bx: i32, by: i32) -> (r: bool)
    ensures
        r == within_range(ax as int, ay as int, bx as int, by as int),
{
    let dx: i128 = ax as i128 - bx as i128;
    let dy: i128 = ay as i128 - by as i128;
    proof {
        assert(dx * dx <= 0x1_0000_0000 * 0x1_0000_0000) by (nonlinear_arith)
            requires -0x1_0000_0000 <= dx <= 0x1_0000_0000;
        assert(dy * dy <= 0x1_0000_0000 * 0x1_0000_0000) by (nonlinear_arith)
            requires -0x1_0000_0000 <= dy <= 0x1_0000_0000;
        assert(dx * dx >= 0) by (nonlinear_arith);
        assert(dy * dy >= 0) by (nonlinear_arith);
    }
    dx * dx + dy * dy < (INTERACTION_RANGE * INTERACTION_RANGE) as i128
}

/// The timer left after `dt` milliseconds, or `None` once it has run out.
pub open spec fn tick(timer: int, dt: int) -> Option<int> {
    if timer <= dt {
        None
    } else {
        Some(timer - dt)
    }
}

/// A real tree, or a wall that looks like one.
#[derive(Debug, Clone, Copy, PartialEq, Eq, Structural)]
pub enum TreeType {
    Normal,
    Wall,
}

/// Tree `new` is tree `old` after `dt` milliseconds (see `Tree::update`).
pub open spec fn tree_tick(old: Tree, new: Tree, dt: int) -> bool {
    &&& new.x == old.x && new.y == old.y && new.tree_type == old.tree_type
    &&& match old.respawn_timer {
        Some(t) => match tick(t as int, dt) {
            Some(rest) => new.respawn_timer == Some(rest as i64) && new.health == old.health && new.fallen == old.fallen,
            None => new.respawn_timer is None && new.health == TREE_HEALTH && !new.fallen,
        },
        None => new.respawn_timer is None && new.health == old.health && new.fallen == old.fallen,
    }
}

/// Fire `f` after burning `dt` milliseconds.
pub open spec fn fire_after(f: Fire, dt: int) -> Fire {
    Fire {
        lifetime: match tick(f.lifetime as int, dt) {
            Some(rest) => rest as i64,
            None => 0,
        },
        ..f
    }
}

/// The fires of `s` after `dt` milliseconds, in order, without those that burnt out.
pub open spec fn fires_after(s: Seq<Fire>, dt: int) -> Seq<Fire>
    decreases s.len(),
{
    if s.len() == 0 {
        Seq::empty()
    } else {
        let f = fire_after(s.last(), dt);
        let before = fires_after(s.drop_last(), dt);
        if f.lifetime > 0 {
            before.push(f)
        } else {
            before
        }
    }
}

/// Fishing spot `f` after `dt` milliseconds.
pub open spec fn spot_after(f: FishingSpot, dt: int) -> FishingSpot {
    FishingSpot {
        lifetime: match tick(f.lifetime as int, dt) {
            Some(rest) => rest as i64,
            None => 0,
        },
        ..f
    }
}

/// The fishing spots of `s` after `dt` milliseconds, in order, without those that ran
/// out.
pub open spec fn spots_after(s: Seq<FishingSpot>, dt: int) -> Seq<FishingSpot>
    decreases s.len(),
{
    if s.len() == 0 {
        Seq::empty()
    } else {
        let f = spot_after(s.last(), dt);
        let before = spots_after(s.drop_last(), dt);
        if f.lifetime > 0 {
            before.push(f)
        } else {
            before
        }
    }
}

/// A tree that the player can chop down, or a wall drawn as one that cannot be.
#[derive(Debug)]
pub struct Tree {
    pub x: i32,
    pub y: i32,
    pub health: u8,
    /// Milliseconds until a felled tree stands again.
    pub respawn_timer: Option<i64>,
    pub tree_type: TreeType,
    pub fallen: bool,
}

/// Whether `axe` is an axe that a woodcutter of `level` may use.
pub open spec fn usable_axe(axe: Option<Item>, level: int) -> bool {
    axe matches Some(it) && (it.item_type matches ItemType::Tool(ToolType::Axe { woodcutting_level }) && level
        >= woodcutting_level)
}

impl Tree {
    pub open spec fn is_wall(&self) -> bool {
        self.tree_type == TreeType::Wall
    }

    /// A felled tree: one that can be chopped no more until it grows back.
    pub open spec fn spec_chopped(&self) -> bool {
        !self.is_wall() && self.health == 0
    }

    pub fn new(x: i32, y: i32) -> (r: Self)
        ensures
            r.x == x && r.y == y,
            r.health == TREE_HEALTH,
            r.respawn_timer is None,
            !r.fallen,
            !r.is_wall(),
    {
        Tree { x, y, health: TREE_HEALTH, respawn_timer: None, tree_type: TreeType::Normal, fallen: false }
    }

    pub fn new_wall(x: i32, y: i32) -> (r: Self)
        ensures
            r.x == x && r.y == y,
            r.health == 255,
            r.respawn_timer is None,
            !r.fallen,
            r.is_wall(),
    {
        Tree { x, y, health: 255, respawn_timer: None, tree_type: TreeType::Wall, fallen: false }
    }

    /// Runs the regrowth timer for `dt` milliseconds; when it runs out the tree stands
    /// again at full health.
    pub fn update(&mut self, dt: u32)
        ensures
            tree_tick(*old(self), *final(self), dt as int),
            final(self).x == old(self).x && final(self).y == old(self).y,
            final(self).is_wall() == old(self).is_wall(),
            match old(self).respawn_timer {
                Some(t) => match tick(t as int, dt as int) {
                    Some(rest) => final(self).respawn_timer == Some(rest as i64) && final(self).health
                        == old(self).health && final(self).fallen == old(self).fallen,
                    None => final(self).respawn_timer is None && final(self).health == TREE_HEALTH
                        && !final(self).fallen,
                },
                None => final(self).respawn_timer is None && final(self).health == old(self).health
                    && final(self).fallen == old(self).fallen,
            },
    {
        if let Some(t) = self.respawn_timer {
            if t <= dt as i64 {
                self.health = TREE_HEALTH;
                self.respawn_timer = None;
                self.fallen = false;
            } else {
                self.respawn_timer = Some(t - dt as i64);
            }
        }
    }

    pub fn is_near(&self, x: i32, y: i32) -> (r: bool)
        ensures
            r == within_range(self.x as int, self.y as int, x as int, y as int),
    {
        in_range(self.x, self.y, x, y)
    }

    pub fn is_chopped(&self) -> (r: bool)
        ensures
            r == self.spec_chopped(),
    {
        match self.tree_type {
            TreeType::Normal => self.health == 0,
            TreeType::Wall => false,
        }
    }

    /// One chop with `axe`: it succeeds on a standing tree when the axe suits the
    /// woodcutting level, and takes one health; the chop that takes the last one fells
    /// the tree and starts its regrowth timer.
    pub fn try_chop(&mut self, skills: &Skills, axe: Option<&Item>) -> (r: bool)
        ensures
            r == (!old(self).spec_chopped() && !old(self).is_wall() && usable_axe(
                match axe {
                    Some(a) => Some(*a),
                    None => None,
                },
                skills.woodcutting.spec_level(),
            )),
            final(self).x == old(self).x && final(self).y == old(self).y,
            final(self).is_wall() == old(self).is_wall(),
            r ==> final(self).health == old(self).health - 1,
            r && final(self).health == 0 ==> final(self).fallen && final(self).respawn_timer == Some(
                TREE_RESPAWN_MS,
            ),
            r && final(self).health > 0 ==> final(self).fallen == old(self).fallen
                && final(self).respawn_timer == old(self).respawn_timer,
            !r ==> *final(self) == *old(self),
    {
        if self.is_chopped() || matches!(self.tree_type, TreeType::Wall) {
            return false;
        }
        if let Some(item) = axe {
            if let ItemType::Tool(ToolType::Axe { woodcutting_level }) = item.item_type {
                if skills.woodcutting.get_level() as u32 >= woodcutting_level {
                    self.health = self.health - 1;
                    if self.health == 0 {
                        self.fallen = true;
                        self.respawn_timer = Some(TREE_RESPAWN_MS);
                    }
                    return true;
                }
            }
        }
        false
    }

    /// A random number of logs, from 1 to 35, for a felled tree; 0 for a standing one.
    pub fn get_random_logs(&self) -> (r: u32)
        ensures
            self.spec_chopped() ==> 1 <= r <= 35,
            !self.spec_chopped() ==> r == 0,
    {
        if self.is_chopped() {
            random_in(1, 35)
        } else {
            0
        }
    }
}

/// A fire the player lit, on which raw food can be cooked.
#[derive(Debug)]
pub struct Fire {
    pub x: i32,
    pub y: i32,
    /// Milliseconds left to burn.
    pub lifetime: i64,
}

/// The cooked result of `raw`, burnt or not, or `None` when it is no raw food or the
/// cook's level is under the one it asks. It burns when `roll`, in `0..100`, falls under
/// the burn chance in percent: none from the burn level on, and below it 60 less twice the
/// level for fish, 40 less twice the level for beef.
pub open spec fn cook_result(raw: ItemType, level: int, roll: int) -> Option<(Seq<char>, ItemType)> {
    match raw {
        ItemType::Resource(ResourceType::RawFish { cooking_level, burn_level }) => if level >= cooking_level {
            if level < burn_level && roll < 60 - 2 * level {
                Some(("Burnt fish"@, ItemType::Resource(ResourceType::BurntFish)))
            } else {
                Some(("Cooked fish"@, ItemType::Resource(ResourceType::CookedFish { healing: 3 })))
            }
        } else {
            None
        },
        ItemType::Resource(ResourceType::RawBeef { cooking_level, burn_level }) => if level >= cooking_level {
            if level < burn_level && roll < 40 - 2 * level {
                Some(("Burnt beef"@, ItemType::Resource(ResourceType::BurntBeef)))
            } else {
                Some(("Cooked beef"@, ItemType::Food(8)))
            }
        } else {
            None
        },
        _ => None,
    }
}

/// Cooks `raw_item` at `cooking_level` with the burn roll `roll` (see `cook_result`).
pub fn cook_with_roll(raw_item: &Item, cooking_level: u8, roll: u32) -> (r: Option<Item>)
    ensures
        match cook_result(raw_item.item_type, cooking_level as int, roll as int) {
            Some((name, kind)) => r matches Some(it) && it.name@ == name && it.item_type == kind
                && !it.stackable && it.quantity == 1,
            None => r is None,
        },
{
    proof {
        reveal_strlit("Burnt fish");
        reveal_strlit("Cooked fish");
        reveal_strlit("Burnt beef");
        reveal_strlit("Cooked beef");
    }
    let level = cooking_level as u32;
    match raw_item.item_type {
        ItemType::Resource(ResourceType::RawFish { cooking_level: req_level, burn_level }) => {
            if level >= req_level {
                if level < burn_level && (roll as i64) < 60 - 2 * level as i64 {
                    Some(Item::burnt_fish())
                } else {
                    Some(Item::cooked_fish())
                }
            } else {
                None
            }
        },
        ItemType::Resource(ResourceType::RawBeef { cooking_level: req_level, burn_level }) => {
            if level >= req_level {
                if level < burn_level && (roll as i64) < 40 - 2 * level as i64 {
                    Some(Item::burnt_beef())
                } else {
                    Some(Item::cooked_beef())
                }
            } else {
                None
            }
        },
        _ => None,
    }
}

impl Fire {
    pub fn new(x: i32, y: i32) -> (r: Self)
        ensures
            r.x == x && r.y == y,
            r.lifetime == FIRE_LIFETIME_MS,
    {
        Fire { x, y, lifetime: FIRE_LIFETIME_MS }
    }

    /// Burns for `dt` milliseconds; a fire never goes under zero time left.
    pub fn update(&mut self, dt: u32)
        ensures
            *final(self) == fire_after(*old(self), dt as int),
            final(self).x == old(self).x && final(self).y == old(self).y,
            final(self).lifetime == match tick(old(self).lifetime as int, dt as int) {
                Some(rest) => rest,
                None => 0,
            },
    {
        if self.lifetime <= dt as i64 {
            self.lifetime = 0;
        } else {
            self.lifetime = self.lifetime - dt as i64;
        }
    }

    pub fn is_expired(&self) -> (r: bool)
        ensures
            r == (self.lifetime <= 0),
    {
        self.lifetime <= 0
    }

    pub fn is_near(&self, x: i32, y: i32) -> (r: bool)
        ensures
            r == within_range(self.x as int, self.y as int, x as int, y as int),
    {
        in_range(self.x, self.y, x, y)
    }

    /// Cooks `raw_item` on this fire with a random burn roll.
    pub fn try_cook(&self, raw_item: &Item, cooking_level: u8) -> (r: Option<Item>)
        ensures
            r is Some <==> cook_result(raw_item.item_type, cooking_level as int, 0) is Some,
            r matches Some(it) ==> exists|roll: int|
                0 <= roll < 100 && #[trigger] cook_result(raw_item.item_type, cooking_level as int, roll)
                    == Some((it.name@, it.item_type)),
            r matches Some(it) ==> !it.stackable && it.quantity == 1,
    {
        let roll = random_in(0, 99);
        cook_with_roll(raw_item, cooking_level, roll)
    }
}

/// Which fish a spot gives.
#[derive(Debug, Clone, Copy, PartialEq, Eq, Structural)]
pub enum FishType {
    Shrimp,
    Trout,
}

/// Whether the player can fish at a spot of `kind`: shrimp asks for a rod, trout for
/// level 15, a rod and bait.
pub open spec fn can_fish(kind: FishType, level: int, has_rod: bool, bait: bool) -> bool {
    match kind {
        FishType::Shrimp => level >= 1 && has_rod,
        FishType::Trout => level >= 15 && has_rod && bait,
    }
}

/// Whether a catch attempt with `roll`, in `0..100`, succeeds: under 40 for shrimp,
/// under 30 for trout.
pub open spec fn catch_succeeds(kind: FishType, roll: int) -> bool {
    match kind {
        FishType::Shrimp => roll < 40,
        FishType::Trout => roll < 30,
    }
}

/// A spot in the water where fish can be caught for a while.
pub struct FishingSpot {
    pub x: i32,
    pub y: i32,
    /// Milliseconds the spot still lasts.
    pub lifetime: i64,
    pub fish_type: FishType,
}

/// One fishing attempt at a spot of `kind` with the catch roll `roll`: the raw fish of
/// the spot when the player can fish there and the roll succeeds, else nothing.
pub fn fish_with_roll(kind: FishType, level: u8, has_rod: bool, bait: bool, roll: u32) -> (r: Option<Item>)
    ensures
        (can_fish(kind, level as int, has_rod, bait) && catch_succeeds(kind, roll as int)) <==> r is Some,
        r matches Some(it) ==> (match kind {
            FishType::Shrimp => it.name@ == "Raw Shrimp"@ && it.item_type == ItemType::Resource(
                ResourceType::RawFish { cooking_level: 1, burn_level: 1 },
            ),
            FishType::Trout => it.name@ == "Raw Trout"@ && it.item_type == ItemType::Resource(
                ResourceType::RawFish { cooking_level: 15, burn_level: 15 },
            ),
        }) && !it.stackable && it.quantity == 1,
{
    match kind {
        FishType::Shrimp => {
            if level >= 1 && has_rod && roll < 40 {
                Some(Item::raw_shrimp())
            } else {
                None
            }
        },
        FishType::Trout => {
            if level >= 15 && has_rod && bait && roll < 30 {
                Some(Item::raw_trout())
            } else {
                None
            }
        },
    }
}

impl FishingSpot {
    pub open spec fn spec_lifetime(&self) -> int {
        self.lifetime as int
    }

    pub fn new(x: i32, y: i32, fish_type: FishType) -> (r: Self)
        ensures
            r.x == x && r.y == y && r.fish_type == fish_type,
            r.spec_lifetime() == FISHING_SPOT_LIFETIME_MS,
    {
        FishingSpot { x, y, lifetime: FISHING_SPOT_LIFETIME_MS, fish_type }
    }

    pub fn is_near(&self, x: i32, y: i32) -> (r: bool)
        ensures
            r == within_range(self.x as int, self.y as int, x as int, y as int),
    {
        in_range(self.x, self.y, x, y)
    }

    /// Lets `dt` milliseconds pass; `true` while the spot still lasts.
    pub fn update(&mut self, dt: u32) -> (r: bool)
        ensures
            *final(self) == spot_after(*old(self), dt as int),
            final(self).x == old(self).x && final(self).y == old(self).y,
            final(self).fish_type == old(self).fish_type,
            r == tick(old(self).spec_lifetime(), dt as int) is Some,
            final(self).spec_lifetime() == match tick(old(self).spec_lifetime(), dt as int) {
                Some(rest) => rest,
                None => 0,
            },
    {
        if self.lifetime <= dt as i64 {
            self.lifetime = 0;
            false
        } else {
            self.lifetime = self.lifetime - dt as i64;
            true
        }
    }

    /// One fishing attempt with a random catch roll: nothing ever comes of it unless the
    /// player can fish here (for trout: level 15, a rod and bait).
    pub fn try_fish(&self, skills: &Skills, rod: Option<&Item>, bait: bool) -> (r: Option<Item>)
        ensures
            !can_fish(self.fish_type, skills.fishing.spec_level(), rod is Some, bait) ==> r is None,
            r matches Some(it) ==> (match self.fish_type {
                FishType::Shrimp => it.name@ == "Raw Shrimp"@,
                FishType::Trout => it.name@ == "Raw Trout"@,
            }) && it.quantity == 1 && !it.stackable,
    {
        let roll = random_in(0, 99);
        fish_with_roll(self.fish_type, skills.fishing.get_level(), rod.is_some(), bait, roll)
    }
}

} // verus!
