use vstd::prelude::*;

use crate::bank::{Bank, BANK_CAPACITY};
use crate::combat::Combat;
use crate::entity::{approach, step_toward, Entity};
use crate::equipment::Equipment;
use crate::inventory::{
    slots_after_add, DroppedItem, Inventory, Item, ItemType, ResourceType, ToolType, INVENTORY_CAPACITY,
};
use crate::random::random_in;
use crate::skills::Skills;
use crate::world::{fires_after, in_range, spots_after, tree_tick, within_range, Fire, FishType, FishingSpot, Tree};
use crate::ui::ContextMenuAction;
use crate::world_objects::WorldObject;

verus! {

/// Milliseconds between two rounds of combat.
pub const COMBAT_ROUND_MS: i64 = 2400;

/// Milliseconds between two fishing attempts.
pub const FISHING_ROUND_MS: i64 = 3000;

/// Milliseconds a chop takes before the level and axe shorten it.
pub const CHOP_BASE_MS: i64 = 3000;

/// The shortest a chop can take, in milliseconds.
pub const CHOP_MIN_MS: i64 = 1200;

/// Milliseconds a chop is shortened by per woodcutting level.
pub const CHOP_LEVEL_MS: i64 = 30;

/// Milliseconds a chop is shortened by per level of the axe.
pub const CHOP_AXE_MS: i64 = 50;

/// How fast the player walks, in world units per second.
pub const PLAYER_SPEED: i64 = 240;

/// The side of the square the player occupies, in world units.
pub const PLAYER_SIZE: i32 = 32;

/// The player is kept within these bounds on both axes.
pub const WORLD_MIN: i32 = -512;
pub const WORLD_MAX: i32 = 2048;

/// Milliseconds between two new fishing spots.
pub const FISHING_SPOT_INTERVAL_MS: i64 = 10000;

/// Experience for each kind of success.
pub const WOODCUTTING_XP: u32 = 25;
pub const FIREMAKING_XP: u32 = 40;
pub const COOKING_XP: u32 = 30;
pub const SHRIMP_XP: u32 = 10;
pub const TROUT_XP: u32 = 50;
pub const HIT_XP: u32 = 4;
pub const KILL_XP: u32 = 10;

/// What the player set out to do when the walk in progress ends.
#[derive(Debug, Clone, Copy, PartialEq, Eq, Structural)]
pub enum PendingAction {
    ChopTree(usize),
    PickupItem(usize),
    Attack,
    Fish(i32, i32),
    Idle,
}

/// What the player is doing again and again, each time the action timer runs out.
#[derive(Debug, Clone, Copy, PartialEq, Eq, Structural)]
pub enum OngoingAction {
    ChoppingTree { x: i32, y: i32, tree_index: usize },
    Fighting { target_index: usize },
    Fishing { x: i32, y: i32, spot_index: usize },
    Idle,
}

/// Which mouse button clicked an inventory slot.
#[derive(Debug, Clone, Copy, PartialEq, Eq, Structural)]
pub enum ClickButton {
    Left,
    Right,
}

/// What happened, for the message log.
#[derive(Debug, Clone, Copy, PartialEq, Eq, Structural)]
pub enum GameEvent {
    NeedAxe,
    SwingAxe,
    GotLog,
    TreeFalls,
    TreeAlreadyChopped,
    NeedWoodcuttingLevel(u32),
    InventoryFull,
    CaughtShrimp,
    CaughtTrout,
    CatchFailed,
    PlayerHit(u8),
    PlayerMissed,
    TargetDied,
    TargetHit(u8),
    TargetMissed,
    BeginChopping,
    PickedUp,
    LitFire,
    NeedFiremakingLevel(u32),
    Cooked,
    Burnt,
    NeedCookingLevel(u32),
    NeedFire,
    Equipped,
    Ate,
}

/// How one fishing attempt went.
#[derive(Debug, Clone, Copy, PartialEq, Eq, Structural)]
pub enum FishOutcome {
    /// The spot is out of reach: the player walks back to it.
    OutOfRange,
    /// Nothing bit, or the player cannot fish here.
    Failed,
    /// A fish was caught and put in the inventory.
    Caught,
    /// A fish was caught but the inventory had no room for it.
    InventoryFull,
}

/// How one chop went.
#[derive(Debug, Clone, Copy, PartialEq, Eq, Structural)]
pub enum ChopOutcome {
    /// The tree is out of reach: the player walks back to it.
    OutOfRange,
    /// No axe in the inventory.
    NoAxe,
    /// No room for the log.
    InventoryFull,
    /// The tree is down already, or cannot be chopped.
    AlreadyChopped,
    /// The axe asks for a higher woodcutting level.
    LevelTooLow(u32),
    /// A log was cut; `fell` tells whether the tree came down with it.
    Chopped { fell: bool },
}

/// The time a chop takes, in milliseconds, at a woodcutting level and with an axe of a
/// level: three seconds, less 30 ms a level and 50 ms an axe level, but never under
/// 1.2 seconds.
pub open spec fn chop_time(level: int, axe_level: int) -> int {
    let t = CHOP_BASE_MS - CHOP_LEVEL_MS * level - CHOP_AXE_MS * axe_level;
    if t < CHOP_MIN_MS {
        CHOP_MIN_MS as int
    } else {
        t
    }
}

pub fn chop_time_ms(level: u8, axe_level: u32) -> (r: i64)
    ensures
        r == chop_time(level as int, axe_level as int),
{
    let t: i64 = CHOP_BASE_MS - CHOP_LEVEL_MS * level as i64 - CHOP_AXE_MS * axe_level as i64;
    if t < CHOP_MIN_MS {
        CHOP_MIN_MS
    } else {
        t
    }
}

/// The tools and supplies that actions look for in the inventory.
#[derive(Debug, Clone, Copy, PartialEq, Eq, Structural)]
pub enum Supply {
    Axe,
    Rod,
    Bait,
}

/// Whether an item of kind `t` is a `supply`.
pub open spec fn is_supply(supply: Supply, t: ItemType) -> bool {
    match supply {
        Supply::Axe => t matches ItemType::Tool(ToolType::Axe { .. }),
        Supply::Rod => t matches ItemType::Tool(ToolType::FishingRod { .. }),
        Supply::Bait => t matches ItemType::Resource(ResourceType::Bait),
    }
}

/// Whether some slot holds a `supply`.
pub open spec fn holds_supply(s: Seq<Option<Item>>, supply: Supply) -> bool {
    exists|i: int| 0 <= i < s.len() && ((#[trigger] s[i]) matches Some(it) && is_supply(supply, it.item_type))
}

/// The first slot holding a `supply`.
fn find_supply(items: &Vec<Option<Item>>, supply: Supply) -> (r: Option<usize>)
    ensures
        first_supply(items@, supply, 0) == match r {
            Some(i) => i as int,
            None => -1,
        },
        match r {
            Some(i) => i < items@.len() && (items@[i as int] matches Some(it) && is_supply(supply, it.item_type)),
            None => !holds_supply(items@, supply),
        },
{
    let mut i: usize = 0;
    while i < items.len()
        invariant
            i <= items@.len(),
            forall|j: int| 0 <= j < i ==> !((#[trigger] items@[j]) matches Some(it) && is_supply(supply, it.item_type)),
            first_supply(items@, supply, 0) == first_supply(items@, supply, i as int),
        decreases items@.len() - i,
    {
        if let Some(it) = &items[i] {
            let found = match it.item_type {
                ItemType::Tool(ToolType::Axe { .. }) => supply == Supply::Axe,
                ItemType::Tool(ToolType::FishingRod { .. }) => supply == Supply::Rod,
                ItemType::Resource(ResourceType::Bait) => supply == Supply::Bait,
                _ => false,
            };
            if found {
                return Some(i);
            }
        }
        i = i + 1;
    }
    None
}

/// Experience after gaining `amount`: the sum, unless it would no longer fit.
pub open spec fn gained(exp: int, amount: int) -> int {
    if exp + amount <= u32::MAX {
        exp + amount
    } else {
        exp
    }
}

/// The first slot at or after `from` holding a `supply`, or -1.
pub open spec fn first_supply(s: Seq<Option<Item>>, supply: Supply, from: int) -> int
    decreases s.len() - from,
{
    if from < 0 || from >= s.len() {
        -1
    } else if s[from] matches Some(it) && is_supply(supply, it.item_type) {
        from
    } else {
        first_supply(s, supply, from + 1)
    }
}

/// The level asked by the first axe in the inventory (0 when there is none).
pub open spec fn axe_level(s: Seq<Option<Item>>) -> int {
    let i = first_supply(s, Supply::Axe, 0);
    if 0 <= i < s.len() {
        match s[i]->0.item_type {
            ItemType::Tool(ToolType::Axe { woodcutting_level }) => woodcutting_level as int,
            _ => 0,
        }
    } else {
        0
    }
}

/// Whether `it` is a single log, as `Item::logs` makes it.
pub open spec fn is_logs(it: Item) -> bool {
    &&& it.name@ == "Logs"@
    &&& it.item_type == ItemType::Resource(ResourceType::Logs { firemaking_level: 1 })
    &&& !it.stackable
    &&& it.quantity == 1
}

/// The skills of `old` with the woodcutting skill of `new`, and `new`'s woodcutting
/// experience up by `amount` (as far as it fits).
pub open spec fn woodcutting_gained(old: Skills, new: Skills, amount: int) -> bool {
    &&& new == Skills { woodcutting: new.woodcutting, ..old }
    &&& new.woodcutting.spec_experience() == gained(old.woodcutting.spec_experience(), amount)
}

/// The skills of `old` with the fishing skill of `new`, and `new`'s fishing experience
/// up by `amount` (as far as it fits).
pub open spec fn fishing_gained(old: Skills, new: Skills, amount: int) -> bool {
    &&& new == Skills { fishing: new.fishing, ..old }
    &&& new.fishing.spec_experience() == gained(old.fishing.spec_experience(), amount)
}

/// What one chop at tree `k` did, going from `old` to `new`, when it came out as `r`.
/// Each failure names the requirement that failed, in the order they are checked: the
/// player in reach, an axe, a standing tree, the axe's level, room for the log. When
/// all hold the chop succeeds: the log goes in, the tree loses one health and falls
/// with its last, and woodcutting experience rises. The action state is not touched.
pub open spec fn chop_post(old: GameState, new: GameState, k: int, r: ChopOutcome) -> bool {
    let tree = old.trees@[k];
    let inv = old.inventory@;
    let level = old.skills.woodcutting.spec_level();
    let in_reach = within_range(tree.x as int, tree.y as int, old.player_x as int, old.player_y as int);
    match r {
        ChopOutcome::OutOfRange => {
            &&& !in_reach
            &&& new.same_world(&old)
            &&& new.target == Some((tree.x, tree.y))
            &&& new.pending_action == PendingAction::ChopTree(k as usize)
        },
        ChopOutcome::NoAxe => in_reach && !holds_supply(inv, Supply::Axe) && new.same_world(&old) && new.same_course(&old),
        ChopOutcome::AlreadyChopped => {
            &&& in_reach && holds_supply(inv, Supply::Axe)
            &&& (tree.spec_chopped() || tree.is_wall())
            &&& new.same_world(&old) && new.same_course(&old)
        },
        ChopOutcome::LevelTooLow(l) => {
            &&& in_reach && holds_supply(inv, Supply::Axe) && !tree.spec_chopped() && !tree.is_wall()
            &&& l == axe_level(inv) && level < l
            &&& new.same_world(&old) && new.same_course(&old)
        },
        ChopOutcome::InventoryFull => {
            &&& in_reach && holds_supply(inv, Supply::Axe) && !tree.spec_chopped() && !tree.is_wall()
            &&& level >= axe_level(inv)
            &&& exists|logs: Item| is_logs(logs) && #[trigger] slots_after_add(inv, logs, false) is None
            &&& new.same_world(&old) && new.same_course(&old)
        },
        ChopOutcome::Chopped { fell } => {
            let after = new.trees@[k];
            &&& in_reach && holds_supply(inv, Supply::Axe) && !tree.spec_chopped() && !tree.is_wall()
            &&& level >= axe_level(inv)
            &&& exists|logs: Item| is_logs(logs) && #[trigger] slots_after_add(inv, logs, false) == Some(new.inventory@)
            &&& new.trees@.len() == old.trees@.len()
            &&& new.trees@ == old.trees@.update(k, after)
            &&& after.x == tree.x && after.y == tree.y && after.tree_type == tree.tree_type
            &&& after.health == tree.health - 1
            &&& fell == (after.health == 0)
            &&& fell ==> after.fallen && after.respawn_timer == Some(crate::world::TREE_RESPAWN_MS)
            &&& !fell ==> after.fallen == tree.fallen && after.respawn_timer == tree.respawn_timer
            &&& woodcutting_gained(old.skills, new.skills, WOODCUTTING_XP as int)
            &&& new.inventory.spec_capacity() == old.inventory.spec_capacity()
            &&& new.entities == old.entities && new.dropped_items == old.dropped_items
            &&& new.player_combat == old.player_combat && new.bank == old.bank && new.equipment == old.equipment
            &&& new.fishing_spots == old.fishing_spots && new.fires == old.fires
            &&& new.world_objects == old.world_objects
            &&& new.fishing_spot_timer == old.fishing_spot_timer
            &&& new.player_x == old.player_x && new.player_y == old.player_y
            &&& new.same_course(&old)
        },
    }
}

/// Whether `it` is the raw fish that a spot of `kind` gives.
pub open spec fn is_catch(kind: FishType, it: Item) -> bool {
    &&& match kind {
        FishType::Shrimp => it.name@ == "Raw Shrimp"@,
        FishType::Trout => it.name@ == "Raw Trout"@,
    }
    &&& !it.stackable
    &&& it.quantity == 1
}

/// Fishing experience for a catch at a spot of `kind`.
pub open spec fn catch_xp(kind: FishType) -> int {
    match kind {
        FishType::Shrimp => SHRIMP_XP as int,
        FishType::Trout => TROUT_XP as int,
    }
}

/// The inventory `t` after a catch at a spot of `kind`: a trout uses up one bait.
pub open spec fn after_bait(t: Seq<Option<Item>>, kind: FishType) -> Seq<Option<Item>> {
    let b = first_supply(t, Supply::Bait, 0);
    if kind == FishType::Trout && b >= 0 {
        crate::inventory::slots_after_remove_one(t, b, false).0
    } else {
        t
    }
}

/// Whether `c` is a catch that spot `k` of `old` can give: nothing at all unless the
/// player can fish there.
pub open spec fn catch_possible(old: GameState, k: int, c: Option<Item>) -> bool {
    let kind = old.fishing_spots@[k].fish_type;
    c matches Some(f) ==> crate::world::can_fish(
        kind,
        old.skills.fishing.spec_level(),
        holds_supply(old.inventory@, Supply::Rod),
        holds_supply(old.inventory@, Supply::Bait),
    ) && is_catch(kind, f)
}

/// Settling the catch `c` at a spot of `kind`, going from `old` to `new` with outcome
/// `r`. Only the inventory and the fishing skill may change.
pub open spec fn catch_post(old: GameState, new: GameState, kind: FishType, c: Option<Item>, r: FishOutcome) -> bool {
    &&& new.entities == old.entities && new.trees == old.trees && new.dropped_items == old.dropped_items
    &&& new.player_combat == old.player_combat && new.bank == old.bank && new.equipment == old.equipment
    &&& new.fishing_spots == old.fishing_spots && new.fires == old.fires && new.world_objects == old.world_objects
    &&& new.fishing_spot_timer == old.fishing_spot_timer
    &&& new.player_x == old.player_x && new.player_y == old.player_y
    &&& new.same_course(&old)
    &&& new.inventory.spec_capacity() == old.inventory.spec_capacity()
    &&& match c {
        None => r == FishOutcome::Failed && new.inventory@ == old.inventory@ && new.skills == old.skills,
        Some(f) => match slots_after_add(old.inventory@, f, false) {
            None => r == FishOutcome::InventoryFull && new.inventory@ == old.inventory@ && new.skills == old.skills,
            Some(t) => {
                &&& r == FishOutcome::Caught
                &&& new.inventory@ == after_bait(t, kind)
                &&& fishing_gained(old.skills, new.skills, catch_xp(kind))
            },
        },
    }
}

/// One fishing attempt at spot `k` from `(x, y)`, going from `old` to `new` with
/// outcome `r`.
pub open spec fn fish_post(old: GameState, new: GameState, x: i32, y: i32, k: int, r: FishOutcome) -> bool {
    if r == FishOutcome::OutOfRange {
        &&& !within_range(x as int, y as int, old.player_x as int, old.player_y as int)
        &&& new.same_world(&old)
        &&& new.target == Some((x, y))
        &&& new.pending_action == PendingAction::Fish(x, y)
    } else {
        &&& within_range(x as int, y as int, old.player_x as int, old.player_y as int)
        &&& exists|c: Option<Item>| catch_possible(old, k, c) && #[trigger] catch_post(old, new, old.fishing_spots@[k].fish_type, c, r)
    }
}

/// Drops laid on the ground at `(x, y)`, in order; an item with no units is left out.
pub open spec fn laid(drops: Seq<Item>, x: i32, y: i32) -> Seq<DroppedItem>
    decreases drops.len(),
{
    if drops.len() == 0 {
        Seq::empty()
    } else {
        let last = drops.last();
        let before = laid(drops.drop_last(), x, y);
        if last.quantity >= 1 {
            before.push(DroppedItem { item: last, x, y, pickup_delay: crate::inventory::PICKUP_DELAY_MS })
        } else {
            before
        }
    }
}

/// Whether creature `e` can be attacked by a player at `(px, py)`: alive and in reach.
pub open spec fn attackable(e: Entity, px: int, py: int) -> bool {
    &&& within_range(e.x as int, e.y as int, px, py)
    &&& e.entity_type.spec_combat().health > 0
    &&& e.respawn_timer is None
}

/// The first creature at or after `from` that a player at `(px, py)` can attack, or -1.
pub open spec fn first_attackable_index(es: Seq<Entity>, px: int, py: int, from: int) -> int
    decreases es.len() - from,
{
    if from < 0 || from >= es.len() {
        -1
    } else if attackable(es[from], px, py) {
        from
    } else {
        first_attackable_index(es, px, py, from + 1)
    }
}

/// The weapon's strength bonus, as the player's attack uses it: held so that the
/// effective strength stays within 0 and 2549.
pub open spec fn strength_bonus_used(old: GameState) -> int {
    let level = old.skills.strength.spec_level();
    let raw = match old.equipment.spec_weapon() {
        Some(w) => match w.item_type {
            ItemType::Weapon(ws) => ws.strength_bonus as int,
            _ => 0,
        },
        None => 0,
    };
    crate::combat::clamp(raw, -level, 2549 - level)
}

/// One round of combat against creature `i`, going from `old` to `new`, given the
/// player's hit, the creature's reply and the drops of a kill.
pub open spec fn round_post(old: GameState, new: GameState, i: int, hit: Option<u8>, reply: Option<u8>, drops: Seq<Item>) -> bool {
    let e = old.entities@[i];
    let c = e.entity_type.spec_combat();
    let a0 = old.skills.attack.spec_experience();
    let s0 = old.skills.strength.spec_experience();
    let d0 = old.skills.defense.spec_experience();
    &&& new.inventory == old.inventory && new.trees == old.trees && new.fishing_spots == old.fishing_spots
    &&& new.bank == old.bank && new.equipment == old.equipment && new.fires == old.fires
    &&& new.world_objects == old.world_objects
    &&& new.fishing_spot_timer == old.fishing_spot_timer
    &&& new.player_x == old.player_x && new.player_y == old.player_y
    &&& new.same_course(&old)
    &&& new.entities@.len() == old.entities@.len()
    &&& forall|j: int| 0 <= j < old.entities@.len() && j != i ==> #[trigger] new.entities@[j] == old.entities@[j]
    &&& match hit {
        None => {
            &&& new.entities == old.entities && new.player_combat == old.player_combat
            &&& new.skills == old.skills && new.dropped_items == old.dropped_items
        },
        Some(d) => {
            let ne = new.entities@[i];
            let h = crate::combat::clamp(c.health - d, 0, c.max_health as int);
            &&& ne.x == e.x && ne.y == e.y && ne.respawn_timer == e.respawn_timer
            &&& (ne.entity_type is Goblin <==> e.entity_type is Goblin)
            &&& ne.entity_type.spec_combat().health == h
            &&& ne.entity_type.spec_combat().max_health == c.max_health
            &&& new.skills == Skills {
                attack: new.skills.attack,
                strength: new.skills.strength,
                defense: new.skills.defense,
                ..old.skills
            }
            &&& if h <= 0 {
                &&& new.dropped_items@ == old.dropped_items@ + laid(drops, e.x, e.y)
                &&& new.player_combat == old.player_combat
                &&& new.skills.attack.spec_experience() == gained(gained(a0, HIT_XP as int), KILL_XP as int)
                &&& new.skills.strength.spec_experience() == gained(s0, KILL_XP as int)
                &&& new.skills.defense.spec_experience() == gained(d0, KILL_XP as int)
            } else {
                &&& new.dropped_items == old.dropped_items
                &&& new.skills.attack.spec_experience() == gained(a0, HIT_XP as int)
                &&& new.skills.strength == old.skills.strength
                &&& match reply {
                    Some(rd) => {
                        &&& new.player_combat.max_health == old.player_combat.max_health
                        &&& new.player_combat.health == crate::combat::clamp(
                            old.player_combat.health - rd,
                            0,
                            old.player_combat.max_health as int,
                        )
                        &&& new.skills.defense.spec_experience() == gained(d0, HIT_XP as int)
                    },
                    None => new.player_combat == old.player_combat && new.skills.defense == old.skills.defense,
                }
            }
        },
    }
}

/// One round of combat by the player, going from `old` to `new`: nothing changes with
/// no creature in reach; else it is a round against the first creature in reach, in
/// which a hit deals between one and the player's maximum hit.
pub open spec fn attack_post(old: GameState, new: GameState) -> bool {
    let i = first_attackable_index(old.entities@, old.player_x as int, old.player_y as int, 0);
    if i < 0 {
        new.same_world(&old) && new.same_course(&old)
    } else {
        exists|hit: Option<u8>, reply: Option<u8>, drops: Seq<Item>|
            #[trigger] round_post(old, new, i, hit, reply, drops) && (hit matches Some(d) ==> 1 <= d
                <= crate::combat::max_hit(old.skills.strength.spec_level(), strength_bonus_used(old)))
    }
}

/// Whether a player standing at `(x, y)` runs into one of `objs` that blocks.
pub open spec fn blocked(objs: Seq<WorldObject>, x: int, y: int) -> bool {
    exists|i: int|
        0 <= i < objs.len() && crate::world_objects::boxes_overlap(
            (#[trigger] objs[i]).x as int,
            objs[i].y as int,
            objs[i].width as int,
            objs[i].height as int,
            x,
            y,
            PLAYER_SIZE as int,
            PLAYER_SIZE as int,
        ) && objs[i].blocks_movement
}

/// The first fishing spot at or after `from` within reach of `(x, y)`, or -1.
pub open spec fn first_spot_near(spots: Seq<FishingSpot>, x: int, y: int, from: int) -> int
    decreases spots.len() - from,
{
    if from < 0 || from >= spots.len() {
        -1
    } else if within_range(spots[from].x as int, spots[from].y as int, x, y) {
        from
    } else {
        first_spot_near(spots, x, y, from + 1)
    }
}

/// `dt` milliseconds of walking, going from `old` to `new`. With no target nothing
/// changes. Out of reach of the target, the player steps toward it by up to
/// `PLAYER_SPEED * dt / 1000` on each axis, within the world's bounds: first along x,
/// unless something blocks there, then along y, unless something blocks there. In
/// reach, the walk ends and what the player came for starts: picking up the item
/// (when there is room), chopping the tree (when it stands), fighting the first
/// creature in reach, fishing the first spot in reach.
pub open spec fn movement_post(old: GameState, new: GameState, dt: int) -> bool {
    match old.target {
        None => {
            &&& new.same_world(&old) && new.same_course(&old)
            &&& new.ongoing_action == old.ongoing_action && new.action_timer == old.action_timer
        },
        Some((tx, ty)) => if !within_range(tx as int, ty as int, old.player_x as int, old.player_y as int) {
            let step = PLAYER_SPEED * dt / 1000;
            let nx = clamp_world(approach(old.player_x as int, tx as int, step));
            let ny = clamp_world(approach(old.player_y as int, ty as int, step));
            &&& new.player_x == if blocked(old.world_objects@, nx, old.player_y as int) {
                old.player_x as int
            } else {
                nx
            }
            &&& new.player_y == if blocked(old.world_objects@, new.player_x as int, ny) {
                old.player_y as int
            } else {
                ny
            }
            &&& new.inventory == old.inventory && new.skills == old.skills && new.trees == old.trees
            &&& new.entities == old.entities && new.dropped_items == old.dropped_items
            &&& new.player_combat == old.player_combat && new.bank == old.bank && new.equipment == old.equipment
            &&& new.fishing_spots == old.fishing_spots && new.fires == old.fires
            &&& new.world_objects == old.world_objects
            &&& new.fishing_spot_timer == old.fishing_spot_timer
            &&& new.same_course(&old)
            &&& new.ongoing_action == old.ongoing_action && new.action_timer == old.action_timer
        } else {
            &&& new.target is None
            &&& new.pending_action == PendingAction::Idle
            &&& new.player_x == old.player_x && new.player_y == old.player_y
            &&& new.skills == old.skills && new.trees == old.trees && new.entities == old.entities
            &&& new.player_combat == old.player_combat && new.bank == old.bank && new.equipment == old.equipment
            &&& new.fishing_spots == old.fishing_spots && new.fires == old.fires
            &&& new.world_objects == old.world_objects
            &&& new.fishing_spot_timer == old.fishing_spot_timer
            &&& new.inventory.spec_capacity() == old.inventory.spec_capacity()
            &&& match old.pending_action {
                PendingAction::PickupItem(i) => {
                    &&& new.ongoing_action == old.ongoing_action && new.action_timer == old.action_timer
                    &&& if i < old.dropped_items@.len() && slots_after_add(
                        old.inventory@,
                        old.dropped_items@[i as int].item,
                        false,
                    ) is Some {
                        &&& new.inventory@ == slots_after_add(old.inventory@, old.dropped_items@[i as int].item, false)->0
                        &&& new.dropped_items@ == old.dropped_items@.remove(i as int)
                    } else {
                        new.inventory@ == old.inventory@ && new.dropped_items == old.dropped_items
                    }
                },
                _ => {
                    &&& new.inventory == old.inventory && new.dropped_items == old.dropped_items
                    &&& match old.pending_action {
                        PendingAction::ChopTree(i) => if i < old.trees@.len() && !old.trees@[i as int].fallen {
                            &&& new.ongoing_action == OngoingAction::ChoppingTree {
                                x: old.trees@[i as int].x,
                                y: old.trees@[i as int].y,
                                tree_index: i,
                            }
                            &&& new.action_timer == 0
                        } else {
                            new.ongoing_action == old.ongoing_action && new.action_timer == old.action_timer
                        },
                        PendingAction::Attack => {
                            let j = first_attackable_index(old.entities@, old.player_x as int, old.player_y as int, 0);
                            if j >= 0 {
                                new.ongoing_action == OngoingAction::Fighting { target_index: j as usize }
                                    && new.action_timer == 0
                            } else {
                                new.ongoing_action == old.ongoing_action && new.action_timer == old.action_timer
                            }
                        },
                        PendingAction::Fish(x, y) => {
                            let j = first_spot_near(old.fishing_spots@, x as int, y as int, 0);
                            if j >= 0 {
                                new.ongoing_action == OngoingAction::Fishing { x, y, spot_index: j as usize }
                                    && new.action_timer == 0
                            } else {
                                new.ongoing_action == old.ongoing_action && new.action_timer == old.action_timer
                            }
                        },
                        _ => new.ongoing_action == old.ongoing_action && new.action_timer == old.action_timer,
                    }
                },
            }
        },
    }
}

/// Dropping one unit of inventory slot `slot` at the player's feet, going from `old`
/// to `new`.
pub open spec fn drop_post(old: GameState, new: GameState, slot: int) -> bool {
    let (t, x) = crate::inventory::slots_after_remove_one(old.inventory@, slot, false);
    &&& new.inventory@ == t
    &&& new.inventory.spec_capacity() == old.inventory.spec_capacity()
    &&& new.dropped_items@ == match x {
        Some(it) => old.dropped_items@.push(
            DroppedItem { item: it, x: old.player_x, y: old.player_y, pickup_delay: crate::inventory::PICKUP_DELAY_MS },
        ),
        None => old.dropped_items@,
    }
    &&& new.skills == old.skills && new.trees == old.trees && new.entities == old.entities
    &&& new.player_combat == old.player_combat && new.bank == old.bank && new.equipment == old.equipment
    &&& new.fishing_spots == old.fishing_spots && new.fires == old.fires && new.world_objects == old.world_objects
    &&& new.fishing_spot_timer == old.fishing_spot_timer
    &&& new.player_x == old.player_x && new.player_y == old.player_y
    &&& new.same_course(&old)
}

/// Whether a fire burns within reach of `(x, y)`.
pub open spec fn fire_near(fires: Seq<Fire>, x: int, y: int) -> bool {
    exists|j: int| 0 <= j < fires.len() && within_range((#[trigger] fires[j]).x as int, fires[j].y as int, x, y)
}

/// The slot of the logs when a tinderbox and logs are used on each other, with the
/// firemaking level the logs ask.
pub open spec fn fire_pair(first: ItemType, second: ItemType, selected: int, slot: int) -> Option<(int, int)> {
    match (first, second) {
        (ItemType::Tool(ToolType::Tinderbox), ItemType::Resource(ResourceType::Logs { firemaking_level })) => Some(
            (slot, firemaking_level as int),
        ),
        (ItemType::Resource(ResourceType::Logs { firemaking_level }), ItemType::Tool(ToolType::Tinderbox)) => Some(
            (selected, firemaking_level as int),
        ),
        _ => None,
    }
}

/// The cooking level raw food asks, or `None` for anything else.
pub open spec fn cook_need(t: ItemType) -> Option<int> {
    match t {
        ItemType::Resource(ResourceType::RawFish { cooking_level, .. }) => Some(cooking_level as int),
        ItemType::Resource(ResourceType::RawBeef { cooking_level, .. }) => Some(cooking_level as int),
        _ => None,
    }
}

/// Whether `t` is burnt food.
pub open spec fn is_burnt(t: ItemType) -> bool {
    t == ItemType::Resource(ResourceType::BurntFish) || t == ItemType::Resource(ResourceType::BurntBeef)
}

/// The slots `t` with `it` added, or as they were when there is no room.
pub open spec fn added_or_kept(t: Seq<Option<Item>>, it: Item) -> Seq<Option<Item>> {
    match slots_after_add(t, it, false) {
        Some(u) => u,
        None => t,
    }
}

/// Everything but the inventory, the skills and the fires is as in `old`.
pub open spec fn only_items_changed(old: GameState, new: GameState) -> bool {
    &&& new.trees == old.trees && new.entities == old.entities && new.dropped_items == old.dropped_items
    &&& new.player_combat == old.player_combat && new.bank == old.bank && new.equipment == old.equipment
    &&& new.fishing_spots == old.fishing_spots && new.world_objects == old.world_objects
    &&& new.fishing_spot_timer == old.fishing_spot_timer
    &&& new.player_x == old.player_x && new.player_y == old.player_y
    &&& new.same_course(&old)
    &&& new.inventory.spec_capacity() == old.inventory.spec_capacity()
}

/// Using the item in slot `selected` on the one in slot `slot`, going from `old` to
/// `new`. A tinderbox and logs, with the firemaking level the logs ask, burn the logs
/// (one unit) into a fire at the player's feet for 40 firemaking experience. Raw food,
/// near a fire and with the cooking level it asks, is replaced by what cooking it gives
/// for some roll, kept when there is room; food that did not burn gives 30 cooking
/// experience. Anything else changes nothing.
pub open spec fn use_post(old: GameState, new: GameState, selected: int, slot: int) -> bool {
    let inv = old.inventory@;
    &&& only_items_changed(old, new)
    &&& if !(0 <= selected < inv.len() && inv[selected] is Some && 0 <= slot < inv.len() && inv[slot] is Some) {
        new.inventory@ == inv && new.skills == old.skills && new.fires == old.fires
    } else {
        let first = inv[selected]->0.item_type;
        let second = inv[slot]->0.item_type;
        match fire_pair(first, second, selected, slot) {
            Some((logs_slot, need)) => if old.skills.firemaking.spec_level() >= need {
                &&& new.inventory@ == crate::inventory::slots_after_remove_one(inv, logs_slot, false).0
                &&& new.fires@ == old.fires@.push(
                    Fire { x: old.player_x, y: old.player_y, lifetime: crate::world::FIRE_LIFETIME_MS },
                )
                &&& new.skills == Skills { firemaking: new.skills.firemaking, ..old.skills }
                &&& new.skills.firemaking.spec_experience() == gained(
                    old.skills.firemaking.spec_experience(),
                    FIREMAKING_XP as int,
                )
            } else {
                new.inventory@ == inv && new.skills == old.skills && new.fires == old.fires
            },
            None => {
                &&& new.fires == old.fires
                &&& match cook_need(second) {
                    Some(need) => if fire_near(old.fires@, old.player_x as int, old.player_y as int)
                        && old.skills.cooking.spec_level() >= need {
                        exists|ck: Item, roll: int|
                            #![trigger crate::world::cook_result(second, old.skills.cooking.spec_level(), roll), ck.item_type]
                            0 <= roll < 100 && crate::world::cook_result(
                                second,
                                old.skills.cooking.spec_level(),
                                roll,
                            ) == Some((ck.name@, ck.item_type)) && !ck.stackable && ck.quantity == 1 && ({
                                let t = crate::inventory::slots_after_remove_one(inv, slot, false).0;
                                &&& new.inventory@ == added_or_kept(t, ck)
                                &&& new.skills == Skills { cooking: new.skills.cooking, ..old.skills }
                                &&& new.skills.cooking.spec_experience() == if slots_after_add(t, ck, false) is Some
                                    && !is_burnt(ck.item_type) {
                                    gained(old.skills.cooking.spec_experience(), COOKING_XP as int)
                                } else {
                                    old.skills.cooking.spec_experience()
                                }
                            })
                    } else {
                        new.inventory@ == inv && new.skills == old.skills
                    },
                    None => new.inventory@ == inv && new.skills == old.skills,
                }
            },
        }
    }
}

/// The inventory `t` with `back`, an item taken off, put back into it when there is
/// room.
pub open spec fn put_back(t: Seq<Option<Item>>, back: Option<Item>) -> Seq<Option<Item>> {
    match back {
        Some(b) => if b.quantity >= 1 {
            added_or_kept(t, b)
        } else {
            t
        },
        None => t,
    }
}

/// A click with `button` on inventory slot `slot`, going from `old` to `new`.
pub open spec fn click_post(old: GameState, new: GameState, slot: int, button: ClickButton) -> bool {
    let inv = old.inventory@;
    if !(0 <= slot < inv.len() && inv[slot] is Some) {
        new.same_world(&old) && new.same_course(&old) && new.selected_item == old.selected_item
    } else {
        let it = inv[slot]->0;
        match button {
            ClickButton::Right => drop_post(old, new, slot) && new.selected_item == old.selected_item,
            ClickButton::Left => match old.selected_item {
                Some(sel) => use_post(old, new, sel as int, slot) && new.selected_item is None,
                None => {
                    &&& new.selected_item == match it.item_type {
                        ItemType::Weapon(_) | ItemType::Armor(_) | ItemType::Food(_) => old.selected_item,
                        _ => Some(slot as usize),
                    }
                    &&& new.skills == old.skills && new.trees == old.trees && new.entities == old.entities
                    &&& new.dropped_items == old.dropped_items && new.bank == old.bank
                    &&& new.fishing_spots == old.fishing_spots && new.fires == old.fires
                    &&& new.world_objects == old.world_objects
                    &&& new.fishing_spot_timer == old.fishing_spot_timer
                    &&& new.player_x == old.player_x && new.player_y == old.player_y
                    &&& new.same_course(&old)
                    &&& new.inventory.spec_capacity() == old.inventory.spec_capacity()
                    &&& match it.item_type {
                        ItemType::Weapon(_) => {
                            let (t, x) = crate::inventory::slots_after_remove_one(inv, slot, false);
                            &&& new.equipment.spec_weapon() == x
                            &&& new.equipment.armor_same_except(&old.equipment, None)
                            &&& new.inventory@ == put_back(t, old.equipment.spec_weapon())
                            &&& new.player_combat == old.player_combat
                        },
                        ItemType::Armor(a) => {
                            let (t, x) = crate::inventory::slots_after_remove_one(inv, slot, false);
                            &&& new.equipment.spec_armor(a.slot) == x
                            &&& new.equipment.spec_weapon() == old.equipment.spec_weapon()
                            &&& new.equipment.armor_same_except(&old.equipment, Some(a.slot))
                            &&& new.inventory@ == put_back(t, old.equipment.spec_armor(a.slot))
                            &&& new.player_combat == old.player_combat
                        },
                        ItemType::Food(h) => {
                            &&& new.inventory@ == inv.update(slot, None)
                            &&& new.player_combat.max_health == old.player_combat.max_health
                            &&& new.player_combat.health == crate::combat::clamp(
                                old.player_combat.health + h,
                                0,
                                old.player_combat.max_health as int,
                            )
                            &&& new.equipment == old.equipment
                        },
                        _ => new.inventory == old.inventory && new.equipment == old.equipment && new.player_combat
                            == old.player_combat,
                    }
                },
            },
        }
    }
}

/// Whether a tree object stands within reach of `(x, y)`.
pub open spec fn tree_object_near(objs: Seq<WorldObject>, x: int, y: int) -> bool {
    exists|j: int|
        0 <= j < objs.len() && within_range((#[trigger] objs[j]).x as int, objs[j].y as int, x, y)
            && objs[j].object_type == crate::world_objects::ObjectType::Tree
}

/// Withdrawing up to `amount` units from the selected bank slot, going from `old` to
/// `new`.
pub open spec fn withdrew(old: GameState, new: GameState, amount: u32) -> bool {
    &&& bank_moved(old, new)
    &&& match old.selected_bank_slot {
        Some(b) => exists|r: u32|
            #[trigger] crate::bank::withdraw_post(old.inventory@, old.bank@, new.inventory@, new.bank@, b as int, amount, r),
        None => new.inventory@ == old.inventory@ && new.bank@ == old.bank@,
    }
}

/// Depositing up to `amount` units from the selected inventory slot, going from `old`
/// to `new`.
pub open spec fn deposited(old: GameState, new: GameState, amount: u32) -> bool {
    &&& bank_moved(old, new)
    &&& match old.selected_inventory_slot {
        Some(i) => exists|r: u32|
            #[trigger] crate::bank::deposit_post(old.inventory@, old.bank@, new.inventory@, new.bank@, i as int, amount, r),
        None => new.inventory@ == old.inventory@ && new.bank@ == old.bank@,
    }
}

/// The first dropped item at or after `from` within reach of `(x, y)`, or -1.
pub open spec fn first_dropped_near(ds: Seq<DroppedItem>, x: int, y: int, from: int) -> int
    decreases ds.len() - from,
{
    if from < 0 || from >= ds.len() {
        -1
    } else if within_range(ds[from].x as int, ds[from].y as int, x, y) {
        from
    } else {
        first_dropped_near(ds, x, y, from + 1)
    }
}

/// Only the inventory and the bank changed, keeping their sizes.
pub open spec fn bank_moved(old: GameState, new: GameState) -> bool {
    &&& new.skills == old.skills && new.trees == old.trees && new.entities == old.entities
    &&& new.dropped_items == old.dropped_items && new.player_combat == old.player_combat
    &&& new.equipment == old.equipment && new.fishing_spots == old.fishing_spots && new.fires == old.fires
    &&& new.world_objects == old.world_objects
    &&& new.fishing_spot_timer == old.fishing_spot_timer
    &&& new.player_x == old.player_x && new.player_y == old.player_y
    &&& new.same_course(&old)
    &&& new.ongoing_action == old.ongoing_action && new.action_timer == old.action_timer
    &&& new.selected_bank_slot == old.selected_bank_slot
    &&& new.selected_inventory_slot == old.selected_inventory_slot
    &&& new.inventory.spec_capacity() == old.inventory.spec_capacity()
    &&& new.bank.spec_capacity() == old.bank.spec_capacity()
}

/// The world after `dt` milliseconds, before the player walks or acts, going from `old`
/// to `new`: trees regrow, fires burn down and the spent ones go out, dropped items
/// stay where they lie, creatures that are no longer alive are cleared away, and when
/// the spot timer runs out a new fishing spot opens in the pond; spots that run out
/// close.
pub open spec fn world_ticked(old: GameState, new: GameState, dt: int) -> bool {
    &&& new.trees@.len() == old.trees@.len()
    &&& forall|i: int| 0 <= i < old.trees@.len() ==> tree_tick(old.trees@[i], #[trigger] new.trees@[i], dt)
    &&& new.fires@ == fires_after(old.fires@, dt)
    &&& new.dropped_items@.len() == old.dropped_items@.len()
    &&& forall|i: int|
        0 <= i < old.dropped_items@.len() ==> (#[trigger] new.dropped_items@[i]).item == old.dropped_items@[i].item
            && new.dropped_items@[i].x == old.dropped_items@[i].x && new.dropped_items@[i].y == old.dropped_items@[i].y
    &&& forall|i: int|
        0 <= i < new.entities@.len() ==> (#[trigger] new.entities@[i]).entity_type.spec_combat().health > 0
            && new.entities@[i].respawn_timer is None
    &&& if old.fishing_spot_timer <= dt {
        &&& new.fishing_spot_timer == FISHING_SPOT_INTERVAL_MS
        &&& exists|sp: FishingSpot|
            100 <= sp.x <= 300 && 500 <= sp.y <= 700 && sp.lifetime == crate::world::FISHING_SPOT_LIFETIME_MS
                && new.fishing_spots@ == #[trigger] spots_after(old.fishing_spots@.push(sp), dt)
    } else {
        &&& new.fishing_spot_timer == old.fishing_spot_timer - dt
        &&& new.fishing_spots@ == spots_after(old.fishing_spots@, dt)
    }
    &&& new.inventory == old.inventory && new.skills == old.skills && new.player_combat == old.player_combat
    &&& new.bank == old.bank && new.equipment == old.equipment && new.world_objects == old.world_objects
    &&& new.player_x == old.player_x && new.player_y == old.player_y
    &&& new.same_course(&old)
    &&& new.ongoing_action == old.ongoing_action && new.action_timer == old.action_timer
}

/// The ongoing action ended: only the action state changed, to idle.
pub open spec fn stopped(old: GameState, new: GameState) -> bool {
    &&& new.same_world(&old) && new.same_course(&old)
    &&& new.ongoing_action == OngoingAction::Idle
    &&& new.action_timer == 0
}

/// `dt` milliseconds of the ongoing action, going from `old` to `new`. While the timer
/// runs only the timer moves. When it runs out the action takes one turn: a vanished
/// target ends it; a chop, a catch or a round of combat takes place as `chop_post`,
/// `fish_post` and `attack_post` say; a target out of reach sends the player walking
/// back and the action waits; a failed chop, a felled tree or a full inventory ends it;
/// otherwise the timer starts over at the action's pace.
pub open spec fn ongoing_post(old: GameState, new: GameState, dt: int) -> bool {
    if old.action_timer > dt {
        &&& new.same_world(&old) && new.same_course(&old)
        &&& new.ongoing_action == old.ongoing_action
        &&& new.action_timer == old.action_timer - dt
    } else {
        match old.ongoing_action {
            OngoingAction::Idle => stopped(old, new),
            OngoingAction::ChoppingTree { tree_index, .. } => if tree_index >= old.trees@.len() {
                stopped(old, new)
            } else {
                exists|r: ChopOutcome|
                    #[trigger] chop_post(old, new, tree_index as int, r) && match r {
                        ChopOutcome::OutOfRange => new.ongoing_action == old.ongoing_action && new.action_timer == 0,
                        ChopOutcome::Chopped { fell } => if fell {
                            new.ongoing_action == OngoingAction::Idle && new.action_timer == 0
                        } else {
                            &&& new.ongoing_action == old.ongoing_action
                            &&& new.action_timer == chop_time(
                                new.skills.woodcutting.spec_level(),
                                axe_level(old.inventory@),
                            )
                        },
                        _ => new.ongoing_action == OngoingAction::Idle && new.action_timer == 0,
                    }
            },
            OngoingAction::Fighting { target_index } => if target_index >= old.entities@.len()
                || old.entities@[target_index as int].entity_type.spec_combat().health <= 0
                || old.entities@[target_index as int].respawn_timer is Some {
                stopped(old, new)
            } else {
                let e = old.entities@[target_index as int];
                if !within_range(e.x as int, e.y as int, old.player_x as int, old.player_y as int) {
                    &&& new.same_world(&old)
                    &&& new.target == Some((e.x, e.y)) && new.pending_action == PendingAction::Attack
                    &&& new.ongoing_action == old.ongoing_action && new.action_timer == 0
                } else {
                    &&& attack_post(old, new)
                    &&& new.ongoing_action == old.ongoing_action
                    &&& new.action_timer == COMBAT_ROUND_MS
                }
            },
            OngoingAction::Fishing { x, y, spot_index } => if spot_index >= old.fishing_spots@.len() {
                stopped(old, new)
            } else {
                exists|r: FishOutcome|
                    #[trigger] fish_post(old, new, x, y, spot_index as int, r) && match r {
                        FishOutcome::OutOfRange => new.ongoing_action == old.ongoing_action && new.action_timer == 0,
                        FishOutcome::InventoryFull => new.ongoing_action == OngoingAction::Idle && new.action_timer == 0,
                        _ => new.ongoing_action == old.ongoing_action && new.action_timer == FISHING_ROUND_MS,
                    }
            },
        }
    }
}

/// Everything the game keeps about the player and the world around.
pub struct GameState {
    pub player_x: i32,
    pub player_y: i32,
    pub skills: Skills,
    pub player_combat: Combat,
    pub entities: Vec<Entity>,
    pub inventory: Inventory,
    pub equipment: Equipment,
    pub dropped_items: Vec<DroppedItem>,
    pub trees: Vec<Tree>,
    pub fires: Vec<Fire>,
    pub fishing_spots: Vec<FishingSpot>,
    pub fishing_spot_timer: i64,
    pub world_objects: Vec<WorldObject>,
    pub bank: Bank,
    pub selected_item: Option<usize>,
    pub selected_bank_slot: Option<usize>,
    pub selected_inventory_slot: Option<usize>,
    pub target: Option<(i32, i32)>,
    pub pending_action: PendingAction,
    pub ongoing_action: OngoingAction,
    pub action_timer: i64,
    pub events: Vec<GameEvent>,
}

impl GameState {
    pub open spec fn wf(&self) -> bool {
        &&& self.skills.wf()
        &&& self.player_combat.wf()
        &&& self.inventory.wf()
        &&& self.inventory.spec_capacity() <= u32::MAX
        &&& self.bank.wf()
        &&& self.equipment.wf()
        &&& forall|i: int| 0 <= i < self.entities@.len() ==> (#[trigger] self.entities@[i]).wf()
        &&& forall|i: int| 0 <= i < self.dropped_items@.len() ==> (#[trigger] self.dropped_items@[i]).item.quantity >= 1
        &&& 0 <= self.action_timer <= CHOP_BASE_MS
    }

    /// A player at `(x, y)` with fresh skills, twenty hit points, an empty inventory and bank,
    /// and nothing going on, in a world of the given trees and objects.
    pub fn new(x: i32, y: i32, trees: Vec<Tree>, world_objects: Vec<WorldObject>) -> (r: Self)
        ensures
            r.wf(),
            r.player_x == x && r.player_y == y,
            r.skills.is_fresh(),
            r.trees@ == trees@,
            r.world_objects@ == world_objects@,
            r.ongoing_action == OngoingAction::Idle,
            r.pending_action == PendingAction::Idle,
            r.target is None,
            r.inventory.spec_capacity() == INVENTORY_CAPACITY,
            r.bank.spec_capacity() == BANK_CAPACITY,
            forall|i: int| 0 <= i < INVENTORY_CAPACITY ==> (#[trigger] r.inventory@[i]) is None,
    {
        GameState {
            player_x: x,
            player_y: y,
            skills: Skills::new(),
            player_combat: Combat::new(20),
            entities: Vec::new(),
            inventory: Inventory::new(INVENTORY_CAPACITY),
            equipment: Equipment::new(),
            dropped_items: Vec::new(),
            trees,
            fires: Vec::new(),
            fishing_spots: Vec::new(),
            fishing_spot_timer: 0,
            world_objects,
            bank: Bank::new(BANK_CAPACITY),
            selected_item: None,
            selected_bank_slot: None,
            selected_inventory_slot: None,
            target: None,
            pending_action: PendingAction::Idle,
            ongoing_action: OngoingAction::Idle,
            action_timer: 0,
            events: Vec::new(),
        }
    }

    /// Whether the player's square at `(x, y)` runs into something that blocks.
    pub fn check_collision(&self, x: i32, y: i32) -> (r: bool)
        ensures
            r == blocked(self.world_objects@, x as int, y as int),
    {
        let mut i: usize = 0;
        while i < self.world_objects.len()
            invariant
                i <= self.world_objects@.len(),
                forall|j: int|
                    0 <= j < i ==> !(crate::world_objects::boxes_overlap(
                        (#[trigger] self.world_objects@[j]).x as int,
                        self.world_objects@[j].y as int,
                        self.world_objects@[j].width as int,
                        self.world_objects@[j].height as int,
                        x as int,
                        y as int,
                        PLAYER_SIZE as int,
                        PLAYER_SIZE as int,
                    ) && self.world_objects@[j].blocks_movement),
            decreases self.world_objects@.len() - i,
        {
            if self.world_objects[i].collides_with(x, y, PLAYER_SIZE, PLAYER_SIZE) {
                return true;
            }
            i = i + 1;
        }
        false
    }

    /// Sets out for `(x, y)`, to do `action` there.
    pub fn set_destination(&mut self, x: i32, y: i32, action: PendingAction)
        ensures
            final(self).target == Some((x, y)),
            final(self).pending_action == action,
            final(self).ongoing_action == old(self).ongoing_action,
            final(self).action_timer == old(self).action_timer,
            final(self).same_world(&old(self)),
            final(self).events == old(self).events,
    {
        self.target = Some((x, y));
        self.pending_action = action;
    }

    pub fn is_near_target(&self) -> (r: bool)
        ensures
            r == (self.target matches Some((tx, ty)) && within_range(
                tx as int,
                ty as int,
                self.player_x as int,
                self.player_y as int,
            )),
    {
        match self.target {
            Some((tx, ty)) => in_range(tx, ty, self.player_x, self.player_y),
            None => false,
        }
    }

    /// Stops whatever the player was doing again and again.
    pub fn cancel_ongoing_action(&mut self)
        ensures
            final(self).ongoing_action == OngoingAction::Idle,
            final(self).action_timer == 0,
            final(self).same_world(&old(self)),
            final(self).target == old(self).target,
            final(self).pending_action == old(self).pending_action,
            final(self).events == old(self).events,
    {
        self.ongoing_action = OngoingAction::Idle;
        self.action_timer = 0;
    }

    /// Everything but the action state and the message log is as in `other`.
    pub open spec fn same_world(&self, other: &GameState) -> bool {
        &&& self.inventory == other.inventory
        &&& self.skills == other.skills
        &&& self.trees == other.trees
        &&& self.entities == other.entities
        &&& self.dropped_items == other.dropped_items
        &&& self.player_combat == other.player_combat
        &&& self.bank == other.bank
        &&& self.equipment == other.equipment
        &&& self.fishing_spots == other.fishing_spots
        &&& self.player_x == other.player_x
        &&& self.player_y == other.player_y
        &&& self.fires == other.fires
        &&& self.world_objects == other.world_objects
        &&& self.fishing_spot_timer == other.fishing_spot_timer
    }

    /// Where the player is headed, and what for, is as in `other`.
    pub open spec fn same_course(&self, other: &GameState) -> bool {
        &&& self.target == other.target
        &&& self.pending_action == other.pending_action
    }

    /// One chop at tree `tree_index`. It cuts a log only when the player is in reach of
    /// a standing tree, holds an axe that suits the woodcutting level, and has room for
    /// the log; then the log goes into the inventory, the tree loses one health, and the
    /// player gains woodcutting experience. Out of reach, the player walks back to the
    /// tree; on any other failure nothing changes.
    pub fn chop_tick(&mut self, tree_index: usize) -> (r: ChopOutcome)
        requires
            old(self).wf(),
            tree_index < old(self).trees@.len(),
        ensures
            final(self).wf(),
            final(self).trees@.len() == old(self).trees@.len(),
            final(self).ongoing_action == old(self).ongoing_action,
            final(self).action_timer == old(self).action_timer,
            chop_post(*old(self), *final(self), tree_index as int, r),
    {
        let tree_x = self.trees[tree_index].x;
        let tree_y = self.trees[tree_index].y;
        if !in_range(tree_x, tree_y, self.player_x, self.player_y) {
            self.set_destination(tree_x, tree_y, PendingAction::ChopTree(tree_index));
            return ChopOutcome::OutOfRange;
        }
        let axe_slot = match find_supply(self.inventory.get_items(), Supply::Axe) {
            Some(i) => i,
            None => {
                self.events.push(GameEvent::NeedAxe);
                return ChopOutcome::NoAxe;
            },
        };
        let axe_level = match self.inventory.get_item(axe_slot) {
            Some(axe) => match axe.item_type {
                ItemType::Tool(ToolType::Axe { woodcutting_level }) => woodcutting_level,
                _ => 0,
            },
            None => 0,
        };
        if self.trees[tree_index].is_chopped() || self.trees[tree_index].tree_type == crate::world::TreeType::Wall {
            self.events.push(GameEvent::TreeAlreadyChopped);
            return ChopOutcome::AlreadyChopped;
        }
        if (self.skills.woodcutting.get_level() as u32) < axe_level {
            self.events.push(GameEvent::NeedWoodcuttingLevel(axe_level));
            return ChopOutcome::LevelTooLow(axe_level);
        }
        let logs = Item::logs();
        if !self.inventory.has_room_for(&logs) {
            self.events.push(GameEvent::InventoryFull);
            return ChopOutcome::InventoryFull;
        }
        let ghost trees0 = self.trees@;
        let chopped = {
            let axe = self.inventory.get_item(axe_slot);
            let mut tree = self.trees.remove(tree_index);
            let ok = tree.try_chop(&self.skills, axe);
            self.trees.insert(tree_index, tree);
            ok
        };
        if !chopped {
            self.events.push(GameEvent::TreeAlreadyChopped);
            return ChopOutcome::AlreadyChopped;
        }
        proof {
            assert(self.trees@ =~= trees0.update(tree_index as int, self.trees@[tree_index as int]));
        }
        self.events.push(GameEvent::SwingAxe);
        self.inventory.add_item(logs);
        grant(&mut self.skills.woodcutting, WOODCUTTING_XP);
        self.events.push(GameEvent::GotLog);
        let fell = self.trees[tree_index].health == 0;
        if fell {
            self.events.push(GameEvent::TreeFalls);
        }
        ChopOutcome::Chopped { fell }
    }

    /// One fishing attempt at spot `spot_index`, standing at `(x, y)`. Out of reach,
    /// the player walks back to the spot. Otherwise the spot is fished with a random
    /// catch, which is nothing unless the player can fish there (a rod, and for trout
    /// level 15 and bait), and the catch is settled as `apply_catch` says.
    pub fn fish_tick(&mut self, x: i32, y: i32, spot_index: usize) -> (r: FishOutcome)
        requires
            old(self).wf(),
            spot_index < old(self).fishing_spots@.len(),
        ensures
            final(self).wf(),
            final(self).ongoing_action == old(self).ongoing_action,
            final(self).action_timer == old(self).action_timer,
            fish_post(*old(self), *final(self), x, y, spot_index as int, r),
    {
        if !in_range(x, y, self.player_x, self.player_y) {
            self.set_destination(x, y, PendingAction::Fish(x, y));
            return FishOutcome::OutOfRange;
        }
        let ghost s0 = *self;
        let rod_slot = find_supply(self.inventory.get_items(), Supply::Rod);
        let bait_slot = find_supply(self.inventory.get_items(), Supply::Bait);
        let rod = match rod_slot {
            Some(i) => self.inventory.get_item(i),
            None => None,
        };
        let kind = self.fishing_spots[spot_index].fish_type;
        let caught = self.fishing_spots[spot_index].try_fish(&self.skills, rod, bait_slot.is_some());
        let ghost c = caught;
        let r = self.apply_catch(kind, caught);
        proof {
            assert(catch_possible(s0, spot_index as int, c));
            assert(catch_post(s0, *self, kind, c, r));
        }
        r
    }

    /// Settles what one fishing attempt at a spot of `kind` brought up. Nothing: the
    /// attempt failed. A fish with no room for it: nothing changes. Else the fish goes
    /// in, a trout uses up one bait, and fishing experience rises.
    pub fn apply_catch(&mut self, kind: FishType, catch: Option<Item>) -> (r: FishOutcome)
        requires
            old(self).wf(),
            catch matches Some(f) ==> f.quantity >= 1,
        ensures
            final(self).wf(),
            final(self).ongoing_action == old(self).ongoing_action,
            final(self).action_timer == old(self).action_timer,
            catch_post(*old(self), *final(self), kind, catch, r),
    {
        match catch {
            None => {
                self.events.push(GameEvent::CatchFailed);
                FishOutcome::Failed
            },
            Some(fish) => {
                if !self.inventory.add_item(fish) {
                    self.events.push(GameEvent::InventoryFull);
                    return FishOutcome::InventoryFull;
                }
                if kind == FishType::Trout {
                    if let Some(b) = find_supply(self.inventory.get_items(), Supply::Bait) {
                        self.inventory.remove_item(b);
                    }
                }
                match kind {
                    FishType::Shrimp => {
                        self.events.push(GameEvent::CaughtShrimp);
                        grant(&mut self.skills.fishing, SHRIMP_XP);
                    },
                    FishType::Trout => {
                        self.events.push(GameEvent::CaughtTrout);
                        grant(&mut self.skills.fishing, TROUT_XP);
                    },
                }
                FishOutcome::Caught
            },
        }
    }

    /// One round of combat with the first living creature in reach: the player swings,
    /// and a creature that survives strikes back (see `resolve_round`). With no
    /// creature in reach nothing changes.
    pub fn attack_nearest_entity(&mut self)
        requires
            old(self).wf(),
        ensures
            final(self).wf(),
            final(self).ongoing_action == old(self).ongoing_action,
            final(self).action_timer == old(self).action_timer,
            attack_post(*old(self), *final(self)),
    {
        let ghost s0 = *self;
        let idx = match self.first_attackable() {
            Some(i) => i,
            None => {
                return;
            },
        };
        let attack_bonus = self.equipment.get_total_attack_bonus();
        let defense_bonus = self.equipment.get_total_defense_bonus();
        let str_level = self.skills.strength.get_level() as i64;
        let raw_strength = self.equipment.get_total_strength_bonus() as i64;
        let strength_bonus: i32 = if raw_strength < -str_level {
            (-str_level) as i32
        } else if raw_strength > 2549 - str_level {
            (2549 - str_level) as i32
        } else {
            raw_strength as i32
        };
        let monster_skills = Skills::new();
        let hit = self.player_combat.attack(&self.skills, &monster_skills, attack_bonus, strength_bonus, 0);
        let target_combat = match &self.entities[idx].entity_type {
            crate::entity::EntityType::Goblin(c) => *c,
            crate::entity::EntityType::Cow(c) => *c,
        };
        let reply = target_combat.attack(&monster_skills, &self.skills, 0, 0, defense_bonus);
        let drops = self.entities[idx].get_drops();
        self.resolve_round(idx, hit, reply, &drops);
        proof {
            assert(round_post(s0, *self, idx as int, hit, reply, drops@));
        }
    }

    /// Settles one round of combat against creature `idx`, given the player's hit
    /// `hit`, the creature's reply `reply` and the drops `drops` its death would leave.
    /// A miss changes nothing. A hit takes its damage from the creature, within its hit
    /// points, for 4 attack experience. A kill lays the drops where the creature stood
    /// and gives 10 experience each to attack, strength and defence; a creature that
    /// survives deals its reply to the player, for 4 defence experience.
    pub fn resolve_round(&mut self, idx: usize, hit: Option<u8>, reply: Option<u8>, drops: &Vec<Item>)
        requires
            old(self).wf(),
            idx < old(self).entities@.len(),
        ensures
            final(self).wf(),
            final(self).ongoing_action == old(self).ongoing_action,
            final(self).action_timer == old(self).action_timer,
            round_post(*old(self), *final(self), idx as int, hit, reply, drops@),
    {
        let ghost ents0 = self.entities@;
        match hit {
            Some(damage) => {
                self.events.push(GameEvent::PlayerHit(damage));
                let mut target = self.entities.remove(idx);
                target.take_damage(damage as i32);
                grant(&mut self.skills.attack, HIT_XP);
                let dead = target.entity_type.health() <= 0;
                if dead {
                    self.events.push(GameEvent::TargetDied);
                    push_drops(&mut self.dropped_items, drops, target.x, target.y);
                    grant(&mut self.skills.attack, KILL_XP);
                    grant(&mut self.skills.strength, KILL_XP);
                    grant(&mut self.skills.defense, KILL_XP);
                } else {
                    match reply {
                        Some(d) => {
                            self.events.push(GameEvent::TargetHit(d));
                            self.player_combat.take_damage(d as i32);
                            grant(&mut self.skills.defense, HIT_XP);
                        },
                        None => {
                            self.events.push(GameEvent::TargetMissed);
                        },
                    }
                }
                self.entities.insert(idx, target);
                proof {
                    assert(self.entities@ =~= ents0.update(idx as int, self.entities@[idx as int]));
                }
            },
            None => {
                self.events.push(GameEvent::PlayerMissed);
            },
        }
    }

    /// Runs the action timer for `dt` milliseconds; when it runs out, the ongoing action
    /// takes one turn. A chop that fells the tree, a failed requirement, a full
    /// inventory or a vanished target ends the action; a target out of reach sends the
    /// player walking back to it; otherwise the timer starts over at the action's pace.
    pub fn update_ongoing_action(&mut self, dt: u32)
        requires
            old(self).wf(),
        ensures
            final(self).wf(),
            final(self).trees@.len() == old(self).trees@.len(),
            ongoing_post(*old(self), *final(self), dt as int),
    {
        if self.action_timer > dt as i64 {
            self.action_timer = self.action_timer - dt as i64;
            return;
        }
        let ghost s0 = *self;
        self.action_timer = 0;
        match self.ongoing_action {
            OngoingAction::ChoppingTree { x: _, y: _, tree_index } => {
                if tree_index >= self.trees.len() {
                    self.cancel_ongoing_action();
                    return;
                }
                let axe_level = match find_supply(self.inventory.get_items(), Supply::Axe) {
                    Some(i) => match self.inventory.get_item(i) {
                        Some(axe) => match axe.item_type {
                            ItemType::Tool(ToolType::Axe { woodcutting_level }) => woodcutting_level,
                            _ => 0,
                        },
                        None => 0,
                    },
                    None => 0,
                };
                let r = self.chop_tick(tree_index);
                proof {
                    assert(chop_post(s0, *self, tree_index as int, r));
                }
                match r {
                    ChopOutcome::OutOfRange => {},
                    ChopOutcome::Chopped { fell } => {
                        if fell {
                            self.cancel_ongoing_action();
                        } else {
                            self.action_timer = chop_time_ms(self.skills.woodcutting.get_level(), axe_level);
                        }
                    },
                    _ => {
                        self.cancel_ongoing_action();
                    },
                }
                proof {
                    assert(chop_post(s0, *self, tree_index as int, r));
                }
            },
            OngoingAction::Fighting { target_index } => {
                if target_index >= self.entities.len() || !self.entities[target_index].is_alive() {
                    self.cancel_ongoing_action();
                    return;
                }
                if !self.entities[target_index].is_near(self.player_x, self.player_y) {
                    let (tx, ty) = self.entities[target_index].get_position();
                    self.set_destination(tx, ty, PendingAction::Attack);
                    return;
                }
                let ghost s1 = *self;
                self.attack_nearest_entity();
                let ghost s2 = *self;
                self.action_timer = COMBAT_ROUND_MS;
                proof {
                    let i = first_attackable_index(s1.entities@, s1.player_x as int, s1.player_y as int, 0);
                    if i >= 0 {
                        let (h, rp, dr) = choose|h: Option<u8>, rp: Option<u8>, dr: Seq<Item>|
                            #[trigger] round_post(s1, s2, i, h, rp, dr) && (h matches Some(d) ==> 1 <= d
                                <= crate::combat::max_hit(s1.skills.strength.spec_level(), strength_bonus_used(s1)));
                        assert(round_post(s0, *self, i, h, rp, dr));
                    }
                    assert(attack_post(s0, *self));
                }
            },
            OngoingAction::Fishing { x, y, spot_index } => {
                if spot_index >= self.fishing_spots.len() {
                    self.cancel_ongoing_action();
                    return;
                }
                let ghost s1 = *self;
                let r = self.fish_tick(x, y, spot_index);
                let ghost s2 = *self;
                match r {
                    FishOutcome::OutOfRange => {},
                    FishOutcome::InventoryFull => {
                        self.cancel_ongoing_action();
                    },
                    _ => {
                        self.action_timer = FISHING_ROUND_MS;
                    },
                }
                proof {
                    if r != FishOutcome::OutOfRange {
                        let kind = s1.fishing_spots@[spot_index as int].fish_type;
                        let c = choose|c: Option<Item>|
                            catch_possible(s1, spot_index as int, c) && #[trigger] catch_post(s1, s2, kind, c, r);
                        assert(catch_post(s0, *self, kind, c, r));
                        assert(catch_possible(s0, spot_index as int, c));
                    }
                    assert(fish_post(s0, *self, x, y, spot_index as int, r));
                }
            },
            OngoingAction::Idle => {},
        }
    }

    /// Walks the player `dt` milliseconds toward the target, each axis on its own so
    /// that a wall across one does not stop the other; on arrival, starts what the
    /// player set out to do there.
    pub fn update_movement(&mut self, dt: u32)
        requires
            old(self).wf(),
        ensures
            final(self).wf(),
            final(self).trees == old(self).trees,
            movement_post(*old(self), *final(self), dt as int),
    {
        let (tx, ty) = match self.target {
            Some(t) => t,
            None => {
                return;
            },
        };
        if !in_range(tx, ty, self.player_x, self.player_y) {
            let step: i64 = PLAYER_SPEED * dt as i64 / 1000;
            let nx = clamp_to_world(step_toward(self.player_x, tx, step));
            if !self.check_collision(nx, self.player_y) {
                self.player_x = nx;
            }
            let ny = clamp_to_world(step_toward(self.player_y, ty, step));
            if !self.check_collision(self.player_x, ny) {
                self.player_y = ny;
            }
            return;
        }
        self.target = None;
        match self.pending_action {
            PendingAction::PickupItem(index) => {
                if index < self.dropped_items.len() {
                    if self.inventory.has_room_for(&self.dropped_items[index].item) {
                        let dropped = self.dropped_items.remove(index);
                        self.inventory.add_item(dropped.item);
                        self.events.push(GameEvent::PickedUp);
                    } else {
                        self.events.push(GameEvent::InventoryFull);
                    }
                }
            },
            PendingAction::ChopTree(tree_index) => {
                if tree_index < self.trees.len() {
                    if !self.trees[tree_index].fallen {
                        self.ongoing_action = OngoingAction::ChoppingTree {
                            x: self.trees[tree_index].x,
                            y: self.trees[tree_index].y,
                            tree_index,
                        };
                        self.action_timer = 0;
                        self.events.push(GameEvent::BeginChopping);
                    } else {
                        self.events.push(GameEvent::TreeAlreadyChopped);
                    }
                }
            },
            PendingAction::Attack => {
                if let Some(i) = self.first_attackable() {
                    self.ongoing_action = OngoingAction::Fighting { target_index: i };
                    self.action_timer = 0;
                }
            },
            PendingAction::Fish(x, y) => {
                if let Some(i) = self.spot_near(x, y) {
                    self.ongoing_action = OngoingAction::Fishing { x, y, spot_index: i };
                    self.action_timer = 0;
                }
            },
            PendingAction::Idle => {},
        }
        self.pending_action = PendingAction::Idle;
    }

    /// The first living creature within reach of the player.
    pub fn first_attackable(&self) -> (r: Option<usize>)
        ensures
            first_attackable_index(self.entities@, self.player_x as int, self.player_y as int, 0) == match r {
                Some(i) => i as int,
                None => -1,
            },
            r matches Some(i) ==> i < self.entities@.len() && attackable(
                self.entities@[i as int],
                self.player_x as int,
                self.player_y as int,
            ),
    {
        let mut i: usize = 0;
        while i < self.entities.len()
            invariant
                i <= self.entities@.len(),
                first_attackable_index(self.entities@, self.player_x as int, self.player_y as int, 0)
                    == first_attackable_index(self.entities@, self.player_x as int, self.player_y as int, i as int),
            decreases self.entities@.len() - i,
        {
            if self.entities[i].is_near(self.player_x, self.player_y) && self.entities[i].is_alive() {
                return Some(i);
            }
            i = i + 1;
        }
        None
    }

    /// The first dropped item within reach of `(x, y)`.
    pub fn dropped_near(&self, x: i32, y: i32) -> (r: Option<usize>)
        ensures
            first_dropped_near(self.dropped_items@, x as int, y as int, 0) == match r {
                Some(i) => i as int,
                None => -1,
            },
    {
        let mut i: usize = 0;
        while i < self.dropped_items.len()
            invariant
                i <= self.dropped_items@.len(),
                first_dropped_near(self.dropped_items@, x as int, y as int, 0) == first_dropped_near(
                    self.dropped_items@,
                    x as int,
                    y as int,
                    i as int,
                ),
            decreases self.dropped_items@.len() - i,
        {
            if in_range(self.dropped_items[i].x, self.dropped_items[i].y, x, y) {
                return Some(i);
            }
            i = i + 1;
        }
        None
    }

    /// The first fishing spot within reach of `(x, y)`.
    pub fn spot_near(&self, x: i32, y: i32) -> (r: Option<usize>)
        ensures
            first_spot_near(self.fishing_spots@, x as int, y as int, 0) == match r {
                Some(i) => i as int,
                None => -1,
            },
            r matches Some(i) ==> i < self.fishing_spots@.len() && within_range(
                self.fishing_spots@[i as int].x as int,
                self.fishing_spots@[i as int].y as int,
                x as int,
                y as int,
            ),
    {
        let mut i: usize = 0;
        while i < self.fishing_spots.len()
            invariant
                i <= self.fishing_spots@.len(),
                first_spot_near(self.fishing_spots@, x as int, y as int, 0) == first_spot_near(
                    self.fishing_spots@,
                    x as int,
                    y as int,
                    i as int,
                ),
            decreases self.fishing_spots@.len() - i,
        {
            if self.fishing_spots[i].is_near(x, y) {
                return Some(i);
            }
            i = i + 1;
        }
        None
    }

    /// Drops one unit of slot `slot` (the whole slot, unless it is a larger stack) at
    /// the player's feet.
    pub fn drop_item(&mut self, slot: usize)
        requires
            old(self).wf(),
        ensures
            final(self).wf(),
            final(self).ongoing_action == old(self).ongoing_action,
            final(self).action_timer == old(self).action_timer,
            final(self).selected_item == old(self).selected_item,
            drop_post(*old(self), *final(self), slot as int),
    {
        if let Some(item) = self.inventory.remove_item(slot) {
            self.dropped_items.push(DroppedItem::new(item, self.player_x, self.player_y));
        }
    }

    /// Cuts logs from the first tree object within reach, with the first axe in the
    /// inventory, when the woodcutting level suits it and there is room.
    pub fn try_chop_tree(&mut self)
        requires
            old(self).wf(),
        ensures
            final(self).wf(),
            final(self).trees == old(self).trees,
            final(self).ongoing_action == old(self).ongoing_action,
            final(self).action_timer == old(self).action_timer,
            only_items_changed(*old(self), *final(self)),
            final(self).fires == old(self).fires,
            ({
                let cut = tree_object_near(old(self).world_objects@, old(self).player_x as int, old(self).player_y as int)
                    && holds_supply(old(self).inventory@, Supply::Axe)
                    && old(self).skills.woodcutting.spec_level() >= axe_level(old(self).inventory@);
                &&& !cut ==> final(self).inventory@ == old(self).inventory@ && final(self).skills == old(self).skills
                &&& cut ==> exists|logs: Item|
                    is_logs(logs) && #[trigger] added_or_kept(old(self).inventory@, logs) == final(self).inventory@
                        && woodcutting_gained(
                        old(self).skills,
                        final(self).skills,
                        if slots_after_add(old(self).inventory@, logs, false) is Some {
                            WOODCUTTING_XP as int
                        } else {
                            0
                        },
                    )
            }),
    {
        let mut i: usize = 0;
        let mut found = false;
        while i < self.world_objects.len() && !found
            invariant
                i <= self.world_objects@.len(),
                found ==> i < self.world_objects@.len() && within_range(
                    self.world_objects@[i as int].x as int,
                    self.world_objects@[i as int].y as int,
                    self.player_x as int,
                    self.player_y as int,
                ) && self.world_objects@[i as int].object_type == crate::world_objects::ObjectType::Tree,
                !found ==> forall|j: int|
                    0 <= j < i ==> !(within_range(
                        (#[trigger] self.world_objects@[j]).x as int,
                        self.world_objects@[j].y as int,
                        self.player_x as int,
                        self.player_y as int,
                    ) && self.world_objects@[j].object_type == crate::world_objects::ObjectType::Tree),
            decreases self.world_objects@.len() - i + if found {
                0int
            } else {
                1int
            },
        {
            let obj = &self.world_objects[i];
            if in_range(obj.x, obj.y, self.player_x, self.player_y) && obj.object_type
                == crate::world_objects::ObjectType::Tree {
                found = true;
            } else {
                i = i + 1;
            }
        }
        if !found {
            return;
        }
        match find_supply(self.inventory.get_items(), Supply::Axe) {
            Some(axe_slot) => {
                let axe_level = match self.inventory.get_item(axe_slot) {
                    Some(axe) => match axe.item_type {
                        ItemType::Tool(ToolType::Axe { woodcutting_level }) => woodcutting_level,
                        _ => 0,
                    },
                    None => 0,
                };
                if self.skills.woodcutting.get_level() as u32 >= axe_level {
                    let logs = Item::logs();
                    let ghost lg = logs;
                    let ghost s0 = *self;
                    if self.inventory.add_item(logs) {
                        self.events.push(GameEvent::GotLog);
                        grant(&mut self.skills.woodcutting, WOODCUTTING_XP);
                    } else {
                        self.events.push(GameEvent::InventoryFull);
                    }
                    proof {
                        assert(is_logs(lg));
                        assert(added_or_kept(s0.inventory@, lg) == self.inventory@);
                    }
                } else {
                    self.events.push(GameEvent::NeedWoodcuttingLevel(axe_level));
                }
            },
            None => {
                self.events.push(GameEvent::NeedAxe);
            },
        }
    }

    /// Uses the selected item in slot `selected` on the item in slot `slot`: a tinderbox
    /// on logs (either way round) lights a fire where the player stands and burns the
    /// logs, if the firemaking level allows; raw food is cooked on a fire within reach,
    /// if the cooking level allows (see `use_post`).
    pub fn use_item_on_item(&mut self, selected: usize, slot: usize)
        requires
            old(self).wf(),
        ensures
            final(self).wf(),
            final(self).ongoing_action == old(self).ongoing_action,
            final(self).action_timer == old(self).action_timer,
            final(self).selected_item == old(self).selected_item,
            use_post(*old(self), *final(self), selected as int, slot as int),
    {
        let first = match self.inventory.get_item(selected) {
            Some(it) => it.item_type,
            None => {
                return;
            },
        };
        let second = match self.inventory.get_item(slot) {
            Some(it) => it.item_type,
            None => {
                return;
            },
        };
        let logs = match (first, second) {
            (ItemType::Tool(ToolType::Tinderbox), ItemType::Resource(ResourceType::Logs { firemaking_level })) => Some(
                (slot, firemaking_level),
            ),
            (ItemType::Resource(ResourceType::Logs { firemaking_level }), ItemType::Tool(ToolType::Tinderbox)) => Some(
                (selected, firemaking_level),
            ),
            _ => None,
        };
        if let Some((logs_slot, level)) = logs {
            if self.skills.firemaking.get_level() as u32 >= level {
                self.inventory.remove_item(logs_slot);
                self.fires.push(Fire::new(self.player_x, self.player_y));
                grant(&mut self.skills.firemaking, FIREMAKING_XP);
                self.events.push(GameEvent::LitFire);
            } else {
                self.events.push(GameEvent::NeedFiremakingLevel(level));
            }
            return;
        }
        let need = match second {
            ItemType::Resource(ResourceType::RawFish { cooking_level, .. }) => cooking_level,
            ItemType::Resource(ResourceType::RawBeef { cooking_level, .. }) => cooking_level,
            _ => {
                return;
            },
        };
        let f = match self.fire_near_player() {
            Some(f) => f,
            None => {
                self.events.push(GameEvent::NeedFire);
                return;
            },
        };
        let level = self.skills.cooking.get_level();
        if (level as u32) < need {
            self.events.push(GameEvent::NeedCookingLevel(need));
            return;
        }
        let cooked = match self.inventory.get_item(slot) {
            Some(raw) => self.fires[f].try_cook(raw, level),
            None => None,
        };
        if let Some(food) = cooked {
            let burnt = match food.item_type {
                ItemType::Resource(ResourceType::BurntFish) => true,
                ItemType::Resource(ResourceType::BurntBeef) => true,
                _ => false,
            };
            let ghost ck = food;
            self.inventory.remove_item(slot);
            if self.inventory.add_item(food) {
                if burnt {
                    self.events.push(GameEvent::Burnt);
                } else {
                    self.events.push(GameEvent::Cooked);
                    grant(&mut self.skills.cooking, COOKING_XP);
                }
            } else {
                self.events.push(GameEvent::InventoryFull);
            }
        }
    }

    /// The first fire within reach of the player.
    pub fn fire_near_player(&self) -> (r: Option<usize>)
        ensures
            r is Some <==> fire_near(self.fires@, self.player_x as int, self.player_y as int),
            r matches Some(f) ==> f < self.fires@.len(),
    {
        let mut f: usize = 0;
        while f < self.fires.len()
            invariant
                f <= self.fires@.len(),
                forall|j: int|
                    0 <= j < f ==> !within_range(
                        (#[trigger] self.fires@[j]).x as int,
                        self.fires@[j].y as int,
                        self.player_x as int,
                        self.player_y as int,
                    ),
            decreases self.fires@.len() - f,
        {
            if self.fires[f].is_near(self.player_x, self.player_y) {
                return Some(f);
            }
            f = f + 1;
        }
        None
    }

    /// A click on inventory slot `slot` (see `click_post`). The right button drops the
    /// item. The left one uses the selected item on it, if one is selected; else it
    /// equips a weapon or armour (the item it replaces goes back into the inventory),
    /// eats food, or selects anything else.
    pub fn handle_inventory_click(&mut self, slot: usize, button: ClickButton)
        requires
            old(self).wf(),
        ensures
            final(self).wf(),
            final(self).ongoing_action == old(self).ongoing_action,
            final(self).action_timer == old(self).action_timer,
            click_post(*old(self), *final(self), slot as int, button),
    {
        let kind = match self.inventory.get_item(slot) {
            Some(it) => it.item_type,
            None => {
                return;
            },
        };
        match button {
            ClickButton::Right => {
                self.drop_item(slot);
            },
            ClickButton::Left => {
                if let Some(sel) = self.selected_item {
                    self.use_item_on_item(sel, slot);
                    self.selected_item = None;
                    return;
                }
                match kind {
                    ItemType::Weapon(_) | ItemType::Armor(_) => {
                        if let Some(item) = self.inventory.remove_item(slot) {
                            let replaced = match item.item_type {
                                ItemType::Weapon(_) => self.equipment.equip_weapon(item),
                                _ => self.equipment.equip_armor(item),
                            };
                            if let Some(back) = replaced {
                                if back.quantity >= 1 {
                                    self.inventory.add_item(back);
                                }
                            }
                            self.events.push(GameEvent::Equipped);
                        }
                    },
                    ItemType::Food(_) => {
                        if self.inventory.use_item(slot, &mut self.player_combat) {
                            self.events.push(GameEvent::Ate);
                        }
                    },
                    _ => {
                        self.selected_item = Some(slot);
                    },
                }
            },
        }
    }

    /// Opens a new fishing spot at a random place in the pond: shrimp seven times in
    /// ten, else trout.
    pub fn spawn_fishing_spot(&mut self)
        requires
            old(self).wf(),
        ensures
            final(self).wf(),
            *final(self) == (GameState { fishing_spots: final(self).fishing_spots, ..*old(self) }),
            final(self).trees == old(self).trees,
            final(self).fishing_spots@.len() == old(self).fishing_spots@.len() + 1,
            final(self).fishing_spots@.take(old(self).fishing_spots@.len() as int) == old(self).fishing_spots@,
            100 <= final(self).fishing_spots@.last().x <= 300,
            500 <= final(self).fishing_spots@.last().y <= 700,
            final(self).fishing_spots@.last().spec_lifetime() == crate::world::FISHING_SPOT_LIFETIME_MS,
    {
        let x = random_in(100, 300) as i32;
        let y = random_in(500, 700) as i32;
        let fish_type = if random_in(0, 99) < 70 {
            FishType::Shrimp
        } else {
            FishType::Trout
        };
        self.fishing_spots.push(FishingSpot::new(x, y, fish_type));
        proof {
            assert(self.fishing_spots@.take(old(self).fishing_spots@.len() as int) =~= old(self).fishing_spots@);
        }
    }

    /// One frame of `dt` milliseconds: creatures wander or respawn and the fallen are
    /// cleared away, trees regrow, fires burn down, dropped items age, fishing spots
    /// come and go, then the player walks and the ongoing action takes its turn.
    pub fn update(&mut self, dt: u32)
        requires
            old(self).wf(),
        ensures
            final(self).wf(),
            final(self).fishing_spot_timer == if old(self).fishing_spot_timer <= dt {
                FISHING_SPOT_INTERVAL_MS as int
            } else {
                old(self).fishing_spot_timer - dt
            },
            exists|a: GameState, b: GameState|
                #![trigger world_ticked(*old(self), a, dt as int), movement_post(a, b, dt as int)]
                world_ticked(*old(self), a, dt as int) && movement_post(a, b, dt as int) && ongoing_post(
                    b,
                    *final(self),
                    dt as int,
                ),
    {
        let ghost s0 = *self;
        update_entities(&mut self.entities, dt);
        update_trees(&mut self.trees, dt);
        update_fires(&mut self.fires, dt);
        update_dropped(&mut self.dropped_items, dt);
        if self.fishing_spot_timer <= dt as i64 {
            self.spawn_fishing_spot();
            self.fishing_spot_timer = FISHING_SPOT_INTERVAL_MS;
        } else {
            self.fishing_spot_timer = self.fishing_spot_timer - dt as i64;
        }
        let ghost spawned = self.fishing_spots@;
        update_spots(&mut self.fishing_spots, dt);
        let ghost a = *self;
        proof {
            if s0.fishing_spot_timer <= dt {
                let sp = spawned.last();
                assert(spawned =~= s0.fishing_spots@.push(sp));
                assert(a.fishing_spots@ == spots_after(s0.fishing_spots@.push(sp), dt as int));
            } else {
                assert(spawned == s0.fishing_spots@);
            }
        }
        self.update_movement(dt);
        let ghost b = *self;
        self.update_ongoing_action(dt);
        proof {
            assert(world_ticked(s0, a, dt as int));
        }
    }

    /// The standing tree closest to `(x, y)`, if one stands within the pick range; of
    /// equally close trees, the first.
    pub fn closest_standing_tree(&self, x: i32, y: i32) -> (r: Option<usize>)
        ensures
            match r {
                Some(i) => closest_standing(self.trees@, i as int, x as int, y as int),
                None => none_standing_near(self.trees@, x as int, y as int),
            },
    {
        let mut best: Option<usize> = None;
        let mut best_d: i128 = 0;
        let mut i: usize = 0;
        while i < self.trees.len()
            invariant
                i <= self.trees@.len(),
                match best {
                    Some(b) => {
                        &&& b < i
                        &&& !self.trees@[b as int].fallen
                        &&& best_d == dist2(self.trees@[b as int].x as int, self.trees@[b as int].y as int, x as int, y as int)
                        &&& forall|j: int|
                            0 <= j < i && !(#[trigger] self.trees@[j]).fallen ==> best_d <= dist2(
                                self.trees@[j].x as int,
                                self.trees@[j].y as int,
                                x as int,
                                y as int,
                            )
                    },
                    None => forall|j: int| 0 <= j < i ==> (#[trigger] self.trees@[j]).fallen,
                },
            decreases self.trees@.len() - i,
        {
            if !self.trees[i].fallen {
                let d = distance_squared(self.trees[i].x, self.trees[i].y, x, y);
                let better = match best {
                    Some(_) => d < best_d,
                    None => true,
                };
                if better {
                    best = Some(i);
                    best_d = d;
                }
            }
            i = i + 1;
        }
        match best {
            Some(b) => {
                if best_d < (TREE_PICK_RANGE * TREE_PICK_RANGE) as i128 {
                    Some(b)
                } else {
                    None
                }
            },
            None => None,
        }
    }

    /// Carries out a right-click menu choice made at `(x, y)`. World choices set the
    /// player walking: to the closest standing tree near the click, to a dropped item
    /// near it, or to the click itself to fight or fish. Bank choices move items
    /// between the selected bank or inventory slot and the other side. Choices that
    /// only show something are left to the interface.
    pub fn handle_context_action(&mut self, action: ContextMenuAction, x: i32, y: i32)
        requires
            old(self).wf(),
        ensures
            final(self).wf(),
            action is ChopTree && none_standing_near(old(self).trees@, x as int, y as int)
                ==> final(self).pending_action == old(self).pending_action && final(self).target == old(self).target,
            action is ChopTree && !none_standing_near(old(self).trees@, x as int, y as int)
                ==> (final(self).pending_action matches PendingAction::ChopTree(i) && closest_standing(
                old(self).trees@,
                i as int,
                x as int,
                y as int,
            ) && final(self).target == Some((old(self).trees@[i as int].x, old(self).trees@[i as int].y))),
            action is Attack ==> final(self).target == Some((x, y)) && final(self).pending_action
                == PendingAction::Attack,
            action is PickupItem ==> ({
                let j = first_dropped_near(old(self).dropped_items@, x as int, y as int, 0);
                if j >= 0 {
                    final(self).target == Some((x, y)) && final(self).pending_action == PendingAction::PickupItem(
                        j as usize,
                    )
                } else {
                    final(self).same_course(&old(self))
                }
            }),
            action is WithdrawOne ==> withdrew(*old(self), *final(self), 1),
            action is WithdrawTen ==> withdrew(*old(self), *final(self), 10),
            action is WithdrawHundred ==> withdrew(*old(self), *final(self), 100),
            action is WithdrawAll ==> withdrew(*old(self), *final(self), u32::MAX),
            action is DepositOne ==> deposited(*old(self), *final(self), 1),
            action is DepositTen ==> deposited(*old(self), *final(self), 10),
            action is DepositHundred ==> deposited(*old(self), *final(self), 100),
            action is DepositAll ==> bank_moved(*old(self), *final(self)) && match old(self).selected_inventory_slot {
                Some(i) => i < old(self).inventory@.len() && old(self).inventory@[i as int] is Some ==> ({
                    let run = crate::bank::deposit_run(
                        old(self).inventory@,
                        old(self).bank@,
                        old(self).inventory@[i as int]->0.name@,
                        old(self).inventory@.len() as int,
                    );
                    final(self).inventory@ == run.0 && final(self).bank@ == run.1
                }),
                None => final(self).inventory@ == old(self).inventory@ && final(self).bank@ == old(self).bank@,
            },
            (action is OpenBank || action is Examine || action is WithdrawX || action is DepositX || action is NoAction)
                ==> final(self).same_world(&old(self)) && final(self).same_course(&old(self)),
            action is Fish ==> final(self).target == Some((x, y)) && final(self).pending_action
                == PendingAction::Fish(x, y),
    {
        match action {
            ContextMenuAction::ChopTree => {
                if let Some(i) = self.closest_standing_tree(x, y) {
                    let tx = self.trees[i].x;
                    let ty = self.trees[i].y;
                    self.set_destination(tx, ty, PendingAction::ChopTree(i));
                }
            },
            ContextMenuAction::PickupItem => {
                if let Some(i) = self.dropped_near(x, y) {
                    self.set_destination(x, y, PendingAction::PickupItem(i));
                }
            },
            ContextMenuAction::Attack => {
                self.set_destination(x, y, PendingAction::Attack);
            },
            ContextMenuAction::Fish => {
                self.set_destination(x, y, PendingAction::Fish(x, y));
            },
            ContextMenuAction::WithdrawOne => self.withdraw_selected(1),
            ContextMenuAction::WithdrawTen => self.withdraw_selected(10),
            ContextMenuAction::WithdrawHundred => self.withdraw_selected(100),
            ContextMenuAction::WithdrawAll => self.withdraw_selected(u32::MAX),
            ContextMenuAction::DepositOne => self.deposit_selected(1),
            ContextMenuAction::DepositTen => self.deposit_selected(10),
            ContextMenuAction::DepositHundred => self.deposit_selected(100),
            ContextMenuAction::DepositAll => {
                if let Some(slot) = self.selected_inventory_slot {
                    crate::bank::deposit_all_items(slot, &mut self.inventory, &mut self.bank);
                }
            },
            _ => {},
        }
    }

    /// Withdraws up to `amount` units from the selected bank slot.
    pub fn withdraw_selected(&mut self, amount: u32)
        requires
            old(self).wf(),
        ensures
            final(self).wf(),
            withdrew(*old(self), *final(self), amount),
    {
        if let Some(slot) = self.selected_bank_slot {
            let ghost i0 = self.inventory@;
            let ghost b0 = self.bank@;
            let r = crate::bank::withdraw_items(slot, amount, &mut self.inventory, &mut self.bank);
            assert(crate::bank::withdraw_post(i0, b0, self.inventory@, self.bank@, slot as int, amount, r));
        }
    }

    /// Deposits up to `amount` units from the selected inventory slot.
    pub fn deposit_selected(&mut self, amount: u32)
        requires
            old(self).wf(),
        ensures
            final(self).wf(),
            deposited(*old(self), *final(self), amount),
    {
        if let Some(slot) = self.selected_inventory_slot {
            let ghost i0 = self.inventory@;
            let ghost b0 = self.bank@;
            let r = crate::bank::deposit_items(slot, amount, &mut self.inventory, &mut self.bank);
            assert(crate::bank::deposit_post(i0, b0, self.inventory@, self.bank@, slot as int, amount, r));
        }
    }

    /// Fills an empty inventory with the starting kit: bronze weapon and armour, an
    /// axe, a tinderbox, a fishing rod and 1000 GP. An inventory holding anything is
    /// left alone.
    pub fn give_starter_kit(&mut self)
        requires
            old(self).wf(),
        ensures
            final(self).wf(),
            (exists|i: int| 0 <= i < old(self).inventory@.len() && (#[trigger] old(self).inventory@[i]) is Some)
                ==> final(self).inventory == old(self).inventory,
    {
        if !self.inventory.is_empty() {
            return;
        }
        self.inventory.add_item(Item::bronze_sword());
        self.inventory.add_item(Item::bronze_helmet());
        self.inventory.add_item(Item::bronze_platebody());
        self.inventory.add_item(Item::bronze_platelegs());
        self.inventory.add_item(Item::bronze_axe());
        self.inventory.add_item(Item::tinderbox());
        self.inventory.add_item(Item::fishing_rod());
        self.inventory.add_item(Item::gp(1000));
    }
}

/// The squared distance between two points.
pub open spec fn dist2(ax: int, ay: int, bx: int, by: int) -> int {
    (ax - bx) * (ax - bx) + (ay - by) * (ay - by)
}

/// Tree `i` stands, within the pick range of `(x, y)`, and no standing tree is closer.
pub open spec fn closest_standing(trees: Seq<Tree>, i: int, x: int, y: int) -> bool {
    &&& 0 <= i < trees.len()
    &&& !trees[i].fallen
    &&& dist2(trees[i].x as int, trees[i].y as int, x, y) < TREE_PICK_RANGE * TREE_PICK_RANGE
    &&& forall|j: int|
        0 <= j < trees.len() && !(#[trigger] trees[j]).fallen ==> dist2(trees[i].x as int, trees[i].y as int, x, y)
            <= dist2(trees[j].x as int, trees[j].y as int, x, y)
}

/// No standing tree is within the pick range of `(x, y)`.
pub open spec fn none_standing_near(trees: Seq<Tree>, x: int, y: int) -> bool {
    forall|j: int|
        0 <= j < trees.len() && !(#[trigger] trees[j]).fallen ==> dist2(trees[j].x as int, trees[j].y as int, x, y)
            >= TREE_PICK_RANGE * TREE_PICK_RANGE
}

/// How far from a click, in world units, a tree may stand to be chosen.
pub const TREE_PICK_RANGE: i64 = 100;

fn distance_squared(ax: i32, ay: i32, bx: i32, by: i32) -> (r: i128)
    ensures
        r == dist2(ax as int, ay as int, bx as int, by as int),
{
    let dx: i128 = ax as i128 - bx as i128;
    let dy: i128 = ay as i128 - by as i128;
    proof {
        assert(0 <= dx * dx <= 0x1_0000_0000 * 0x1_0000_0000) by (nonlinear_arith)
            requires -0x1_0000_0000 <= dx <= 0x1_0000_0000;
        assert(0 <= dy * dy <= 0x1_0000_0000 * 0x1_0000_0000) by (nonlinear_arith)
            requires -0x1_0000_0000 <= dy <= 0x1_0000_0000;
    }
    dx * dx + dy * dy
}

/// A coordinate held within the world's bounds.
pub open spec fn clamp_world(v: int) -> int {
    crate::combat::clamp(v, WORLD_MIN as int, WORLD_MAX as int)
}

fn clamp_to_world(v: i32) -> (r: i32)
    ensures
        r == clamp_world(v as int),
{
    if v < WORLD_MIN {
        WORLD_MIN
    } else if v > WORLD_MAX {
        WORLD_MAX
    } else {
        v
    }
}

/// Runs every creature for `dt` milliseconds and clears away those no longer alive.
fn update_entities(entities: &mut Vec<Entity>, dt: u32)
    requires
        forall|i: int| 0 <= i < old(entities)@.len() ==> (#[trigger] old(entities)@[i]).wf(),
    ensures
        forall|i: int| 0 <= i < final(entities)@.len() ==> (#[trigger] final(entities)@[i]).wf(),
        forall|i: int| 0 <= i < final(entities)@.len() ==> (#[trigger] final(entities)@[i]).respawn_timer is None
            && final(entities)@[i].entity_type.spec_combat().health > 0,
{
    let mut i: usize = 0;
    while i < entities.len()
        invariant
            i <= entities@.len(),
            forall|j: int| 0 <= j < entities@.len() ==> (#[trigger] entities@[j]).wf(),
            forall|j: int| 0 <= j < i ==> (#[trigger] entities@[j]).respawn_timer is None
                && entities@[j].entity_type.spec_combat().health > 0,
        decreases entities@.len() - i,
    {
        let mut e = entities.remove(i);
        e.update(dt);
        if e.is_alive() {
            entities.insert(i, e);
            i = i + 1;
        }
    }
}

fn update_trees(trees: &mut Vec<Tree>, dt: u32)
    ensures
        final(trees)@.len() == old(trees)@.len(),
        forall|i: int| 0 <= i < old(trees)@.len() ==> tree_tick(old(trees)@[i], #[trigger] final(trees)@[i], dt as int),
{
    let mut i: usize = 0;
    while i < trees.len()
        invariant
            i <= trees@.len(),
            trees@.len() == old(trees)@.len(),
            forall|j: int| 0 <= j < i ==> tree_tick(old(trees)@[j], #[trigger] trees@[j], dt as int),
            forall|j: int| i <= j < trees@.len() ==> #[trigger] trees@[j] == old(trees)@[j],
        decreases trees@.len() - i,
    {
        let mut t = trees.remove(i);
        t.update(dt);
        trees.insert(i, t);
        i = i + 1;
    }
}

/// Burns every fire for `dt` milliseconds and puts out those that have run out.
fn update_fires(fires: &mut Vec<Fire>, dt: u32)
    ensures
        final(fires)@ == fires_after(old(fires)@, dt as int),
{
    let ghost f0 = fires@;
    let ghost mut k: int = 0;
    let mut i: usize = 0;
    while i < fires.len()
        invariant
            0 <= k <= f0.len(),
            i == fires_after(f0.take(k), dt as int).len(),
            fires@ == fires_after(f0.take(k), dt as int) + f0.skip(k),
        decreases f0.len() - k,
    {
        proof {
            assert(f0.take(k + 1).drop_last() =~= f0.take(k));
            assert(f0.take(k + 1).last() == f0[k]);
            assert(fires@[i as int] == f0[k]);
        }
        let mut f = fires.remove(i);
        f.update(dt);
        if !f.is_expired() {
            fires.insert(i, f);
            i = i + 1;
        }
        proof {
            k = k + 1;
            assert(fires@ =~= fires_after(f0.take(k), dt as int) + f0.skip(k));
        }
    }
    proof {
        assert(f0.skip(k).len() == 0);
        assert(f0.take(k) =~= f0);
        assert(fires@ =~= fires_after(f0, dt as int));
    }
}

fn update_dropped(dropped: &mut Vec<DroppedItem>, dt: u32)
    requires
        forall|i: int| 0 <= i < old(dropped)@.len() ==> (#[trigger] old(dropped)@[i]).item.quantity >= 1,
    ensures
        forall|i: int| 0 <= i < final(dropped)@.len() ==> (#[trigger] final(dropped)@[i]).item.quantity >= 1,
        final(dropped)@.len() == old(dropped)@.len(),
        forall|i: int|
            0 <= i < old(dropped)@.len() ==> (#[trigger] final(dropped)@[i]).item == old(dropped)@[i].item
                && final(dropped)@[i].x == old(dropped)@[i].x && final(dropped)@[i].y == old(dropped)@[i].y,
{
    let mut i: usize = 0;
    while i < dropped.len()
        invariant
            i <= dropped@.len(),
            dropped@.len() == old(dropped)@.len(),
            forall|j: int| 0 <= j < dropped@.len() ==> (#[trigger] dropped@[j]).item.quantity >= 1,
            forall|j: int|
                0 <= j < dropped@.len() ==> (#[trigger] dropped@[j]).item == old(dropped)@[j].item
                    && dropped@[j].x == old(dropped)@[j].x && dropped@[j].y == old(dropped)@[j].y,
        decreases dropped@.len() - i,
    {
        let mut d = dropped.remove(i);
        d.update(dt);
        dropped.insert(i, d);
        i = i + 1;
    }
}

/// Ages every fishing spot by `dt` milliseconds and removes those that have run out.
fn update_spots(spots: &mut Vec<FishingSpot>, dt: u32)
    ensures
        final(spots)@ == spots_after(old(spots)@, dt as int),
{
    let ghost f0 = spots@;
    let ghost mut k: int = 0;
    let mut i: usize = 0;
    while i < spots.len()
        invariant
            0 <= k <= f0.len(),
            i == spots_after(f0.take(k), dt as int).len(),
            spots@ == spots_after(f0.take(k), dt as int) + f0.skip(k),
        decreases f0.len() - k,
    {
        proof {
            assert(f0.take(k + 1).drop_last() =~= f0.take(k));
            assert(f0.take(k + 1).last() == f0[k]);
            assert(spots@[i as int] == f0[k]);
        }
        let mut s = spots.remove(i);
        if s.update(dt) {
            spots.insert(i, s);
            i = i + 1;
        }
        proof {
            k = k + 1;
            assert(spots@ =~= spots_after(f0.take(k), dt as int) + f0.skip(k));
        }
    }
    proof {
        assert(f0.skip(k).len() == 0);
        assert(f0.take(k) =~= f0);
        assert(spots@ =~= spots_after(f0, dt as int));
    }
}

/// Lays `drops` on the ground at `(x, y)`.
fn push_drops(dropped: &mut Vec<DroppedItem>, drops: &Vec<Item>, x: i32, y: i32)
    requires
        forall|i: int| 0 <= i < old(dropped)@.len() ==> (#[trigger] old(dropped)@[i]).item.quantity >= 1,
    ensures
        forall|i: int| 0 <= i < final(dropped)@.len() ==> (#[trigger] final(dropped)@[i]).item.quantity >= 1,
        final(dropped)@ == old(dropped)@ + laid(drops@, x, y),
{
    let mut k: usize = 0;
    while k < drops.len()
        invariant
            k <= drops@.len(),
            forall|i: int| 0 <= i < dropped@.len() ==> (#[trigger] dropped@[i]).item.quantity >= 1,
            dropped@ == old(dropped)@ + laid(drops@.take(k as int), x, y),
        decreases drops@.len() - k,
    {
        proof {
            assert(drops@.take(k + 1).drop_last() =~= drops@.take(k as int));
            assert(drops@.take(k + 1).last() == drops@[k as int]);
        }
        let d = &drops[k];
        if d.quantity >= 1 {
            dropped.push(DroppedItem::new(d.with_quantity(d.quantity), x, y));
            proof {
                assert(dropped@ =~= old(dropped)@ + laid(drops@.take(k + 1), x, y));
            }
        }
        k = k + 1;
    }
    proof {
        assert(drops@.take(k as int) =~= drops@);
    }
}

/// Adds `amount` experience to `skill`, unless the total would no longer fit.
fn grant(skill: &mut crate::skills::Skill, amount: u32)
    requires
        old(skill).wf(),
    ensures
        final(skill).wf(),
        final(skill).spec_experience() == gained(old(skill).spec_experience(), amount as int),
        old(skill).spec_experience() + amount > u32::MAX ==> *final(skill) == *old(skill),
{
    if skill.get_experience() <= u32::MAX - amount {
        skill.add_experience(amount);
    }
}

} // verus!
