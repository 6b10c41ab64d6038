use vstd::prelude::*;

use crate::combat::Combat;
use crate::inventory::Item;
use crate::random::random_in;
use crate::skills::Skills;
use crate::world::{in_range, tick, within_range};

verus! {

/// Milliseconds before a slain creature comes back.
pub const ENTITY_RESPAWN_MS: i64 = 30000;

/// How far, in world units per second, a creature wanders.
pub const WANDER_SPEED: i64 = 50;

/// One line of a drop table: an item, and the chance in percent that a kill drops it.
#[derive(Debug)]
pub struct DropTableEntry {
    pub item: Item,
    pub chance: u32,
}

/// What a creature may drop. Each line is rolled on its own, so a kill drops any number
/// of them.
#[derive(Debug)]
pub struct DropTable {
    pub entries: Vec<DropTableEntry>,
}

/// The items of `entries` whose roll (in `0..100`, one per entry, in order) falls under
/// their chance.
pub open spec fn dropped(entries: Seq<DropTableEntry>, rolls: Seq<u32>) -> Seq<Item>
    decreases entries.len(),
{
    if entries.len() == 0 || rolls.len() < entries.len() {
        Seq::empty()
    } else {
        let last = entries.len() - 1;
        let before = dropped(entries.take(last), rolls.take(last));
        if rolls[last] < entries[last].chance {
            before.push(entries[last].item)
        } else {
            before
        }
    }
}

impl DropTable {
    /// The drops of one kill, given one roll per entry.
    pub fn drops_with_rolls(&self, rolls: &Vec<u32>) -> (r: Vec<Item>)
        requires
            rolls@.len() == self.entries@.len(),
        ensures
            r@ == dropped(self.entries@, rolls@),
    {
        let mut drops: Vec<Item> = Vec::new();
        let mut i: usize = 0;
        while i < self.entries.len()
            invariant
                i <= self.entries@.len(),
                rolls@.len() == self.entries@.len(),
                drops@ == dropped(self.entries@.take(i as int), rolls@.take(i as int)),
            decreases self.entries@.len() - i,
        {
            proof {
                assert(self.entries@.take(i + 1).take(i as int) =~= self.entries@.take(i as int));
                assert(rolls@.take(i + 1).take(i as int) =~= rolls@.take(i as int));
            }
            let entry = &self.entries[i];
            if rolls[i] < entry.chance {
                drops.push(entry.item.with_quantity(entry.item.quantity));
            }
            i = i + 1;
        }
        proof {
            assert(self.entries@.take(i as int) =~= self.entries@);
            assert(rolls@.take(i as int) =~= rolls@);
        }
        drops
    }

    /// The drops of one kill, each entry rolled at random.
    pub fn roll_drops(&self) -> (r: Vec<Item>)
        ensures
            exists|rolls: Seq<u32>| rolls.len() == self.entries@.len() && r@ == #[trigger] dropped(self.entries@, rolls),
    {
        let mut rolls: Vec<u32> = Vec::new();
        while rolls.len() < self.entries.len()
            invariant
                rolls@.len() <= self.entries@.len(),
            decreases self.entries@.len() - rolls@.len(),
        {
            rolls.push(random_in(0, 99));
        }
        self.drops_with_rolls(&rolls)
    }
}

/// The names of the items a goblin may drop, with their chances in percent.
pub open spec fn goblin_drop_names() -> Seq<(Seq<char>, u32)> {
    seq![
        ("Bones"@, 100u32),
        ("Bronze Sword"@, 5u32),
        ("Bronze Helmet"@, 5u32),
        ("Bronze Platebody"@, 5u32),
        ("Bronze Platelegs"@, 5u32),
        ("Bronze Axe"@, 10u32),
        ("Fishing Rod"@, 10u32),
        ("Fishing Bait"@, 25u32),
        ("Tinderbox"@, 10u32),
    ]
}

/// The names of the items a cow drops, with their chances in percent.
pub open spec fn cow_drop_names() -> Seq<(Seq<char>, u32)> {
    seq![("Raw beef"@, 100u32), ("Cow hide"@, 100u32), ("Bones"@, 100u32)]
}

/// Whether a drop table lists, in order, single unstackable items of these names
/// with these chances.
pub open spec fn table_matches(entries: Seq<DropTableEntry>, names: Seq<(Seq<char>, u32)>) -> bool {
    &&& entries.len() == names.len()
    &&& forall|i: int|
        0 <= i < entries.len() ==> (#[trigger] entries[i]).item.name@ == names[i].0 && entries[i].chance == names[i].1
            && entries[i].item.quantity == 1 && !entries[i].item.stackable
}

/// The drop table of a kind of creature, by item name and chance.
pub open spec fn drop_names(kind: EntityType) -> Seq<(Seq<char>, u32)> {
    match kind {
        EntityType::Goblin(_) => goblin_drop_names(),
        EntityType::Cow(_) => cow_drop_names(),
    }
}

/// A creature and its hit points.
#[derive(Debug)]
pub enum EntityType {
    Goblin(Combat),
    Cow(Combat),
}

impl EntityType {
    pub open spec fn spec_combat(&self) -> Combat {
        match self {
            EntityType::Goblin(c) => *c,
            EntityType::Cow(c) => *c,
        }
    }

    /// The creature's hit points.
    pub fn health(&self) -> (r: i32)
        ensures
            r == self.spec_combat().health,
    {
        match self {
            EntityType::Goblin(c) => c.health,
            EntityType::Cow(c) => c.health,
        }
    }

    /// The drop table of the kind of creature.
    pub fn get_drop_table(&self) -> (r: DropTable)
        ensures
            table_matches(r.entries@, drop_names(*self)),
    {
        let mut entries: Vec<DropTableEntry> = Vec::new();
        match self {
            EntityType::Goblin(_) => {
                entries.push(DropTableEntry { item: Item::bones(), chance: 100 });
                entries.push(DropTableEntry { item: Item::bronze_sword(), chance: 5 });
                entries.push(DropTableEntry { item: Item::bronze_helmet(), chance: 5 });
                entries.push(DropTableEntry { item: Item::bronze_platebody(), chance: 5 });
                entries.push(DropTableEntry { item: Item::bronze_platelegs(), chance: 5 });
                entries.push(DropTableEntry { item: Item::bronze_axe(), chance: 10 });
                entries.push(DropTableEntry { item: Item::fishing_rod(), chance: 10 });
                entries.push(DropTableEntry { item: Item::bait(), chance: 25 });
                entries.push(DropTableEntry { item: Item::tinderbox(), chance: 10 });
            },
            EntityType::Cow(_) => {
                entries.push(DropTableEntry { item: Item::raw_beef(), chance: 100 });
                entries.push(DropTableEntry { item: Item::cow_hide(), chance: 100 });
                entries.push(DropTableEntry { item: Item::bones(), chance: 100 });
            },
        }
        DropTable { entries }
    }
}

/// A creature in the world: where it stands, where it spawned, and its wandering.
pub struct Entity {
    pub x: i32,
    pub y: i32,
    pub entity_type: EntityType,
    /// Milliseconds until a slain creature comes back.
    pub respawn_timer: Option<i64>,
    pub spawn_x: i32,
    pub spawn_y: i32,
    /// Milliseconds until the creature next decides where to wander.
    pub movement_timer: i64,
    pub movement_target: Option<(i32, i32)>,
}

/// The hit points a creature of this kind starts, and comes back, with: ten for a
/// goblin, eight for a cow.
pub open spec fn initial_combat(kind: EntityType) -> Combat {
    match kind {
        EntityType::Goblin(_) => Combat { health: 10, max_health: 10 },
        EntityType::Cow(_) => Combat { health: 8, max_health: 8 },
    }
}

/// One coordinate moved toward `target` by at most `step`.
pub open spec fn approach(from: int, target: int, step: int) -> int {
    if target > from + step {
        from + step
    } else if target < from - step {
        from - step
    } else {
        target
    }
}

/// Moves the coordinate `from` toward `target` by at most `step` (see `approach`).
pub fn step_toward(from: i32, target: i32, step: i64) -> (r: i32)
    requires
        0 <= step <= i32::MAX,
    ensures
        r == approach(from as int, target as int, step as int),
{
    if target as i64 > from as i64 + step {
        (from as i64 + step) as i32
    } else if (target as i64) < from as i64 - step {
        (from as i64 - step) as i32
    } else {
        target
    }
}

impl Entity {
    pub open spec fn wf(&self) -> bool {
        self.entity_type.spec_combat().wf()
    }

    pub fn new_goblin(x: i32, y: i32) -> (r: Self)
        ensures
            r.wf(),
            r.x == x && r.y == y && r.spawn_x == x && r.spawn_y == y,
            r.entity_type matches EntityType::Goblin(c) && c.health == 10 && c.max_health == 10,
            r.respawn_timer is None,
    {
        Entity {
            x,
            y,
            entity_type: EntityType::Goblin(Combat::new(10)),
            respawn_timer: None,
            spawn_x: x,
            spawn_y: y,
            movement_timer: 0,
            movement_target: None,
        }
    }

    pub fn new_cow(x: i32, y: i32) -> (r: Self)
        ensures
            r.wf(),
            r.x == x && r.y == y && r.spawn_x == x && r.spawn_y == y,
            r.entity_type matches EntityType::Cow(c) && c.health == 8 && c.max_health == 8,
            r.respawn_timer is None,
    {
        Entity {
            x,
            y,
            entity_type: EntityType::Cow(Combat::new(8)),
            respawn_timer: None,
            spawn_x: x,
            spawn_y: y,
            movement_timer: 0,
            movement_target: None,
        }
    }

    /// Lets `dt` milliseconds pass. A slain creature waits out its respawn timer and then
    /// stands again, healed, where it spawned. A living one now and then picks a spot
    /// near its spawn point and ambles toward it.
    pub fn update(&mut self, dt: u32)
        requires
            old(self).wf(),
        ensures
            final(self).wf(),
            final(self).spawn_x == old(self).spawn_x && final(self).spawn_y == old(self).spawn_y,
            final(self).entity_type is Goblin <==> old(self).entity_type is Goblin,
            old(self).respawn_timer matches Some(t) ==> match tick(t as int, dt as int) {
                Some(rest) => final(self).respawn_timer == Some(rest as i64) && final(self).x == old(self).x
                    && final(self).y == old(self).y,
                None => {
                    &&& final(self).respawn_timer is None
                    &&& final(self).x == old(self).spawn_x && final(self).y == old(self).spawn_y
                    &&& final(self).entity_type.spec_combat() == initial_combat(old(self).entity_type)
                },
            },
            old(self).respawn_timer is None ==> final(self).respawn_timer is None
                && final(self).entity_type.spec_combat() == old(self).entity_type.spec_combat(),
    {
        if let Some(t) = self.respawn_timer {
            if t <= dt as i64 {
                self.respawn_timer = None;
                match &mut self.entity_type {
                    EntityType::Goblin(c) => {
                        *c = Combat::new(10);
                    },
                    EntityType::Cow(c) => {
                        *c = Combat::new(8);
                    },
                }
                self.x = self.spawn_x;
                self.y = self.spawn_y;
                self.movement_target = None;
            } else {
                self.respawn_timer = Some(t - dt as i64);
            }
            return;
        }
        if self.movement_timer <= dt as i64 {
            if random_in(0, 99) < 30 {
                let ox = random_in(0, 200) as i32 - 100;
                let oy = random_in(0, 200) as i32 - 100;
                self.movement_target = Some(
                    ((self.spawn_x as i64 + ox as i64) as i32, (self.spawn_y as i64 + oy as i64) as i32),
                );
            } else {
                self.movement_target = None;
            }
            self.movement_timer = random_in(2000, 5000) as i64;
        } else {
            self.movement_timer = self.movement_timer - dt as i64;
        }
        if let Some((tx, ty)) = self.movement_target {
            if self.x == tx && self.y == ty {
                self.movement_target = None;
            } else {
                let step: i64 = WANDER_SPEED * dt as i64 / 1000;
                self.x = step_toward(self.x, tx, step);
                self.y = step_toward(self.y, ty, step);
            }
        }
    }

    /// The drops of a kill of this creature.
    pub fn get_drops(&self) -> (r: Vec<Item>)
        ensures
            exists|entries: Seq<DropTableEntry>, rolls: Seq<u32>|
                table_matches(entries, drop_names(self.entity_type)) && rolls.len() == entries.len() && r@
                    == #[trigger] dropped(entries, rolls),
    {
        let table = self.entity_type.get_drop_table();
        let r = table.roll_drops();
        assert(table_matches(table.entries@, drop_names(self.entity_type)));
        r
    }

    /// What touching the creature yields: a cow always gives raw beef, a goblin bones
    /// half the time. `skills` is left as it is.
    pub fn interact(&self, skills: &mut Skills) -> (r: Option<Vec<Item>>)
        ensures
            *final(skills) == *old(skills),
            self.entity_type is Cow ==> (r matches Some(v) && v@.len() == 1 && v@[0].name@ == "Raw beef"@),
            self.entity_type is Goblin ==> (r is None || (r matches Some(v) && v@.len() == 1 && v@[0].name@
                == "Bones"@)),
    {
        match &self.entity_type {
            EntityType::Goblin(_) => {
                if random_in(0, 99) < 50 {
                    let mut v: Vec<Item> = Vec::new();
                    v.push(Item::bones());
                    Some(v)
                } else {
                    None
                }
            },
            EntityType::Cow(_) => {
                let mut v: Vec<Item> = Vec::new();
                v.push(Item::raw_beef());
                Some(v)
            },
        }
    }

    pub fn get_combat(&self) -> (r: Option<&Combat>)
        ensures
            r matches Some(c) && *c == self.entity_type.spec_combat(),
    {
        match &self.entity_type {
            EntityType::Goblin(combat) => Some(combat),
            EntityType::Cow(combat) => Some(combat),
        }
    }

    pub fn is_near(&self, x: i32, y: i32) -> (r: bool)
        ensures
            r == within_range(self.x as int, self.y as int, x as int, y as int),
    {
        in_range(self.x, self.y, x, y)
    }

    /// A creature is alive while it has hit points and is not waiting to respawn.
    pub fn is_alive(&self) -> (r: bool)
        ensures
            r == (self.entity_type.spec_combat().health > 0 && self.respawn_timer is None),
    {
        match &self.entity_type {
            EntityType::Goblin(combat) => !combat.is_dead() && self.respawn_timer.is_none(),
            EntityType::Cow(combat) => !combat.is_dead() && self.respawn_timer.is_none(),
        }
    }

    pub fn get_position(&self) -> (r: (i32, i32))
        ensures
            r == (self.x, self.y),
    {
        (self.x, self.y)
    }

    /// Deals `damage` to the creature, within its hit points.
    pub fn take_damage(&mut self, damage: i32)
        requires
            old(self).wf(),
        ensures
            final(self).wf(),
            final(self).x == old(self).x && final(self).y == old(self).y,
            final(self).respawn_timer == old(self).respawn_timer,
            final(self).entity_type is Goblin <==> old(self).entity_type is Goblin,
            final(self).entity_type.spec_combat().max_health == old(self).entity_type.spec_combat().max_health,
            final(self).entity_type.spec_combat().health == crate::combat::clamp(
                old(self).entity_type.spec_combat().health - damage,
                0,
                old(self).entity_type.spec_combat().max_health as int,
            ),
    {
        match &mut self.entity_type {
            EntityType::Goblin(c) => c.take_damage(damage),
            EntityType::Cow(c) => c.take_damage(damage),
        }
    }
}

} // verus!
