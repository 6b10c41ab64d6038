use vstd::prelude::*;

use crate::inventory::{Item, ItemType, ToolType};
use crate::random::random_in;
use crate::skills::Skills;
use crate::world::usable_axe;

verus! {

/// The kinds of fixed things the world is built of.
#[derive(Debug, Clone, Copy, PartialEq, Eq, Structural)]
pub enum ObjectType {
    Wall,
    Tree,
    Water,
    Road,
    Fence,
    CastleWall,
    CastleDoor,
    CastleStairs,
    Bridge,
    Path,
    BankChest,
}

/// A fixed thing in the world, centred on `(x, y)`.
#[derive(Debug)]
pub struct WorldObject {
    pub x: i32,
    pub y: i32,
    pub width: i32,
    pub height: i32,
    pub object_type: ObjectType,
    pub blocks_movement: bool,
    pub health: u8,
    pub fallen: bool,
}

/// Width, height, whether it blocks movement, and health, of each kind of object.
pub open spec fn object_shape(t: ObjectType) -> (int, int, bool, int) {
    match t {
        ObjectType::Wall | ObjectType::CastleWall | ObjectType::Water => (40, 40, true, 255),
        ObjectType::Tree => (32, 32, true, 3),
        ObjectType::Fence => (40, 8, true, 255),
        _ => (40, 40, false, 255),
    }
}

/// Whether two boxes, each given by its centre and size, overlap. Coordinates are
/// doubled so that half sizes stay whole.
pub open spec fn boxes_overlap(ax: int, ay: int, aw: int, ah: int, bx: int, by: int, bw: int, bh: int) -> bool {
    &&& 2 * ax - aw < 2 * bx + bw
    &&& 2 * ax + aw > 2 * bx - bw
    &&& 2 * ay - ah < 2 * by + bh
    &&& 2 * ay + ah > 2 * by - bh
}

impl WorldObject {
    pub fn new(x: i32, y: i32, object_type: ObjectType) -> (r: Self)
        ensures
            r.x == x && r.y == y && r.object_type == object_type && !r.fallen,
            (r.width as int, r.height as int, r.blocks_movement, r.health as int) == object_shape(object_type),
    {
        let (width, height, blocks_movement, health) = match object_type {
            ObjectType::Wall | ObjectType::CastleWall | ObjectType::Water => (40, 40, true, 255),
            ObjectType::Tree => (32, 32, true, 3),
            ObjectType::Fence => (40, 8, true, 255),
            _ => (40, 40, false, 255),
        };
        WorldObject { x, y, width, height, object_type, blocks_movement, health, fallen: false }
    }

    /// Whether a box of `width` by `height` centred on `(x, y)` runs into this object.
    pub fn collides_with(&self, x: i32, y: i32, width: i32, height: i32) -> (r: bool)
        ensures
            r == (self.blocks_movement && boxes_overlap(
                self.x as int,
                self.y as int,
                self.width as int,
                self.height as int,
                x as int,
                y as int,
                width as int,
                height as int,
            )),
    {
        if !self.blocks_movement {
            return false;
        }
        let sx = 2 * self.x as i64;
        let sy = 2 * self.y as i64;
        let ox = 2 * x as i64;
        let oy = 2 * y as i64;
        sx - (self.width as i64) < ox + width as i64 && sx + (self.width as i64) > ox - width as i64 && sy
            - (self.height as i64) < oy + height as i64 && sy + (self.height as i64) > oy - height as i64
    }

    pub fn is_chopped(&self) -> (r: bool)
        ensures
            r == (self.object_type == ObjectType::Tree && self.health == 0),
    {
        matches!(self.object_type, ObjectType::Tree) && self.health == 0
    }

    /// Whether the player may chop this object: a standing tree, with an axe that suits
    /// the woodcutting level.
    pub fn try_chop(&mut self, skills: &Skills, axe: Option<&Item>) -> (r: bool)
        ensures
            *final(self) == *old(self),
            r == (old(self).object_type == ObjectType::Tree && old(self).health != 0 && !old(self).fallen && usable_axe(
                match axe {
                    Some(a) => Some(*a),
                    None => None,
                },
                skills.woodcutting.spec_level(),
            )),
    {
        if self.is_chopped() || !matches!(self.object_type, ObjectType::Tree) || self.fallen {
            return false;
        }
        if let Some(item) = axe {
            if let ItemType::Tool(ToolType::Axe { woodcutting_level }) = item.item_type {
                if skills.woodcutting.get_level() as u32 >= woodcutting_level {
                    return true;
                }
            }
        }
        false
    }

    /// Fells a tree, leaving a stump that can be walked over; other objects stay as
    /// they are.
    pub fn set_chopped(&mut self)
        ensures
            old(self).object_type == ObjectType::Tree ==> final(self).health == 0 && final(self).fallen
                && !final(self).blocks_movement,
            old(self).object_type != ObjectType::Tree ==> *final(self) == *old(self),
            final(self).x == old(self).x && final(self).y == old(self).y,
            final(self).object_type == old(self).object_type,
    {
        if matches!(self.object_type, ObjectType::Tree) {
            self.health = 0;
            self.fallen = true;
            self.blocks_movement = false;
        }
    }

    /// A random number of logs, from 1 to 35, for a felled tree; 0 otherwise.
    pub fn get_random_logs(&self) -> (r: u32)
        ensures
            (self.object_type == ObjectType::Tree && self.health == 0) ==> 1 <= r <= 35,
            !(self.object_type == ObjectType::Tree && self.health == 0) ==> r == 0,
    {
        if self.is_chopped() {
            random_in(1, 35)
        } else {
            0
        }
    }
}

impl ObjectType {
    pub fn get_sprite_name(&self) -> (r: &'static str)
        ensures
            r@ == match self {
                ObjectType::Wall => "wall"@,
                ObjectType::Tree => "tree"@,
                ObjectType::Water => "water"@,
                ObjectType::Road => "road"@,
                ObjectType::Fence => "fence"@,
                ObjectType::CastleWall => "castle_wall"@,
                ObjectType::CastleDoor => "castle_door"@,
                ObjectType::CastleStairs => "castle_stairs"@,
                ObjectType::Bridge => "bridge"@,
                ObjectType::Path => "path"@,
                ObjectType::BankChest => "bank_chest"@,
            },
    {
        match self {
            ObjectType::Wall => "wall",
            ObjectType::Tree => "tree",
            ObjectType::Water => "water",
            ObjectType::Road => "road",
            ObjectType::Fence => "fence",
            ObjectType::CastleWall => "castle_wall",
            ObjectType::CastleDoor => "castle_door",
            ObjectType::CastleStairs => "castle_stairs",
            ObjectType::Bridge => "bridge",
            ObjectType::Path => "path",
            ObjectType::BankChest => "bank_chest",
        }
    }
}

} // verus!
