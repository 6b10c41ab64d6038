use vstd::prelude::*;

use crate::random::random_in;
use crate::skills::Skills;

verus! {

/// Hit points of one combatant.
#[derive(Debug, Clone, Copy)]
pub struct Combat {
    pub health: i32,
    pub max_health: i32,
}

/// `v` held to the range `[lo, hi]`.
pub open spec fn clamp(v: int, lo: int, hi: int) -> int {
    if v < lo {
        lo
    } else if v > hi {
        hi
    } else {
        v
    }
}

/// Chance to hit, in percent: fifty plus the attacker's attack level and bonus, less the
/// defender's defence level and bonus, and never under ten.
pub open spec fn hit_chance(attack_level: int, attack_bonus: int, defense_level: int, defense_bonus: int) -> int {
    let c = 50 + attack_level + attack_bonus - (defense_level + defense_bonus);
    if c < 10 {
        10
    } else {
        c
    }
}

/// Largest damage of one hit: one plus a tenth of the effective strength, rounded down.
pub open spec fn max_hit(strength_level: int, strength_bonus: int) -> int {
    1 + (strength_level + strength_bonus) / 10
}

/// What one attack does, given the roll for the hit (in `0..100`) and the roll for the
/// damage (in `1..=max_hit`).
pub open spec fn attack_outcome(chance: int, hit_roll: int, damage_roll: int) -> Option<int> {
    if hit_roll < chance {
        Some(damage_roll)
    } else {
        None
    }
}

/// The chance to hit never falls under ten percent, however strong the defence.
pub proof fn lemma_hit_chance_floor(attack_level: int, attack_bonus: int, defense_level: int, defense_bonus: int)
    ensures
        hit_chance(attack_level, attack_bonus, defense_level, defense_bonus) >= 10,
{
}

/// A hit roll under ten always lands, however large the defender's defence: the chance
/// never falls under ten percent.
pub proof fn lemma_low_roll_always_hits(
    attack_level: int,
    attack_bonus: int,
    defense_level: int,
    defense_bonus: int,
    hit_roll: int,
    damage_roll: int,
)
    requires
        0 <= hit_roll < 10,
    ensures
        attack_outcome(hit_chance(attack_level, attack_bonus, defense_level, defense_bonus), hit_roll, damage_roll)
            == Some(damage_roll),
{
}

/// With the damage roll drawn from one to the maximum hit, an attack either misses or
/// deals between one and the maximum hit.
pub proof fn lemma_damage_bounds(chance: int, hit_roll: int, damage_roll: int, strength_level: int, strength_bonus: int)
    requires
        0 <= strength_level + strength_bonus,
        1 <= damage_roll <= max_hit(strength_level, strength_bonus),
    ensures
        max_hit(strength_level, strength_bonus) >= 1,
        attack_outcome(chance, hit_roll, damage_roll) matches Some(d) ==> 1 <= d <= max_hit(
            strength_level,
            strength_bonus,
        ),
{
}

impl Combat {
    pub open spec fn wf(&self) -> bool {
        0 <= self.health <= self.max_health
    }

    pub fn new(max_health: i32) -> (r: Self)
        requires
            max_health >= 0,
        ensures
            r.health == max_health,
            r.max_health == max_health,
            r.wf(),
    {
        Combat { health: max_health, max_health }
    }

    pub fn is_dead(&self) -> (r: bool)
        ensures
            r == (self.health <= 0),
    {
        self.health <= 0
    }

    /// Loses `damage` hit points, never going under zero nor over the maximum.
    pub fn take_damage(&mut self, damage: i32)
        requires
            old(self).wf(),
        ensures
            final(self).max_health == old(self).max_health,
            final(self).health == clamp(old(self).health - damage, 0, old(self).max_health as int),
            final(self).wf(),
    {
        let h: i64 = self.health as i64 - damage as i64;
        self.health = if h < 0 {
            0
        } else if h > self.max_health as i64 {
            self.max_health
        } else {
            h as i32
        };
    }

    /// Gains `amount` hit points, never going over the maximum nor under zero.
    pub fn heal(&mut self, amount: i32)
        requires
            old(self).wf(),
        ensures
            final(self).max_health == old(self).max_health,
            final(self).health == clamp(old(self).health + amount, 0, old(self).max_health as int),
            final(self).wf(),
    {
        let h: i64 = self.health as i64 + amount as i64;
        self.health = if h < 0 {
            0
        } else if h > self.max_health as i64 {
            self.max_health
        } else {
            h as i32
        };
    }

    /// One attack roll of `attacker_skills` against `defender_skills`, with the
    /// attacker's equipment bonuses and the defender's defence bonus: `None` on a miss,
    /// else the damage, between one and the maximum hit.
    pub fn attack(
        &self,
        attacker_skills: &Skills,
        defender_skills: &Skills,
        attack_bonus: i32,
        strength_bonus: i32,
        defender_defense_bonus: i32,
    ) -> (r: Option<u8>)
        requires
            0 <= attacker_skills.strength.spec_level() + strength_bonus <= 2549,
        ensures
            r matches Some(d) ==> 1 <= d <= max_hit(
                attacker_skills.strength.spec_level(),
                strength_bonus as int,
            ),
            hit_chance(
                attacker_skills.attack.spec_level(),
                attack_bonus as int,
                defender_skills.defense.spec_level(),
                defender_defense_bonus as int,
            ) >= 100 ==> r is Some,
    {
        let chance = hit_chance_percent(
            attacker_skills.attack.get_level(),
            attack_bonus,
            defender_skills.defense.get_level(),
            defender_defense_bonus,
        );
        let top = max_hit_of(attacker_skills.strength.get_level(), strength_bonus);
        let hit_roll = random_in(0, 99);
        let damage_roll = if (hit_roll as i64) < chance {
            random_in(1, top as u32)
        } else {
            1
        };
        resolve_attack(chance, hit_roll, damage_roll, top)
    }
}

/// The chance to hit, in percent (see `hit_chance`).
pub fn hit_chance_percent(attack_level: u8, attack_bonus: i32, defense_level: u8, defense_bonus: i32) -> (r: i64)
    ensures
        r == hit_chance(attack_level as int, attack_bonus as int, defense_level as int, defense_bonus as int),
        r >= 10,
{
    let c: i64 = 50 + attack_level as i64 + attack_bonus as i64 - (defense_level as i64 + defense_bonus as i64);
    if c < 10 {
        10
    } else {
        c
    }
}

/// The largest damage of one hit (see `max_hit`).
pub fn max_hit_of(strength_level: u8, strength_bonus: i32) -> (r: i64)
    requires
        0 <= strength_level + strength_bonus <= 2549,
    ensures
        r == max_hit(strength_level as int, strength_bonus as int),
        1 <= r <= 255,
{
    1 + (strength_level as i64 + strength_bonus as i64) / 10
}

/// Settles one attack from its two rolls: a hit when the hit roll is under the chance,
/// and then the damage roll is the damage.
pub fn resolve_attack(chance: i64, hit_roll: u32, damage_roll: u32, top: i64) -> (r: Option<u8>)
    requires
        1 <= damage_roll <= top <= 255,
    ensures
        r matches Some(d) ==> Some(d as int) == attack_outcome(chance as int, hit_roll as int, damage_roll as int),
        r is None ==> attack_outcome(chance as int, hit_roll as int, damage_roll as int) is None,
{
    if (hit_roll as i64) < chance {
        Some(damage_roll as u8)
    } else {
        None
    }
}

} // verus!
