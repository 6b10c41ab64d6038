use vstd::prelude::*;

verus! {

/// The highest level a skill can reach.
pub const MAX_LEVEL: u8 = 99;

/// Experience gained between level `l` and level `l + 1`, for `l` in `1..=98`, at
/// index `l - 1`: the value `floor((l + 300 * 2^(l / 7)) / 4)` of the classic curve.
pub open spec fn xp_steps() -> Seq<u32> {
    seq![
        83u32, 91, 101, 112, 124, 137, 151, 167, 185, 204, 225, 249, 274, 303, 334,
        369, 408, 450, 496, 548, 605, 667, 737, 813, 897, 990, 1093, 1207, 1332, 1470,
        1622, 1791, 1977, 2182, 2408, 2658, 2934, 3239, 3576, 3947, 4357, 4810, 5310,
        5862, 6471, 7144, 7886, 8706, 9612, 10611, 11715, 12933, 14278, 15763, 17403,
        19214, 21212, 23419, 25856, 28546, 31516, 34795, 38415, 42413, 46826, 51699,
        57078, 63018, 69576, 76817, 84811, 93638, 103383, 114142, 126022, 139138,
        153619, 169607, 187260, 206750, 228268, 252027, 278259, 307221, 339197, 374502,
        413482, 456519, 504036, 556499, 614422, 678375, 748985, 826944, 913018,
        1008052, 1112977, 1228824
    ]
}

/// Total experience at which level `l` is reached (`0` for level 1).
pub open spec fn xp_for_level(l: int) -> int
    decreases l,
{
    if l <= 1 {
        0
    } else {
        xp_for_level(l - 1) + xp_steps()[l - 2] as int
    }
}

/// Walks the curve upward from level `l`: the first level whose successor is out of
/// reach of `exp`, capped at the maximum level.
pub open spec fn level_from(l: int, exp: int) -> int
    decreases 99 - l,
{
    if l >= 99 {
        99
    } else if exp < xp_for_level(l + 1) {
        l
    } else {
        level_from(l + 1, exp)
    }
}

/// The level that the curve gives to an experience total.
pub open spec fn level_for(exp: int) -> int {
    level_from(1, exp)
}

proof fn lemma_steps_positive()
    ensures
        forall|i: int| 0 <= i < 98 ==> xp_steps()[i] > 0,
{
}

proof fn lemma_xp_increasing(a: int, b: int)
    requires
        1 <= a < b <= 99,
    ensures
        xp_for_level(a) < xp_for_level(b),
    decreases b - a,
{
    lemma_steps_positive();
    if b > a + 1 {
        lemma_xp_increasing(a, b - 1);
    }
}

proof fn lemma_level_from(l: int, exp: int)
    requires
        1 <= l <= 99,
        xp_for_level(l) <= exp,
    ensures
        l <= level_from(l, exp) <= 99,
        xp_for_level(level_from(l, exp)) <= exp,
        level_from(l, exp) < 99 ==> exp < xp_for_level(level_from(l, exp) + 1),
    decreases 99 - l,
{
    if l < 99 && exp >= xp_for_level(l + 1) {
        lemma_level_from(l + 1, exp);
    }
}

/// Experience brings a skill to level `l` exactly when it reaches the total of the
/// curve for `l`: that total gives level `l`, and one point less gives level `l - 1`.
pub proof fn lemma_level_threshold(l: int)
    requires
        2 <= l <= 99,
    ensures
        level_for(xp_for_level(l)) == l,
        level_for(xp_for_level(l) - 1) == l - 1,
{
    lemma_xp_increasing(1, l);
    lemma_level_from(1, xp_for_level(l));
    lemma_level_from(1, xp_for_level(l) - 1);
    let m = level_for(xp_for_level(l));
    if m < l {
        if m + 1 < l {
            lemma_xp_increasing(m + 1, l);
        }
    } else if m > l {
        lemma_xp_increasing(l, m);
    }
    let k = level_for(xp_for_level(l) - 1);
    if k >= l {
        if k > l {
            lemma_xp_increasing(l, k);
        }
    } else if k + 1 < l {
        lemma_xp_increasing(k + 1, l);
    }
}

/// Adding no experience, once or twice, leaves the level where it was.
pub proof fn lemma_zero_experience_keeps_level(s: Skill)
    requires
        s.wf(),
    ensures
        level_for(s.spec_experience() + 0) == s.spec_level(),
        level_for(s.spec_experience() + 0 + 0) == s.spec_level(),
{
}

/// More experience never gives a lower level.
pub proof fn lemma_level_monotonic(e1: int, e2: int)
    requires
        0 <= e1 <= e2,
    ensures
        1 <= level_for(e1) <= level_for(e2) <= 99,
{
    lemma_level_from(1, e1);
    lemma_level_from(1, e2);
    let m1 = level_for(e1);
    let m2 = level_for(e2);
    if m1 > m2 {
        if m2 + 1 < m1 {
            lemma_xp_increasing(m2 + 1, m1);
        }
    }
}

/// One trained skill: its experience and the level derived from it.
#[derive(Debug, Clone, Copy)]
pub struct Skill {
    level: u8,
    experience: u32,
}

/// The player's skills.
#[derive(Debug, Clone, Copy)]
pub struct Skills {
    pub attack: Skill,
    pub strength: Skill,
    pub defense: Skill,
    pub woodcutting: Skill,
    pub firemaking: Skill,
    pub fishing: Skill,
    pub cooking: Skill,
}

impl Skill {
    pub closed spec fn spec_level(&self) -> int {
        self.level as int
    }

    pub closed spec fn spec_experience(&self) -> int {
        self.experience as int
    }

    /// The level always agrees with the experience.
    pub open spec fn wf(&self) -> bool {
        self.spec_level() == level_for(self.spec_experience())
    }

    pub fn new() -> (r: Self)
        ensures
            r.spec_experience() == 0,
            r.spec_level() == 1,
            r.wf(),
    {
        proof {
            assert(xp_for_level(1) == 0);
            assert(xp_for_level(2) == 83);
        }
        Skill { level: 1, experience: 0 }
    }

    pub fn get_level(&self) -> (r: u8)
        ensures
            r as int == self.spec_level(),
    {
        self.level
    }

    pub fn get_experience(&self) -> (r: u32)
        ensures
            r as int == self.spec_experience(),
    {
        self.experience
    }

    /// Adds experience and re-derives the level from the new total.
    pub fn add_experience(&mut self, exp: u32)
        requires
            old(self).spec_experience() + exp <= u32::MAX,
        ensures
            final(self).spec_experience() == old(self).spec_experience() + exp,
            final(self).spec_level() == level_for(final(self).spec_experience()),
            final(self).wf(),
    {
        self.experience = self.experience + exp;
        self.update_level();
    }

    fn update_level(&mut self)
        ensures
            final(self).spec_experience() == old(self).spec_experience(),
            final(self).spec_level() == level_for(old(self).spec_experience()),
    {
        let steps: [u32; 98] = [
            83, 91, 101, 112, 124, 137, 151, 167, 185, 204, 225, 249, 274, 303, 334,
            369, 408, 450, 496, 548, 605, 667, 737, 813, 897, 990, 1093, 1207, 1332,
            1470, 1622, 1791, 1977, 2182, 2408, 2658, 2934, 3239, 3576, 3947, 4357,
            4810, 5310, 5862, 6471, 7144, 7886, 8706, 9612, 10611, 11715, 12933, 14278,
            15763, 17403, 19214, 21212, 23419, 25856, 28546, 31516, 34795, 38415,
            42413, 46826, 51699, 57078, 63018, 69576, 76817, 84811, 93638, 103383,
            114142, 126022, 139138, 153619, 169607, 187260, 206750, 228268, 252027,
            278259, 307221, 339197, 374502, 413482, 456519, 504036, 556499, 614422,
            678375, 748985, 826944, 913018, 1008052, 1112977, 1228824
        ];
        assert(steps@ =~= xp_steps());
        let exp = self.experience as u64;
        let mut level: u8 = 1;
        let mut points: u64 = 0;
        while level < MAX_LEVEL
            invariant_except_break
                points == xp_for_level(level as int),
                points <= (level as int) * (u32::MAX as int),
            invariant
                1 <= level <= 99,
                steps@ == xp_steps(),
                exp == old(self).spec_experience(),
                level_from(level as int, exp as int) == level_for(exp as int),
            ensures
                level as int == level_for(exp as int),
            decreases 99 - level,
        {
            points = points + steps[(level - 1) as usize] as u64;
            if points > exp {
                break;
            }
            level = level + 1;
        }
        self.level = level;
    }
}

impl Skills {
    pub open spec fn wf(&self) -> bool {
        &&& self.attack.wf()
        &&& self.strength.wf()
        &&& self.defense.wf()
        &&& self.woodcutting.wf()
        &&& self.firemaking.wf()
        &&& self.fishing.wf()
        &&& self.cooking.wf()
    }

    /// Every skill at level 1 with no experience.
    pub open spec fn is_fresh(&self) -> bool {
        &&& self.attack.spec_experience() == 0 && self.attack.spec_level() == 1
        &&& self.strength.spec_experience() == 0 && self.strength.spec_level() == 1
        &&& self.defense.spec_experience() == 0 && self.defense.spec_level() == 1
        &&& self.woodcutting.spec_experience() == 0 && self.woodcutting.spec_level() == 1
        &&& self.firemaking.spec_experience() == 0 && self.firemaking.spec_level() == 1
        &&& self.fishing.spec_experience() == 0 && self.fishing.spec_level() == 1
        &&& self.cooking.spec_experience() == 0 && self.cooking.spec_level() == 1
    }

    pub fn new() -> (r: Self)
        ensures
            r.wf(),
            r.is_fresh(),
    {
        Skills {
            attack: Skill::new(),
            strength: Skill::new(),
            defense: Skill::new(),
            woodcutting: Skill::new(),
            firemaking: Skill::new(),
            fishing: Skill::new(),
            cooking: Skill::new(),
        }
    }

    pub fn gain_attack_xp(&mut self, amount: u32)
        requires
            old(self).attack.spec_experience() + amount <= u32::MAX,
        ensures
            final(self).attack.spec_experience() == old(self).attack.spec_experience() + amount,
            final(self).attack.wf(),
            final(self).strength == old(self).strength,
            final(self).defense == old(self).defense,
            final(self).woodcutting == old(self).woodcutting,
            final(self).firemaking == old(self).firemaking,
            final(self).fishing == old(self).fishing,
            final(self).cooking == old(self).cooking,
    {
        self.attack.add_experience(amount);
    }

    pub fn gain_strength_xp(&mut self, amount: u32)
        requires
            old(self).strength.spec_experience() + amount <= u32::MAX,
        ensures
            final(self).strength.spec_experience() == old(self).strength.spec_experience() + amount,
            final(self).strength.wf(),
            final(self).attack == old(self).attack,
            final(self).defense == old(self).defense,
            final(self).woodcutting == old(self).woodcutting,
            final(self).firemaking == old(self).firemaking,
            final(self).fishing == old(self).fishing,
            final(self).cooking == old(self).cooking,
    {
        self.strength.add_experience(amount);
    }

    pub fn gain_defense_xp(&mut self, amount: u32)
        requires
            old(self).defense.spec_experience() + amount <= u32::MAX,
        ensures
            final(self).defense.spec_experience() == old(self).defense.spec_experience() + amount,
            final(self).defense.wf(),
            final(self).attack == old(self).attack,
            final(self).strength == old(self).strength,
            final(self).woodcutting == old(self).woodcutting,
            final(self).firemaking == old(self).firemaking,
            final(self).fishing == old(self).fishing,
            final(self).cooking == old(self).cooking,
    {
        self.defense.add_experience(amount);
    }

    pub fn gain_woodcutting_xp(&mut self, amount: u32)
        requires
            old(self).woodcutting.spec_experience() + amount <= u32::MAX,
        ensures
            final(self).woodcutting.spec_experience() == old(self).woodcutting.spec_experience() + amount,
            final(self).woodcutting.wf(),
            final(self).attack == old(self).attack,
            final(self).strength == old(self).strength,
            final(self).defense == old(self).defense,
            final(self).firemaking == old(self).firemaking,
            final(self).fishing == old(self).fishing,
            final(self).cooking == old(self).cooking,
    {
        self.woodcutting.add_experience(amount);
    }

    pub fn gain_firemaking_xp(&mut self, amount: u32)
        requires
            old(self).firemaking.spec_experience() + amount <= u32::MAX,
        ensures
            final(self).firemaking.spec_experience() == old(self).firemaking.spec_experience() + amount,
            final(self).firemaking.wf(),
            final(self).attack == old(self).attack,
            final(self).strength == old(self).strength,
            final(self).defense == old(self).defense,
            final(self).woodcutting == old(self).woodcutting,
            final(self).fishing == old(self).fishing,
            final(self).cooking == old(self).cooking,
    {
        self.firemaking.add_experience(amount);
    }

    pub fn gain_fishing_xp(&mut self, amount: u32)
        requires
            old(self).fishing.spec_experience() + amount <= u32::MAX,
        ensures
            final(self).fishing.spec_experience() == old(self).fishing.spec_experience() + amount,
            final(self).fishing.wf(),
            final(self).attack == old(self).attack,
            final(self).strength == old(self).strength,
            final(self).defense == old(self).defense,
            final(self).woodcutting == old(self).woodcutting,
            final(self).firemaking == old(self).firemaking,
            final(self).cooking == old(self).cooking,
    {
        self.fishing.add_experience(amount);
    }

    pub fn gain_cooking_xp(&mut self, amount: u32)
        requires
            old(self).cooking.spec_experience() + amount <= u32::MAX,
        ensures
            final(self).cooking.spec_experience() == old(self).cooking.spec_experience() + amount,
            final(self).cooking.wf(),
            final(self).attack == old(self).attack,
            final(self).strength == old(self).strength,
            final(self).defense == old(self).defense,
            final(self).woodcutting == old(self).woodcutting,
            final(self).firemaking == old(self).firemaking,
            final(self).fishing == old(self).fishing,
    {
        self.cooking.add_experience(amount);
    }
}

} // verus!
