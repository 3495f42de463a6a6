use vstd::prelude::*;

verus! {

/// The closed set of skills, organized in a two-level hierarchy: a few
/// general skills (Melee, Ranged, HeavyWeapons, Athletics, Drive) each have
/// specializations; every other skill stands on its own.
#[derive(Copy, Clone, Debug, PartialEq, Hash, Eq, Structural)]
pub enum SkillType {
    // primary combat skills
    Melee,
    MeleeUnarmed,
    MeleeBlades,
    MeleeBludgeoning,
    Ranged,
    RangedOneHanded,
    RangedTwoHanded,
    // secondary combat skills
    Explosives,
    HeavyWeapons,
    HeavyWeaponsArtillery,
    HeavyWeaponsPortable,
    HeavyWeaponsVehicle,
    // primary social skills
    Broker,
    Persuade,
    Streetwise,
    // secondary social skills
    Deception,
    Leadership,
    Diplomat,
    // primary knowledge skills
    Electronics,
    Investigate,
    Mechanic,
    Medic,
    // secondary knowledge skills
    Admin,
    Advocate,
    Science,
    LanguageBasic,
    LanguageBinaricCant,
    LanguageOuterAsh,
    // primary misc skills
    Athletics,
    AthleticsDexterity,
    AthleticsEndurance,
    AthleticsStrength,
    Stealth,
    Survival,
    Recon,
    // secondary misc skills
    AnimalHandling,
    Carouse,
    Drive,
    DriveWheels,
    DriveWalker,
    DriveTracked,
    Gambler,
    Navigation,
    VaccSuit,
}

/// The general skill a specialization falls back to, if it has one.
pub open spec fn base_skill_of(skill: SkillType) -> Option<SkillType> {
    match skill {
        SkillType::MeleeUnarmed => Some(SkillType::Melee),
        SkillType::MeleeBlades => Some(SkillType::Melee),
        SkillType::MeleeBludgeoning => Some(SkillType::Melee),
        SkillType::RangedOneHanded => Some(SkillType::Ranged),
        SkillType::RangedTwoHanded => Some(SkillType::Ranged),
        SkillType::HeavyWeaponsArtillery => Some(SkillType::HeavyWeapons),
        SkillType::HeavyWeaponsPortable => Some(SkillType::HeavyWeapons),
        SkillType::HeavyWeaponsVehicle => Some(SkillType::HeavyWeapons),
        SkillType::AthleticsDexterity => Some(SkillType::Athletics),
        SkillType::AthleticsEndurance => Some(SkillType::Athletics),
        SkillType::AthleticsStrength => Some(SkillType::Athletics),
        SkillType::DriveWheels => Some(SkillType::Drive),
        SkillType::DriveWalker => Some(SkillType::Drive),
        SkillType::DriveTracked => Some(SkillType::Drive),
        _ => None,
    }
}

/// The map a sequence of (skill, level) pairs denotes when each pair is
/// inserted left to right, later entries overwriting earlier ones.
pub open spec fn entries_map(s: Seq<(SkillType, i32)>) -> Map<SkillType, int>
    decreases s.len(),
{
    if s.len() == 0 {
        Map::empty()
    } else {
        entries_map(s.drop_last()).insert(s.last().0, s.last().1 as int)
    }
}

/// One construction step: when the skill has a general parent that is not
/// yet in the table, the parent is first inserted at level 0; then the
/// entry itself is inserted.
pub open spec fn insert_skill(m: Map<SkillType, int>, skill: SkillType, level: int) -> Map<
    SkillType,
    int,
> {
    let with_base = match base_skill_of(skill) {
        Some(base) => if m.dom().contains(base) {
            m
        } else {
            m.insert(base, 0)
        },
        None => m,
    };
    with_base.insert(skill, level)
}

/// The table that a strict left-to-right fold of `insert_skill` over the
/// entries builds.
pub open spec fn table_of(entries: Seq<(SkillType, i32)>) -> Map<SkillType, int>
    decreases entries.len(),
{
    if entries.len() == 0 {
        Map::empty()
    } else {
        insert_skill(table_of(entries.drop_last()), entries.last().0, entries.last().1 as int)
    }
}

/// Resolution of a skill against a table: the skill's own level when it is
/// present; else 0 when its general parent is trained; else -3.
pub open spec fn dm_of(m: Map<SkillType, int>, skill: SkillType) -> int {
    if m.dom().contains(skill) {
        m[skill]
    } else {
        match base_skill_of(skill) {
            Some(base) => if m.dom().contains(base) {
                0
            } else {
                -3
            },
            None => -3,
        }
    }
}

/// All of the known skills of one character, with a proficiency level each.
pub struct Skills {
    known_skills: Vec<(SkillType, i32)>,
}

impl View for Skills {
    type V = Map<SkillType, int>;

    closed spec fn view(&self) -> Map<SkillType, int> {
        entries_map(self.known_skills@)
    }
}

impl Skills {
    /// Build the table from a list of (skill, level) pairs, applied strictly
    /// in input order; each specialization first guarantees that its general
    /// parent exists, at level 0, without overwriting an explicit entry.
    pub fn new(skills: Vec<(SkillType, i32)>) -> (r: Skills)
        ensures
            r@ == table_of(skills@),
    {
        let mut table = Skills { known_skills: Vec::new() };
        let n = skills.len();
        let mut i: usize = 0;
        while i < n
            invariant
                i <= n,
                n == skills.len(),
                table@ == table_of(skills@.take(i as int)),
            decreases n - i,
        {
            let pair = skills[i];
            let ghost prior = table.known_skills@;
            match Self::get_base_skill(pair.0) {
                Some(base) => {
                    if table.lookup(base).is_none() {
                        table.known_skills.push((base, 0));
                        proof {
                            assert(table.known_skills@.drop_last() =~= prior);
                        }
                    }
                },
                None => {},
            }
            let ghost with_base = table.known_skills@;
            table.known_skills.push(pair);
            proof {
                assert(table.known_skills@.drop_last() =~= with_base);
                assert(entries_map(with_base) == (match base_skill_of(pair.0) {
                    Some(base) => if table_of(skills@.take(i as int)).dom().contains(base) {
                        table_of(skills@.take(i as int))
                    } else {
                        table_of(skills@.take(i as int)).insert(base, 0)
                    },
                    None => table_of(skills@.take(i as int)),
                }));
                assert(entries_map(table.known_skills@) == insert_skill(
                    table_of(skills@.take(i as int)),
                    pair.0,
                    pair.1 as int,
                ));
                assert(skills@.take(i as int + 1).drop_last() =~= skills@.take(i as int));
                assert(skills@.take(i as int + 1).last() == skills@[i as int]);
            }
            i += 1;
        }
        proof {
            assert(skills@.take(n as int) =~= skills@);
        }
        table
    }

    /// The general skill a specialization falls back to, if it has one.
    fn get_base_skill(skill: SkillType) -> (r: Option<SkillType>)
        ensures
            r == base_skill_of(skill),
    {
        match skill {
            SkillType::MeleeUnarmed => Some(SkillType::Melee),
            SkillType::MeleeBlades => Some(SkillType::Melee),
            SkillType::MeleeBludgeoning => Some(SkillType::Melee),
            SkillType::RangedOneHanded => Some(SkillType::Ranged),
            SkillType::RangedTwoHanded => Some(SkillType::Ranged),
            SkillType::HeavyWeaponsArtillery => Some(SkillType::HeavyWeapons),
            SkillType::HeavyWeaponsPortable => Some(SkillType::HeavyWeapons),
            SkillType::HeavyWeaponsVehicle => Some(SkillType::HeavyWeapons),
            SkillType::AthleticsDexterity => Some(SkillType::Athletics),
            SkillType::AthleticsEndurance => Some(SkillType::Athletics),
            SkillType::AthleticsStrength => Some(SkillType::Athletics),
            SkillType::DriveWheels => Some(SkillType::Drive),
            SkillType::DriveWalker => Some(SkillType::Drive),
            SkillType::DriveTracked => Some(SkillType::Drive),
            _ => None,
        }
    }

    /// The stored level of a skill, if the skill is in the table.
    fn lookup(&self, skill: SkillType) -> (r: Option<i32>)
        ensures
            (r matches Some(level) ==> self@.dom().contains(skill) && self@[skill]
                == level as int),
            (r is None ==> !self@.dom().contains(skill)),
    {
        let mut found: Option<i32> = None;
        let n = self.known_skills.len();
        let mut i: usize = 0;
        while i < n
            invariant
                i <= n,
                n == self.known_skills.len(),
                (found matches Some(level) ==> entries_map(
                    self.known_skills@.take(i as int),
                ).dom().contains(skill) && entries_map(self.known_skills@.take(i as int))[skill]
                    == level as int),
                (found is None ==> !entries_map(self.known_skills@.take(i as int)).dom().contains(
                    skill,
                )),
            decreases n - i,
        {
            let pair = self.known_skills[i];
            proof {
                assert(self.known_skills@.take(i as int + 1).drop_last() =~= self.known_skills@.take(
                    i as int,
                ));
                assert(self.known_skills@.take(i as int + 1).last() == self.known_skills@[i as int]);
            }
            if pair.0 == skill {
                found = Some(pair.1);
            }
            i += 1;
        }
        proof {
            assert(self.known_skills@.take(n as int) =~= self.known_skills@);
        }
        found
    }

    /// The dice modifier the table grants for a skill: the skill's own level
    /// when trained, 0 for an untrained specialization of a trained general
    /// skill, and -3 with no related training at all.
    pub fn get_dm(&self, skill: SkillType) -> (r: i32)
        ensures
            r as int == dm_of(self@, skill),
    {
        match self.lookup(skill) {
            Some(level) => level,
            None => {
                match Self::get_base_skill(skill) {
                    Some(base) => {
                        if self.lookup(base).is_some() {
                            0
                        } else {
                            -3
                        }
                    },
                    None => -3,
                }
            },
        }
    }
}

/// The eight difficulty tiers of a check, in increasing order of target
/// number.
#[derive(Copy, Clone, Debug, PartialEq, Eq, Structural)]
pub enum CheckDifficulty {
    Simple,
    Easy,
    Routine,
    Average,
    Difficult,
    VeryDifficult,
    Formidable,
    Impossible,
}

/// An optional advantage or disadvantage on a roll: one extra die is
/// drawn, and the worst (Boon) or best (Bane) draw is dropped.
#[derive(Copy, Clone, Debug, PartialEq, Eq, Structural)]
pub enum BoonOrBane {
    Boon,
    Bane,
}

/// The outcome of a check, carrying the signed margin (the effect):
/// non-negative on success, negative on failure.
#[derive(Copy, Clone, Debug, PartialEq, Eq, Structural)]
pub enum RollResult {
    Success(i32),
    Failure(i32),
}

/// The fixed target number of each difficulty tier.
pub open spec fn target_of(difficulty: CheckDifficulty) -> int {
    match difficulty {
        CheckDifficulty::Simple => 2,
        CheckDifficulty::Easy => 4,
        CheckDifficulty::Routine => 6,
        CheckDifficulty::Average => 8,
        CheckDifficulty::Difficult => 10,
        CheckDifficulty::VeryDifficult => 12,
        CheckDifficulty::Formidable => 14,
        CheckDifficulty::Impossible => 16,
    }
}

/// Classification of an effect: a success exactly when it is at least zero,
/// the effect carried either way.
pub open spec fn outcome_of(effect: int) -> RollResult {
    if effect >= 0 {
        RollResult::Success(effect as i32)
    } else {
        RollResult::Failure(effect as i32)
    }
}

/// The outcome a given roll produces against a modifier and a difficulty.
pub open spec fn check_outcome(roll: int, dm: int, difficulty: CheckDifficulty) -> RollResult {
    outcome_of(roll + dm - target_of(difficulty))
}

/// The smallest of three draws.
pub open spec fn min3(d1: int, d2: int, d3: int) -> int {
    if d1 <= d2 && d1 <= d3 {
        d1
    } else if d2 <= d3 {
        d2
    } else {
        d3
    }
}

/// The largest of three draws.
pub open spec fn max3(d1: int, d2: int, d3: int) -> int {
    if d1 >= d2 && d1 >= d3 {
        d1
    } else if d2 >= d3 {
        d2
    } else {
        d3
    }
}

/// The roll three draws produce under a boon or bane: the sum of the draws
/// minus the lowest for a boon (keep the best two), minus the highest for a
/// bane (keep the worst two).
pub open spec fn kept_two(d1: int, d2: int, d3: int, boon_or_bane: BoonOrBane) -> int {
    match boon_or_bane {
        BoonOrBane::Boon => d1 + d2 + d3 - min3(d1, d2, d3),
        BoonOrBane::Bane => d1 + d2 + d3 - max3(d1, d2, d3),
    }
}

/// Relies on rand::random_range: a draw from the given range lies within it.
#[verifier::external_body]
fn roll_d6() -> (r: i32)
    ensures
        1 <= r <= 6,
{
    rand::random_range(1..=6)
}

/// The sum of two independent six-sided die draws.
pub fn roll_2d6() -> (r: i32)
    ensures
        2 <= r <= 12,
{
    roll_d6() + roll_d6()
}

/// The roll that three given draws yield under a boon or bane.
pub fn roll_3d6_from(d1: i32, d2: i32, d3: i32, boon_or_bane: BoonOrBane) -> (r: i32)
    requires
        1 <= d1 <= 6,
        1 <= d2 <= 6,
        1 <= d3 <= 6,
    ensures
        r as int == kept_two(d1 as int, d2 as int, d3 as int, boon_or_bane),
        2 <= r <= 12,
{
    let sum = d1 + d2 + d3;
    match boon_or_bane {
        BoonOrBane::Boon => {
            let lowest = if d1 <= d2 && d1 <= d3 {
                d1
            } else if d2 <= d3 {
                d2
            } else {
                d3
            };
            sum - lowest
        },
        BoonOrBane::Bane => {
            let highest = if d1 >= d2 && d1 >= d3 {
                d1
            } else if d2 >= d3 {
                d2
            } else {
                d3
            };
            sum - highest
        },
    }
}

/// Three six-sided die draws resolved under a boon or bane.
pub fn roll_3d6(boon_or_bane: BoonOrBane) -> (r: i32)
    ensures
        2 <= r <= 12,
        exists|d1: int, d2: int, d3: int|
            1 <= d1 <= 6 && 1 <= d2 <= 6 && 1 <= d3 <= 6 && r as int == #[trigger] kept_two(
                d1,
                d2,
                d3,
                boon_or_bane,
            ),
{
    let d1 = roll_d6();
    let d2 = roll_d6();
    let d3 = roll_d6();
    let r = roll_3d6_from(d1, d2, d3, boon_or_bane);
    proof {
        assert(r as int == kept_two(d1 as int, d2 as int, d3 as int, boon_or_bane));
    }
    r
}

/// Resolve a check for a roll already in hand: the effect is
/// roll + dm - target, and the result is a success exactly when the effect
/// is at least zero.
pub fn task_check_with_roll(dm: i32, check_difficulty: CheckDifficulty, roll: i32) -> (r:
    RollResult)
    requires
        i32::MIN <= roll + dm - target_of(check_difficulty) <= i32::MAX,
    ensures
        r == check_outcome(roll as int, dm as int, check_difficulty),
{
    let difficulty: i32 = match check_difficulty {
        CheckDifficulty::Simple => 2,
        CheckDifficulty::Easy => 4,
        CheckDifficulty::Routine => 6,
        CheckDifficulty::Average => 8,
        CheckDifficulty::Difficult => 10,
        CheckDifficulty::VeryDifficult => 12,
        CheckDifficulty::Formidable => 14,
        CheckDifficulty::Impossible => 16,
    };
    let effect_wide: i64 = roll as i64 + dm as i64 - difficulty as i64;
    let effect: i32 = effect_wide as i32;
    if effect >= 0 {
        RollResult::Success(effect)
    } else {
        RollResult::Failure(effect)
    }
}

/// Resolve a check by rolling the dice: two dice, or three with an extreme
/// dropped under a boon or bane. Whatever the dice give, the roll lies in
/// 2..=12 and the outcome classifies roll + dm - target by its sign.
pub fn task_check(dm: i32, check_difficulty: CheckDifficulty, boon_or_bane: Option<
    BoonOrBane,
>) -> (r: RollResult)
    requires
        i32::MIN + 14 <= dm <= i32::MAX - 10,
    ensures
        exists|roll: int|
            2 <= roll <= 12 && r == #[trigger] check_outcome(roll, dm as int, check_difficulty),
        (r matches RollResult::Success(effect) ==> effect >= 0),
        (r matches RollResult::Failure(effect) ==> effect < 0),
{
    let roll = match boon_or_bane {
        Some(bb) => roll_3d6(bb),
        None => roll_2d6(),
    };
    let r = task_check_with_roll(dm, check_difficulty, roll);
    proof {
        assert(r == check_outcome(roll as int, dm as int, check_difficulty));
    }
    r
}

/// With no entries at all, every skill resolves to the untrained -3.
pub proof fn lemma_empty_table_dm(skill: SkillType)
    ensures
        dm_of(table_of(Seq::empty()), skill) == -3,
{
    assert(!table_of(Seq::empty()).dom().contains(skill));
    if let Some(base) = base_skill_of(skill) {
        assert(!table_of(Seq::empty()).dom().contains(base));
    }
}

} // verus!
