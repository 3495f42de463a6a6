use rpg_rules::skills::{
    roll_2d6, roll_3d6, roll_3d6_from, task_check, task_check_with_roll, BoonOrBane,
    CheckDifficulty, RollResult, SkillType, Skills,
};

#[test]
fn specialization_parent_and_unrelated() {
    let table = Skills::new(vec![(SkillType::MeleeBlades, 2)]);
    assert_eq!(table.get_dm(SkillType::MeleeBlades), 2);
    assert_eq!(table.get_dm(SkillType::Melee), 0);
    assert_eq!(table.get_dm(SkillType::Ranged), -3);
}

#[test]
fn empty_table_gives_minus_three_for_any_skill() {
    let table = Skills::new(vec![]);
    assert_eq!(table.get_dm(SkillType::Melee), -3);
    assert_eq!(table.get_dm(SkillType::MeleeBlades), -3);
    assert_eq!(table.get_dm(SkillType::VaccSuit), -3);
    assert_eq!(table.get_dm(SkillType::Science), -3);
}

#[test]
fn explicit_parent_before_specialization_is_kept() {
    let table = Skills::new(vec![(SkillType::Melee, 1), (SkillType::MeleeBlades, 2)]);
    assert_eq!(table.get_dm(SkillType::Melee), 1);
    assert_eq!(table.get_dm(SkillType::MeleeBlades), 2);
}

#[test]
fn explicit_parent_after_specialization_wins() {
    let table = Skills::new(vec![(SkillType::MeleeBlades, 2), (SkillType::Melee, 1)]);
    assert_eq!(table.get_dm(SkillType::Melee), 1);
    assert_eq!(table.get_dm(SkillType::MeleeBlades), 2);
}

#[test]
fn later_entry_for_the_same_skill_overwrites() {
    let table = Skills::new(vec![(SkillType::Stealth, 1), (SkillType::Stealth, 3)]);
    assert_eq!(table.get_dm(SkillType::Stealth), 3);
}

#[test]
fn every_specialization_trains_its_parent() {
    let pairs = vec![
        (SkillType::MeleeUnarmed, SkillType::Melee),
        (SkillType::MeleeBludgeoning, SkillType::Melee),
        (SkillType::RangedOneHanded, SkillType::Ranged),
        (SkillType::RangedTwoHanded, SkillType::Ranged),
        (SkillType::HeavyWeaponsArtillery, SkillType::HeavyWeapons),
        (SkillType::HeavyWeaponsPortable, SkillType::HeavyWeapons),
        (SkillType::HeavyWeaponsVehicle, SkillType::HeavyWeapons),
        (SkillType::AthleticsDexterity, SkillType::Athletics),
        (SkillType::AthleticsEndurance, SkillType::Athletics),
        (SkillType::AthleticsStrength, SkillType::Athletics),
        (SkillType::DriveWheels, SkillType::Drive),
        (SkillType::DriveWalker, SkillType::Drive),
        (SkillType::DriveTracked, SkillType::Drive),
    ];
    for (specialization, parent) in pairs {
        let table = Skills::new(vec![(specialization, 4)]);
        assert_eq!(table.get_dm(specialization), 4);
        assert_eq!(table.get_dm(parent), 0);
    }
}

#[test]
fn roll_at_target_succeeds_with_zero_effect() {
    let result = task_check_with_roll(0, CheckDifficulty::Average, 8);
    assert_eq!(result, RollResult::Success(0));
}

#[test]
fn roll_one_below_target_fails_by_one() {
    let result = task_check_with_roll(0, CheckDifficulty::Average, 7);
    assert_eq!(result, RollResult::Failure(-1));
}

#[test]
fn each_difficulty_has_its_target_number() {
    let tiers = vec![
        (CheckDifficulty::Simple, 2),
        (CheckDifficulty::Easy, 4),
        (CheckDifficulty::Routine, 6),
        (CheckDifficulty::Average, 8),
        (CheckDifficulty::Difficult, 10),
        (CheckDifficulty::VeryDifficult, 12),
        (CheckDifficulty::Formidable, 14),
        (CheckDifficulty::Impossible, 16),
    ];
    for (tier, target) in tiers {
        assert_eq!(task_check_with_roll(0, tier, target), RollResult::Success(0));
        assert_eq!(task_check_with_roll(0, tier, target - 1), RollResult::Failure(-1));
    }
}

#[test]
fn dm_shifts_the_effect() {
    assert_eq!(task_check_with_roll(3, CheckDifficulty::Difficult, 9), RollResult::Success(2));
    assert_eq!(task_check_with_roll(-3, CheckDifficulty::Easy, 5), RollResult::Failure(-2));
}

#[test]
fn boon_drops_the_lowest_draw() {
    assert_eq!(roll_3d6_from(1, 4, 6, BoonOrBane::Boon), 10);
}

#[test]
fn bane_drops_the_highest_draw() {
    assert_eq!(roll_3d6_from(1, 4, 6, BoonOrBane::Bane), 5);
}

#[test]
fn dropped_draw_ties_and_orders() {
    assert_eq!(roll_3d6_from(6, 4, 1, BoonOrBane::Boon), 10);
    assert_eq!(roll_3d6_from(6, 4, 1, BoonOrBane::Bane), 5);
    assert_eq!(roll_3d6_from(3, 3, 3, BoonOrBane::Boon), 6);
    assert_eq!(roll_3d6_from(3, 3, 3, BoonOrBane::Bane), 6);
    assert_eq!(roll_3d6_from(2, 2, 5, BoonOrBane::Boon), 7);
    assert_eq!(roll_3d6_from(2, 2, 5, BoonOrBane::Bane), 4);
}

#[test]
fn plain_rolls_stay_in_range() {
    for _ in 0..200 {
        let roll = roll_2d6();
        assert!((2..=12).contains(&roll));
    }
}

#[test]
fn boon_and_bane_rolls_stay_in_range() {
    for _ in 0..200 {
        let boon = roll_3d6(BoonOrBane::Boon);
        assert!((2..=12).contains(&boon));
        let bane = roll_3d6(BoonOrBane::Bane);
        assert!((2..=12).contains(&bane));
    }
}

#[test]
fn task_check_outcome_matches_effect_sign() {
    for _ in 0..100 {
        match task_check(0, CheckDifficulty::Average, None) {
            RollResult::Success(effect) => assert!((0..=4).contains(&effect)),
            RollResult::Failure(effect) => assert!((-6..0).contains(&effect)),
        }
        match task_check(2, CheckDifficulty::Routine, Some(BoonOrBane::Boon)) {
            RollResult::Success(effect) => assert!((0..=8).contains(&effect)),
            RollResult::Failure(effect) => assert!((-2..0).contains(&effect)),
        }
    }
}

#[test]
fn overwhelming_modifier_decides_the_check() {
    for _ in 0..20 {
        assert!(matches!(
            task_check(100, CheckDifficulty::Impossible, None),
            RollResult::Success(_)
        ));
        assert!(matches!(
            task_check(-100, CheckDifficulty::Simple, Some(BoonOrBane::Bane)),
            RollResult::Failure(_)
        ));
    }
}

#[test]
fn default_attributes_drive_an_average_check() {
    let attrs = rpg_rules::attributes::Attributes::default();
    let dm = attrs
        .attribute(rpg_rules::attributes::AttributeType::Strength)
        .bonus();
    assert_eq!(dm, 0);
    let table = Skills::new(vec![(SkillType::AthleticsStrength, 1)]);
    let total = dm + table.get_dm(SkillType::AthleticsStrength);
    assert_eq!(task_check_with_roll(total, CheckDifficulty::Average, 7), RollResult::Success(0));
}
