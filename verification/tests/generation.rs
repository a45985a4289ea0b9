use std::collections::HashMap;

use dungeon_dice::dungeon::generation::{
    base_target, boss_for_floor, boss_target, challenge_target, elite_target, generate_floor,
    random_room, room_for_roll,
};
use dungeon_dice::dungeon::room::{BossRoom, Debuff, Room, ScoreTarget};
use dungeon_dice::random::thread_rng;
use dungeon_dice::scoring::ScoreCategory;

fn check_st(&st: &ScoreTarget, req_cur: u32, g: u32) {
    assert_eq!(st.required, req_cur);
    assert_eq!(st.current, req_cur);
    assert_eq!(st.reward_gold, g);
}

// Base target is computed correctly
#[test]
fn test_base_target() {
    assert_eq!(base_target(1, 2), 12);
    assert_eq!(base_target(1, 1), 11);
    assert_eq!(base_target(1, 0), 10);

    // Should have a minimum of 1
    assert_eq!(base_target(0, 0), 1);

    // Should have a maximum of u32::max
    assert_eq!(base_target(usize::MAX, usize::MAX), u32::MAX);
}

// Challenge targets are computed correctly
#[test]
fn test_challenge_target() {
    let mut challenge = challenge_target(1, 2);
    check_st(&challenge, base_target(1, 2), 25);
    challenge = challenge_target(usize::MAX, usize::MAX);
    check_st(&challenge, base_target(usize::MAX, usize::MAX), 25);
}

// Elite targets are computed correctly: half as much again as the base
// target, at most u32::MAX
#[test]
fn test_elite_target() {
    let mut elite = elite_target(1, 2);
    check_st(&elite, elite_of(base_target(1, 2)), 50);
    assert_eq!(elite.required, 18);

    elite = elite_target(usize::MAX, usize::MAX);
    check_st(&elite, elite_of(base_target(usize::MAX, usize::MAX)), 50);
    assert_eq!(elite.required, u32::MAX);
}

/// base * 3 / 2 in wide arithmetic, capped at u32::MAX.
fn elite_of(base: u32) -> u32 {
    ((base as u64) * 3 / 2).min(u32::MAX as u64) as u32
}

// Boss targets are computed correctly
#[test]
fn test_boss_target() {
    let mut boss = boss_target(1);
    check_st(&boss, base_target(1, 5).saturating_mul(2), 0);
    boss = boss_target(usize::MAX);
    check_st(&boss, base_target(usize::MAX, 5).saturating_mul(2), 0);
}

// boss_for_floor(): floors 1-5 map to their hardcoded name/weakness/debuff
#[test]
fn test_boss_for_floor() {
    assert_eq!(
        boss_for_floor(1),
        BossRoom {
            name: "Rat King",
            target: boss_target(1),
            weakness: ScoreCategory::Chance,
            debuff: Debuff::OneDieForcedOne,
        }
    );
    assert_eq!(
        boss_for_floor(2),
        BossRoom {
            name: "Stone Golem",
            target: boss_target(2),
            weakness: ScoreCategory::Sixes,
            debuff: Debuff::ExtraHpPerOne(2),
        }
    );
    assert_eq!(
        boss_for_floor(3),
        BossRoom {
            name: "Goblin King",
            target: boss_target(3),
            weakness: ScoreCategory::FullHouse,
            debuff: Debuff::ReducedRolls(2),
        }
    );
    assert_eq!(
        boss_for_floor(4),
        BossRoom {
            name: "Dark Wizard",
            target: boss_target(4),
            weakness: ScoreCategory::SmallStraight,
            debuff: Debuff::LockedDie,
        }
    );
    assert_eq!(
        boss_for_floor(5),
        BossRoom {
            name: "The Dragon",
            target: boss_target(5),
            weakness: ScoreCategory::Yahtzee,
            debuff: Debuff::DoubleTarget,
        }
    );
}

// random_room(): distribution roughly matches the documented 55/20/25 weights,
// and Challenge/Elite carry the correct target for their floor/room
#[test]
fn test_random_room_distribution() {
    let mut rng = thread_rng();
    let mut counts: HashMap<&str, u32> = HashMap::new();
    let trials = 10_000;

    for _ in 0..trials {
        let key = match random_room(2, 1, &mut rng) {
            Room::Challenge(t) => {
                assert_eq!(t, challenge_target(2, 1));
                "challenge"
            }
            Room::Elite(t) => {
                assert_eq!(t, elite_target(2, 1));
                "elite"
            }
            Room::Rest => "rest",
        };
        *counts.entry(key).or_insert(0) += 1;
    }

    let pct = |key| *counts.get(key).unwrap_or(&0) as f64 / trials as f64;
    assert!((pct("challenge") - 0.55).abs() < 0.05, "{:?}", counts);
    assert!((pct("elite") - 0.20).abs() < 0.05, "{:?}", counts);
    assert!((pct("rest") - 0.25).abs() < 0.05, "{:?}", counts);
}

// generate_floor(): 5 room-choice pairs, no rooms taken yet, starts at step 0,
// boss matches boss_for_floor() for that floor
#[test]
fn test_generate_floor_layout() {
    let mut rng = thread_rng();
    let floor = generate_floor(3, &mut rng);

    assert_eq!(floor.floor_num, 3);
    assert_eq!(floor.room_choices.len(), 5);
    assert!(floor.rooms_taken.is_empty());
    assert_eq!(floor.step, 0);
    assert_eq!(floor.boss, boss_for_floor(3));
}

// The weighted pool by draw: below 55 a Challenge, 55 to 74 an Elite room,
// 75 and up a Rest site.
#[test]
fn room_for_roll_boundaries() {
    assert_eq!(room_for_roll(1, 0, 0), Room::Challenge(challenge_target(1, 0)));
    assert_eq!(room_for_roll(1, 0, 54), Room::Challenge(challenge_target(1, 0)));
    assert_eq!(room_for_roll(1, 0, 55), Room::Elite(elite_target(1, 0)));
    assert_eq!(room_for_roll(1, 0, 74), Room::Elite(elite_target(1, 0)));
    assert_eq!(room_for_roll(1, 0, 75), Room::Rest);
    assert_eq!(room_for_roll(1, 0, 99), Room::Rest);
}

// Target scaling: floor * 10 + floor * room, elites half as much again,
// bosses double the room-5 target.
#[test]
fn target_formulas() {
    assert_eq!(base_target(3, 4), 42);
    assert_eq!(elite_target(3, 4).required, 63);
    assert_eq!(elite_target(1, 1).required, 16);
    assert_eq!(boss_target(2).required, 60);
    assert_eq!(boss_target(5).required, 150);
    // the sum saturates at u32::MAX rather than wrapping
    assert_eq!(base_target(1 << 32, 0), u32::MAX);
}

#[test]
fn base_target_saturates_before_narrowing() {
    assert_eq!(base_target(429_496_730, 0), u32::MAX);
    assert_eq!(base_target(1_000_000_000, 3), u32::MAX);
    assert_eq!(base_target(100, 100), 11_000);
}

#[test]
fn bosses_come_round_again_past_floor_five() {
    let sixth = boss_for_floor(6);
    assert_eq!(sixth.name, "Rat King");
    assert_eq!(sixth.weakness, ScoreCategory::Chance);
    assert_eq!(sixth.target, boss_target(6));
    assert_eq!(boss_target(6).required, 180);
    let tenth = boss_for_floor(10);
    assert_eq!(tenth.name, "The Dragon");
    assert_eq!(tenth.debuff, Debuff::DoubleTarget);
    assert_eq!(tenth.target, boss_target(10));
    let floor = generate_floor(7, &mut thread_rng());
    assert_eq!(floor.boss, boss_for_floor(7));
    assert_eq!(floor.boss.name, "Stone Golem");
}
