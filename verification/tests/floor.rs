use dungeon_dice::dungeon::room::{BossRoom, Debuff, Room, ScoreTarget};
use dungeon_dice::dungeon::{Dungeon, Floor};
use dungeon_dice::random::thread_rng;
use dungeon_dice::scoring::ScoreCategory;

fn test_target() -> ScoreTarget {
    ScoreTarget { required: 10, reward_gold: 5, current: 10 }
}

// A 2-step floor for deterministic Floor-navigation tests (no RNG involved).
fn test_floor() -> Floor {
    Floor {
        floor_num: 1,
        room_choices: vec![
            [Room::Challenge(test_target()), Room::Rest],
            [Room::Rest, Room::Elite(test_target())],
        ],
        rooms_taken: vec![],
        boss: BossRoom {
            name: "Test Boss",
            target: test_target(),
            weakness: ScoreCategory::Chance,
            debuff: Debuff::OneDieForcedOne,
        },
        step: 0,
    }
}

// current_room()/current_room_mut(): None until a choice is made for the
// current step, then Some(the chosen option)
#[test]
fn test_current_room() {
    let mut floor = test_floor();
    assert!(floor.current_room().is_none());
    assert!(floor.current_room_mut().is_none());

    floor.choose_room(1);
    assert!(matches!(floor.current_room(), Some(Room::Rest)));
    assert!(matches!(floor.current_room_mut(), Some(Room::Rest)));
}

// advance(): increments step and returns true while step <= room_choices.len();
// false once step has moved past that
#[test]
fn test_advance() {
    let mut floor = test_floor();
    assert!(floor.advance()); // 0 -> 1
    assert!(floor.advance()); // 1 -> 2 (== room_choices.len(), boss step)
    assert!(floor.advance()); // 2 -> 3
    assert_eq!(floor.step, 3);

    assert!(!floor.advance());
    assert_eq!(floor.step, 3);
}

// boss_next(): true exactly when step == room_choices.len()
#[test]
fn test_boss_next() {
    let mut floor = test_floor();
    assert!(!floor.boss_next());

    floor.step = floor.room_choices.len();
    assert!(floor.boss_next());

    floor.step += 1;
    assert!(!floor.boss_next());
}

// choose_room(): appends the chosen index to rooms_taken
#[test]
fn test_choose() {
    let mut floor = test_floor();
    floor.choose_room(0);
    floor.choose_room(1);
    assert_eq!(floor.rooms_taken, vec![0, 1]);
}

// next_options(): Some(pair) for the current step, None once boss is next
#[test]
fn test_next_options() {
    let mut floor = test_floor();
    assert!(floor.next_options().is_some());

    floor.step = floor.room_choices.len();
    assert!(floor.next_options().is_none());
}

// Dungeon::new(): generates exactly floor 1, nothing further
#[test]
fn test_dungeon_new() {
    let mut rng = thread_rng();
    let dungeon = Dungeon::new(&mut rng);

    assert_eq!(dungeon.floor_count(), 1);
    assert_eq!(dungeon.current_floor_index(), 0);
    assert_eq!(dungeon.current_floor().floor_num, 1);
}

// current_floor_mut(): mutation is visible through current_floor()
#[test]
fn test_current_floor_mut() {
    let mut rng = thread_rng();
    let mut dungeon = Dungeon::new(&mut rng);

    dungeon.current_floor_mut().step = 2;
    assert_eq!(dungeon.current_floor().step, 2);
}

// descend(): lazily appends exactly one new floor and advances current_floor
#[test]
fn test_descend() {
    let mut rng = thread_rng();
    let mut dungeon = Dungeon::new(&mut rng);

    dungeon.descend(&mut rng);
    assert_eq!(dungeon.floor_count(), 2);
    assert_eq!(dungeon.current_floor_index(), 1);
    assert_eq!(dungeon.current_floor().floor_num, 2);

    dungeon.descend(&mut rng);
    assert_eq!(dungeon.floor_count(), 3);
    assert_eq!(dungeon.current_floor_index(), 2);
    assert_eq!(dungeon.current_floor().floor_num, 3);
}

// The chosen room is the option picked for the current step; an index
// outside the pair picks nothing.
#[test]
fn chosen_room_follows_step() {
    let mut floor = test_floor();
    floor.choose_room(0);
    assert!(matches!(floor.current_room(), Some(Room::Challenge(_))));
    floor.advance();
    assert!(floor.current_room().is_none());
    floor.choose_room(1);
    assert!(matches!(floor.current_room(), Some(Room::Elite(_))));
    if let Some(room) = floor.current_room_mut() {
        *room = Room::Rest;
    }
    assert!(matches!(floor.current_room(), Some(Room::Rest)));

    let mut other = test_floor();
    other.choose_room(2);
    assert!(other.current_room().is_none());
}

#[test]
fn room_short_forms_and_rewards() {
    assert_eq!(Room::Challenge(test_target()).short_form(), "C");
    assert_eq!(Room::Elite(test_target()).short_form(), "E");
    assert_eq!(Room::Rest.short_form(), "R");
    assert_eq!(Room::Challenge(test_target()).reward_gold(), 5);
    assert_eq!(Room::Rest.reward_gold(), 0);
}
