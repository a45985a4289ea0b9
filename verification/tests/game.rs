use dungeon_dice::dice::{Die, DieUpgrade};
use dungeon_dice::dungeon::room::Room;
use dungeon_dice::game::{wrap_cursor, GamePhase, GameState, UpgradeKind};
use dungeon_dice::random::thread_rng;
use dungeon_dice::relics::{AnyRelic, CursedChalice, LuckyHorseshoe, OneMoreRoll, ShieldOfTheAncients};
use dungeon_dice::scoring::ScoreCategory;

fn new_state() -> GameState {
    let mut rng = thread_rng();
    GameState::new(&mut rng)
}

#[test]
fn new_run_defaults() {
    let s = new_state();
    assert_eq!(s.hp, 30);
    assert_eq!(s.max_hp, 30);
    assert_eq!(s.gold, 0);
    assert_eq!(s.dice_pool.dice.len(), 5);
    assert_eq!(s.dice_pool.max_rolls, 3);
    assert_eq!(s.unlocked, vec![ScoreCategory::HighDie, ScoreCategory::Chance]);
    assert!(s.relics.is_empty());
    assert!(matches!(s.phase, GamePhase::Rolling));
    assert_eq!(s.dungeon.current_floor().floor_num, 1);
}

#[test]
fn damage_heal_and_game_over() {
    let mut s = new_state();
    s.take_damage(10);
    assert_eq!(s.hp, 20);
    s.heal(15);
    assert_eq!(s.hp, 30);
    s.take_damage(45);
    assert_eq!(s.hp, 0);
    assert!(matches!(s.phase, GamePhase::GameOver));
}

#[test]
fn relics_reduce_damage() {
    let mut s = new_state();
    s.acquire_relic(AnyRelic::LuckyHorseshoe(LuckyHorseshoe));
    s.take_damage(10);
    assert_eq!(s.hp, 25);

    let mut t = new_state();
    t.acquire_relic(AnyRelic::ShieldOfTheAncients(ShieldOfTheAncients::new()));
    t.take_damage(10);
    assert_eq!(t.hp, 30);
    t.take_damage(10);
    assert_eq!(t.hp, 20);
}

#[test]
fn gold_is_spent_only_when_available() {
    let mut s = new_state();
    s.earn_gold(25);
    assert!(!s.spend_gold(30));
    assert_eq!(s.gold, 25);
    assert!(s.spend_gold(25));
    assert_eq!(s.gold, 0);
}

#[test]
fn chalice_lowers_max_hp() {
    let mut s = new_state();
    s.acquire_relic(AnyRelic::CursedChalice(CursedChalice));
    assert_eq!(s.max_hp, 20);
    assert_eq!(s.hp, 20);
    assert_eq!(s.relics.len(), 1);
}

#[test]
fn begin_room_recomputes_rolls() {
    let mut s = new_state();
    s.acquire_relic(AnyRelic::OneMoreRoll(OneMoreRoll));
    s.begin_room();
    assert_eq!(s.dice_pool.max_rolls, 4);
    assert_eq!(s.dice_pool.rolls_remaining, 4);
    s.begin_room();
    assert_eq!(s.dice_pool.max_rolls, 4);
    assert!(s.used_this_room.is_empty());
}

#[test]
fn roll_spends_a_roll() {
    let mut s = new_state();
    assert!(s.roll());
    assert_eq!(s.dice_pool.rolls_remaining, 2);
    assert!(s.roll());
    assert!(s.roll());
    assert!(!s.roll());
}

#[test]
fn scoring_against_a_chosen_room() {
    let mut s = new_state();
    s.dungeon.current_floor_mut().choose_room(0);
    let target = match s.dungeon.current_floor().current_room() {
        Some(Room::Challenge(t)) | Some(Room::Elite(t)) => Some(t.required),
        _ => None,
    };
    s.score_category(ScoreCategory::Chance);
    assert_eq!(s.used_this_room, vec![ScoreCategory::Chance]);
    match target {
        Some(t) => match s.phase {
            GamePhase::Scored { score, target, success } => {
                assert_eq!(score, 5);
                assert_eq!(target, t);
                assert_eq!(success, t as usize <= 5);
            }
            _ => panic!("expected a scored phase"),
        },
        None => assert!(matches!(s.phase, GamePhase::Rolling)),
    }
}

#[test]
fn scoring_without_a_room_uses_the_boss_target() {
    let mut s = new_state();
    s.score_category(ScoreCategory::HighDie);
    assert!(s.used_this_room.is_empty());
    match s.phase {
        GamePhase::Scored { score, target, success } => {
            assert_eq!(score, 1);
            assert_eq!(target, 30);
            assert!(!success);
        }
        _ => panic!("expected a scored phase"),
    }
}

#[test]
fn unlocking_twice_adds_once() {
    let mut s = new_state();
    s.unlock_category(ScoreCategory::Yahtzee);
    s.unlock_category(ScoreCategory::Yahtzee);
    assert_eq!(
        s.unlocked,
        vec![ScoreCategory::HighDie, ScoreCategory::Chance, ScoreCategory::Yahtzee]
    );
}

#[test]
fn descend_moves_to_the_next_floor() {
    let mut s = new_state();
    let mut rng = thread_rng();
    s.defeat_boss();
    assert!(matches!(s.phase, GamePhase::CategoryUnlock));
    s.descend(&mut rng);
    assert_eq!(s.dungeon.current_floor().floor_num, 2);
    assert_eq!(s.dungeon.current_floor().step, 0);
}

#[test]
fn upgrade_die_applies_to_the_chosen_die() {
    let mut s = new_state();
    assert!(s.upgrade_die(1, DieUpgrade::Augment { face_index: 0 }));
    assert_eq!(s.dice_pool.dice[1].faces()[0].get_value(), 2);
    assert!(!s.upgrade_die(9, DieUpgrade::Reface));
    s.replace_die_at(0, Die::bones());
    assert_eq!(s.dice_pool.dice[0].label(), "D8");
}

#[test]
fn phase_cursors() {
    let mut p = GamePhase::Rest { cursor: 0 };
    p.set_cursor(2);
    assert!(matches!(p, GamePhase::Rest { cursor: 2 }));
    let mut d = GamePhase::UpgradeSelectDie {
        die_cursor: 0,
        kind: UpgradeKind::Augment,
        from_shop: false,
        pending_die: None,
    };
    d.cycle_die_cursor(false, 5);
    assert!(matches!(d, GamePhase::UpgradeSelectDie { die_cursor: 4, .. }));
    d.cycle_die_cursor(true, 5);
    assert!(matches!(d, GamePhase::UpgradeSelectDie { die_cursor: 0, .. }));
    assert_eq!(wrap_cursor(1, 2, true), 0);
    assert_eq!(wrap_cursor(0, 2, false), 1);
}

#[test]
fn scoring_selection_can_be_left() {
    let mut s = new_state();
    s.phase = GamePhase::Boss;
    s.begin_scoring();
    assert!(matches!(s.phase, GamePhase::SelectingCategory { cursor: 0, from_boss: true }));
    s.back_room();
    assert!(matches!(s.phase, GamePhase::Boss));
}

#[test]
fn losing_hp_keeps_the_extra_rolls() {
    let mut s = new_state();
    s.acquire_relic(AnyRelic::OneMoreRoll(OneMoreRoll));
    s.acquire_relic(AnyRelic::ShieldOfTheAncients(ShieldOfTheAncients::new()));
    s.take_damage(10);
    assert_eq!(s.hp, 30);
    s.take_damage(10);
    assert_eq!(s.hp, 20);
    s.begin_room();
    assert_eq!(s.dice_pool.max_rolls, 4);
    assert_eq!(s.dice_pool.rolls_remaining, 4);
}

#[test]
fn acquiring_the_extra_die_slot_adds_a_die() {
    let mut s = new_state();
    s.acquire_relic(AnyRelic::ExtraDieSlot(dungeon_dice::relics::ExtraDieSlot));
    assert_eq!(s.dice_pool.dice.len(), 6);
    assert_eq!(s.dice_pool.dice[5].label(), "D6");
    assert_eq!(s.relics.len(), 1);
    s.acquire_relic(AnyRelic::OneMoreRoll(OneMoreRoll));
    assert_eq!(s.dice_pool.dice.len(), 6);
}
