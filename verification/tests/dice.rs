use dungeon_dice::dice::{DicePool, Die, DieUpgrade, WILD};
use dungeon_dice::random::thread_rng;

fn face_values(d: &Die) -> Vec<u8> {
    d.faces().iter().map(|f| f.get_value()).collect()
}

#[test]
fn constructors_have_documented_faces() {
    assert_eq!(face_values(&Die::standard()), vec![1, 2, 3, 4, 5, 6]);
    assert_eq!(face_values(&Die::wild()), vec![1, 2, 3, 4, 5, WILD]);
    assert_eq!(face_values(&Die::cursed()), vec![1, 1, 1, 2, 5, 6]);
    assert_eq!(face_values(&Die::bones()), vec![1, 2, 3, 4, 5, 6, 7, 8]);
    assert_eq!(Die::standard().label(), "D6");
    assert_eq!(Die::wild().label(), "W6");
    assert_eq!(Die::cursed().label(), "C6");
    assert_eq!(Die::bones().label(), "D8");
}

#[test]
fn reface_copies_highest_over_lowest() {
    let mut d = Die::cursed();
    assert!(d.upgrade(DieUpgrade::Reface));
    assert_eq!(face_values(&d), vec![6, 1, 1, 2, 5, 6]);

    // the Wild face is neither the highest nor the lowest
    let mut w = Die::wild();
    assert!(w.upgrade(DieUpgrade::Reface));
    assert_eq!(face_values(&w), vec![5, 2, 3, 4, 5, WILD]);
}

#[test]
fn augment_and_enchant() {
    let mut d = Die::standard();
    assert!(d.upgrade(DieUpgrade::Augment { face_index: 2 }));
    assert_eq!(face_values(&d), vec![1, 2, 4, 4, 5, 6]);
    assert!(!d.upgrade(DieUpgrade::Augment { face_index: 6 }));
    assert_eq!(face_values(&d), vec![1, 2, 4, 4, 5, 6]);

    assert!(d.upgrade(DieUpgrade::Enchant { face_index: 0, bonus_score: 5 }));
    assert!(!d.upgrade(DieUpgrade::Enchant { face_index: 9, bonus_score: 5 }));
    let mut pool = DicePool::with_dice(vec![d], 3);
    pool.dice[0].current_value = pool.dice[0].faces()[0];
    assert_eq!(pool.enchant_bonus_total(), 5);
    pool.dice[0].current_value = pool.dice[0].faces()[1];
    assert_eq!(pool.enchant_bonus_total(), 0);
}

#[test]
fn display_values() {
    let mut d = Die::wild();
    assert_eq!(d.display_value(), "1");
    d.current_value = d.faces()[5];
    assert_eq!(d.display_value(), "W");
    let mut b = Die::bones();
    for _ in 0..9 {
        b.upgrade(DieUpgrade::Augment { face_index: 7 });
    }
    b.current_value = b.faces()[7];
    assert_eq!(b.display_value(), "17");
}

#[test]
fn roll_shows_one_of_the_faces() {
    let mut rng = thread_rng();
    let mut d = Die::cursed();
    for _ in 0..50 {
        let face = d.roll(&mut rng);
        assert!([1, 2, 5, 6].contains(&face.get_value()));
        assert_eq!(face.get_value(), d.current_value.get_value());
    }
}

#[test]
fn roll_once_spends_rolls_and_keeps_held_dice() {
    let mut pool = DicePool::new();
    assert_eq!(pool.rolls_remaining, 3);
    pool.dice[0].current_value = pool.dice[0].faces()[5];
    pool.toggle_hold(0);
    assert!(pool.dice[0].held);
    for _ in 0..3 {
        assert!(pool.can_roll());
        assert!(pool.roll_once());
        assert_eq!(pool.dice[0].current_value.get_value(), 6);
    }
    assert!(!pool.can_roll());
    assert!(!pool.roll_once());
    assert_eq!(pool.rolls_remaining, 0);

    pool.reset_for_room();
    assert_eq!(pool.rolls_remaining, 3);
    assert!(pool.dice.iter().all(|d| !d.held));
}

#[test]
fn toggle_hold_twice_is_identity_and_out_of_bounds_is_noop() {
    let mut pool = DicePool::new();
    pool.toggle_hold(1);
    pool.toggle_hold(1);
    assert!(pool.dice.iter().all(|d| !d.held));
    pool.toggle_hold(99);
    assert!(pool.dice.iter().all(|d| !d.held));
}

#[test]
fn values_clamp_bones_and_keep_wild() {
    let mut bones = Die::bones();
    bones.current_value = bones.faces()[7];
    let mut wild = Die::wild();
    wild.current_value = wild.faces()[5];
    let pool = DicePool::with_dice(vec![bones, wild, Die::standard()], 3);
    assert_eq!(pool.values(), vec![6, WILD, 1]);
}

#[test]
fn selection_cursor_wraps() {
    let mut pool = DicePool::new();
    pool.next_die();
    assert!(pool.dice[0].selected);
    pool.prev_die();
    assert!(pool.dice[4].selected);
    assert_eq!(pool.dice.iter().filter(|d| d.selected).count(), 1);
    pool.next_die();
    assert!(pool.dice[0].selected);
    pool.next_die();
    assert!(pool.dice[1].selected);
    pool.toggle_selected();
    assert!(pool.dice[1].held);
    pool.prev_die();
    assert!(pool.dice[0].selected);
    assert_eq!(pool.dice.iter().filter(|d| d.selected).count(), 1);
}

#[test]
fn pool_membership_changes() {
    let mut pool = DicePool::new();
    pool.add_die(Die::bones());
    assert_eq!(pool.dice.len(), 6);
    assert!(pool.remove_die(9).is_none());
    let removed = pool.remove_die(5).unwrap();
    assert_eq!(removed.label(), "D8");
    assert!(pool.has_standard_die());
    assert!(pool.replace_first_standard_die(Die::wild()));
    assert_eq!(pool.dice[0].label(), "W6");
    let old = pool.replace_die(1, Die::cursed()).unwrap();
    assert_eq!(old.label(), "D6");
    assert_eq!(pool.dice[1].label(), "C6");
    assert!(pool.replace_die(7, Die::cursed()).is_none());

    let mut specials = DicePool::with_dice(vec![Die::wild(), Die::bones()], 2);
    assert!(!specials.has_standard_die());
    assert!(!specials.replace_first_standard_die(Die::cursed()));
    assert_eq!(specials.dice[0].label(), "W6");
}

#[test]
fn show_face_shows_that_face() {
    let mut d = Die::bones();
    let f = d.show_face(7);
    assert_eq!(f.get_value(), 8);
    assert_eq!(d.current_value.get_value(), 8);
    assert_eq!(d.display_value(), "8");
    assert_eq!(d.faces().len(), 8);
}
