use dungeon_dice::dice::WILD;
use dungeon_dice::scoring::{calculate_for, ScoreCategory};

fn score(cat: ScoreCategory, dice: &[u8]) -> Option<usize> {
    calculate_for(&cat, dice)
}

// HighDie: max non-wild face; wilds are skipped
#[test]
fn test_high_die() {
    assert_eq!(score(ScoreCategory::HighDie, &[3, 1, 5, 2, 4]), Some(5));
    assert_eq!(score(ScoreCategory::HighDie, &[WILD, 3, WILD, WILD, WILD]), Some(3));
    assert_eq!(score(ScoreCategory::HighDie, &[WILD, WILD, WILD, WILD, WILD]), Some(0));
}

// Chance: sum all dice; wilds count as 6
#[test]
fn test_chance() {
    assert_eq!(score(ScoreCategory::Chance, &[1, 2, 3, 4, 5]), Some(15));
    assert_eq!(score(ScoreCategory::Chance, &[WILD, 1, 1, 1, 1]), Some(10));
}

// Upper section (Ones-Sixes): count matching faces + bonus at 3/4+; wilds boost count
#[test]
fn test_upper_section() {
    assert_eq!(score(ScoreCategory::Fives, &[5, 5, 5, 1, 2]), Some(25));
    assert_eq!(score(ScoreCategory::Sixes, &[6, WILD, 1, 2, 3]), Some(12));
    assert_eq!(score(ScoreCategory::Fours, &[1, 2, 3, 5, 6]), Some(0));
}

// FullHouse: wilds fill slots; impossible yields None
#[test]
fn test_fullhouse() {
    assert_eq!(score(ScoreCategory::FullHouse, &[5, 5, 5, 3, 3]), Some(46));
    assert_eq!(score(ScoreCategory::FullHouse, &[4, 4, 4, 6, WILD]), Some(49));
    assert_eq!(score(ScoreCategory::FullHouse, &[1, 2, 3, 4, 5]), None);
}

// Straights: wilds fill gaps; impossible yields None
#[test]
fn test_straights() {
    assert_eq!(score(ScoreCategory::SmallStraight, &[2, 3, 4, 5, 5]), Some(44));
    assert_eq!(score(ScoreCategory::LargeStraight, &[1, 2, 3, 4, 5]), Some(55));
    assert_eq!(score(ScoreCategory::SmallStraight, &[3, 5, 6, 1, WILD]), Some(48));
    assert_eq!(score(ScoreCategory::SmallStraight, &[1, 1, 6, 6, 6]), None);
}

// Yahtzee: all matching; wilds count; all-wilds scores as 6s; mixed yields None
#[test]
fn test_yahtzee() {
    assert_eq!(score(ScoreCategory::Yahtzee, &[4, 4, 4, 4, 4]), Some(120));
    assert_eq!(score(ScoreCategory::Yahtzee, &[3, 3, 3, 3, WILD]), Some(115));
    assert_eq!(score(ScoreCategory::Yahtzee, &[WILD, WILD, WILD, WILD, WILD]), Some(130));
    assert_eq!(score(ScoreCategory::Yahtzee, &[1, 2, 3, 4, 5]), None);
}

// Three Wild faces make a full house of 5s and 4s (5, 5, 5 and 4, 4): the
// search covers every pair of values, not only the highest three-of value.
#[test]
fn fullhouse_with_three_wilds_finds_the_best_pair() {
    assert_eq!(score(ScoreCategory::FullHouse, &[5, 4, WILD, WILD, WILD]), Some(15 + 8 + 25));
    assert_eq!(score(ScoreCategory::FullHouse, &[WILD, WILD, WILD, WILD, WILD]), Some(18 + 10 + 25));
}

// Four or more matching dice add the larger bonus.
#[test]
fn upper_section_four_bonus() {
    assert_eq!(score(ScoreCategory::Twos, &[2, 2, 2, WILD, 1]), Some(4 * 2 + 15));
    assert_eq!(score(ScoreCategory::Ones, &[1, 1, 1, 1, 1, 1]), Some(6 + 15));
}

// An augmented die above 6 raises the ceiling of straights and the high die.
#[test]
fn faces_above_six_extend_the_search() {
    assert_eq!(score(ScoreCategory::LargeStraight, &[4, 5, 6, 7, 8]), Some(30 + 40));
    assert_eq!(score(ScoreCategory::SmallStraight, &[7, WILD, WILD, WILD, 1]), Some(4 + 5 + 6 + 7 + 30));
    assert_eq!(score(ScoreCategory::HighDie, &[9, 2]), Some(9));
}

// An all-wild pool makes the highest standard straight.
#[test]
fn all_wild_straights() {
    assert_eq!(score(ScoreCategory::LargeStraight, &[WILD; 5]), Some(20 + 40));
    assert_eq!(score(ScoreCategory::SmallStraight, &[WILD; 3]), None);
}

// With no dice nothing but the plain sums can be made.
#[test]
fn empty_roll() {
    assert_eq!(score(ScoreCategory::Chance, &[]), Some(0));
    assert_eq!(score(ScoreCategory::Yahtzee, &[]), None);
    assert_eq!(score(ScoreCategory::FullHouse, &[]), None);
    assert_eq!(score(ScoreCategory::HighDie, &[]), Some(0));
}

#[test]
fn category_names() {
    assert_eq!(ScoreCategory::HighDie.display_name(), "Highest Die");
    assert_eq!(ScoreCategory::FullHouse.display_name(), "Full house");
    assert_eq!(ScoreCategory::SmallStraight.display_name(), "Small straight");
}

#[test]
fn order_of_the_dice_does_not_matter() {
    let rolls: [[u8; 5]; 4] = [[5, 4, 0, 0, 0], [2, 3, 4, 5, 0], [6, 6, 3, 3, 6], [1, 0, 1, 1, 8]];
    let all = [
        ScoreCategory::HighDie,
        ScoreCategory::Chance,
        ScoreCategory::Ones,
        ScoreCategory::Sixes,
        ScoreCategory::FullHouse,
        ScoreCategory::SmallStraight,
        ScoreCategory::LargeStraight,
        ScoreCategory::Yahtzee,
    ];
    for roll in rolls {
        let mut reversed = roll;
        reversed.reverse();
        let mut rotated = roll;
        rotated.rotate_left(2);
        for c in all {
            let a = calculate_for(&c, &roll);
            assert_eq!(a, calculate_for(&c, &reversed));
            assert_eq!(a, calculate_for(&c, &rotated));
        }
    }
}
