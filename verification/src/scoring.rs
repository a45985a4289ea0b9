//! Scoring categories and score calculation.
//!
//! The calculation takes only the dice values, so it is a pure function of
//! them. Wild dice (value `WILD`) stand for whichever value gives the best
//! score in each category independently.
//!
//! The dice are tallied in a table with one slot per `u8` value rather than
//! in a hash map from value to count: every value has its slot, so a lookup
//! is an index that cannot miss, the table's view is the count function
//! itself, and no key model or hashing has to be reasoned about.

use vstd::prelude::*;

use crate::dice::WILD;

verus! {

// ─── ScoreCategory ────────────────────────────────────────────────────────────

#[derive(Debug, Clone, Copy, PartialEq, Eq, Hash, Structural)]
pub enum ScoreCategory {
    HighDie,
    Chance,
    Ones,
    Twos,
    Threes,
    Fours,
    Fives,
    Sixes,
    FullHouse,
    SmallStraight,
    LargeStraight,
    Yahtzee,
}

/// The name under which a category is shown to the player.
pub open spec fn category_name(c: ScoreCategory) -> Seq<char> {
    match c {
        ScoreCategory::HighDie => "Highest Die"@,
        ScoreCategory::Chance => "Chance"@,
        ScoreCategory::Ones => "Ones"@,
        ScoreCategory::Twos => "Twos"@,
        ScoreCategory::Threes => "Threes"@,
        ScoreCategory::Fours => "Fours"@,
        ScoreCategory::Fives => "Fives"@,
        ScoreCategory::Sixes => "Sixes"@,
        ScoreCategory::FullHouse => "Full house"@,
        ScoreCategory::SmallStraight => "Small straight"@,
        ScoreCategory::LargeStraight => "Large straight"@,
        ScoreCategory::Yahtzee => "Yahtzee"@,
    }
}

impl ScoreCategory {
    /// The name under which the category is shown to the player.
    pub fn display_name(&self) -> (s: &'static str)
        ensures
            s@ == category_name(*self),
    {
        match self {
            ScoreCategory::HighDie => "Highest Die",
            ScoreCategory::Chance => "Chance",
            ScoreCategory::Ones => "Ones",
            ScoreCategory::Twos => "Twos",
            ScoreCategory::Threes => "Threes",
            ScoreCategory::Fours => "Fours",
            ScoreCategory::Fives => "Fives",
            ScoreCategory::Sixes => "Sixes",
            ScoreCategory::FullHouse => "Full house",
            ScoreCategory::SmallStraight => "Small straight",
            ScoreCategory::LargeStraight => "Large straight",
            ScoreCategory::Yahtzee => "Yahtzee",
        }
    }
}

/// The face an upper-section category counts (`Ones` counts 1s, ...).
pub open spec fn upper_face(c: ScoreCategory) -> Option<u8> {
    match c {
        ScoreCategory::Ones => Some(1u8),
        ScoreCategory::Twos => Some(2u8),
        ScoreCategory::Threes => Some(3u8),
        ScoreCategory::Fours => Some(4u8),
        ScoreCategory::Fives => Some(5u8),
        ScoreCategory::Sixes => Some(6u8),
        _ => None,
    }
}

// ─── Model of a roll ──────────────────────────────────────────────────────────

/// The largest number of dice a score is computed for; beyond it the sums
/// could overflow a 32-bit `usize`.
pub const MAX_SCORED_DICE: usize = 16_777_215;

/// How many dice show `v`.
pub open spec fn count(dice: Seq<u8>, v: int) -> nat
    decreases dice.len(),
{
    if dice.len() == 0 {
        0
    } else {
        count(dice.drop_last(), v) + if dice.last() as int == v {
            1nat
        } else {
            0nat
        }
    }
}

/// How many dice show a Wild face.
pub open spec fn wilds(dice: Seq<u8>) -> nat {
    count(dice, WILD as int)
}

/// The highest non-wild value shown, 0 when every die is wild.
pub open spec fn max_non_wild(dice: Seq<u8>) -> nat
    decreases dice.len(),
{
    if dice.len() == 0 {
        0
    } else {
        let m = max_non_wild(dice.drop_last());
        let x = dice.last();
        if x != WILD && x as nat > m {
            x as nat
        } else {
            m
        }
    }
}

/// Sum of the dice, a Wild face counting as 6.
pub open spec fn chance_sum(dice: Seq<u8>) -> nat
    decreases dice.len(),
{
    if dice.len() == 0 {
        0
    } else {
        chance_sum(dice.drop_last()) + if dice.last() == WILD {
            6nat
        } else {
            dice.last() as nat
        }
    }
}

/// Upper-section score for `face`: every die showing it or a Wild face
/// counts `face`, plus 10 at three such dice and 15 at four or more.
pub open spec fn upper_score(dice: Seq<u8>, face: u8) -> nat {
    let n = wilds(dice) + count(dice, face as int);
    n * (face as nat) + if n >= 4 {
        15nat
    } else if n >= 3 {
        10nat
    } else {
        0nat
    }
}

/// The highest value a Wild face may stand for in a combination: the
/// highest face shown, and at least 6.
pub open spec fn search_max(dice: Seq<u8>) -> nat {
    if max_non_wild(dice) > 6 {
        max_non_wild(dice)
    } else {
        6
    }
}

/// How many Wild faces are needed to have `k` dice showing `v`.
pub open spec fn need(dice: Seq<u8>, v: int, k: nat) -> nat {
    if count(dice, v) >= k {
        0
    } else {
        (k - count(dice, v)) as nat
    }
}

/// Three of `a` and two of `b` can be shown, Wild faces filling the gaps.
pub open spec fn fullhouse_fits(dice: Seq<u8>, a: int, b: int) -> bool {
    &&& 1 <= a <= search_max(dice)
    &&& 1 <= b <= search_max(dice)
    &&& a != b
    &&& need(dice, a, 3) + need(dice, b, 2) <= wilds(dice)
}

/// Sum of the run `start .. start + k`.
pub open spec fn run_sum(start: int, k: nat) -> int
    decreases k,
{
    if k == 0 {
        0
    } else {
        run_sum(start, (k - 1) as nat) + start + k - 1
    }
}

/// Score of a full house of three `a` and two `b`.
pub open spec fn fullhouse_value(a: int, b: int) -> int {
    3 * a + 2 * b + 25
}

/// How many of the values `start .. start + k` no die shows.
pub open spec fn missing(dice: Seq<u8>, start: int, k: nat) -> nat
    decreases k,
{
    if k == 0 {
        0
    } else {
        missing(dice, start, (k - 1) as nat) + if count(dice, start + k - 1) == 0 {
            1nat
        } else {
            0nat
        }
    }
}

/// The run `start .. start + len` can be shown, Wild faces filling the gaps.
pub open spec fn straight_fits(dice: Seq<u8>, len: nat, start: int) -> bool {
    &&& 1 <= start
    &&& start + len - 1 <= search_max(dice)
    &&& missing(dice, start, len) <= wilds(dice)
}

/// Sum of the run `start .. start + len` plus the bonus.
pub open spec fn straight_value(len: nat, start: int, bonus: nat) -> int {
    run_sum(start, len) + bonus
}

/// Every die that is not wild shows the same value.
pub open spec fn all_alike(dice: Seq<u8>) -> bool {
    forall|i: int|
        0 <= i < dice.len() ==> (#[trigger] dice[i]) == WILD || dice[i] as nat == max_non_wild(
            dice,
        )
}

/// Yahtzee score: every die shows one value (Wild faces joining in; an all
/// wild pool counts as 6s): the number of dice times that value plus 100.
pub open spec fn yahtzee_score(dice: Seq<u8>) -> Option<nat> {
    if dice.len() > 0 && all_alike(dice) {
        let face = if max_non_wild(dice) == 0 {
            6
        } else {
            max_non_wild(dice)
        };
        Some(dice.len() * face + 100)
    } else {
        None
    }
}

/// `r` is the best value of `fits` over the candidates, or `None` when no
/// candidate fits; stated for the full house.
pub open spec fn best_fullhouse(dice: Seq<u8>, r: Option<usize>) -> bool {
    match r {
        None => forall|a: int, b: int| !fullhouse_fits(dice, a, b),
        Some(s) => {
            &&& exists|a: int, b: int| fullhouse_fits(dice, a, b) && s == fullhouse_value(a, b)
            &&& forall|a: int, b: int| fullhouse_fits(dice, a, b) ==> fullhouse_value(a, b) <= s
        },
    }
}

/// `r` is the best straight of `len` dice plus `bonus`, or `None` when no
/// such straight can be shown.
pub open spec fn best_straight(dice: Seq<u8>, len: nat, bonus: nat, r: Option<usize>) -> bool {
    match r {
        None => forall|s: int| !straight_fits(dice, len, s),
        Some(v) => {
            &&& exists|s: int| straight_fits(dice, len, s) && v == straight_value(len, s, bonus)
            &&& forall|s: int| straight_fits(dice, len, s) ==> straight_value(len, s, bonus) <= v
        },
    }
}

/// `r` is the score of the dice in `category`: the maximum the category can
/// give, Wild faces standing for the best value each time.
pub open spec fn is_category_score(category: ScoreCategory, dice: Seq<u8>, r: Option<usize>) -> bool {
    match category {
        ScoreCategory::HighDie => r == Some(max_non_wild(dice) as usize),
        ScoreCategory::Chance => r == Some(chance_sum(dice) as usize),
        ScoreCategory::FullHouse => best_fullhouse(dice, r),
        ScoreCategory::SmallStraight => best_straight(dice, 4, 30, r),
        ScoreCategory::LargeStraight => best_straight(dice, 5, 40, r),
        ScoreCategory::Yahtzee => r == match yahtzee_score(dice) {
            Some(v) => Some(v as usize),
            None => None::<usize>,
        },
        _ => r == Some(upper_score(dice, upper_face(category).unwrap()) as usize),
    }
}

// ─── Laws ─────────────────────────────────────────────────────────────────────

/// How a die joins the running maximum of non-wild values.
spec fn max_step(m: nat, x: u8) -> nat {
    if x != WILD && x as nat > m {
        x as nat
    } else {
        m
    }
}

/// What a die adds to the sum of Chance.
spec fn chance_value(x: u8) -> nat {
    if x == WILD {
        6
    } else {
        x as nat
    }
}

/// Taking any one die out of the roll: the counts, the sum and the maximum
/// are those of the rest, with that die added back.
proof fn lemma_remove_die(s: Seq<u8>, i: int)
    requires
        0 <= i < s.len(),
    ensures
        forall|v: int|
            #[trigger] count(s, v) == count(s.remove(i), v) + if s[i] as int == v {
                1nat
            } else {
                0nat
            },
        chance_sum(s) == chance_sum(s.remove(i)) + chance_value(s[i]),
        max_non_wild(s) == max_step(max_non_wild(s.remove(i)), s[i]),
    decreases s.len(),
{
    if i == s.len() - 1 {
        assert(s.remove(i) =~= s.drop_last());
    } else {
        let init = s.drop_last();
        lemma_remove_die(init, i);
        assert(s.remove(i).drop_last() =~= init.remove(i));
        assert(s.remove(i).last() == s.last());
        assert(init[i] == s[i]);
        assert forall|v: int|
            #[trigger] count(s, v) == count(s.remove(i), v) + if s[i] as int == v {
                1nat
            } else {
                0nat
            } by {
            assert(count(init, v) == count(init.remove(i), v) + if s[i] as int == v {
                1nat
            } else {
                0nat
            });
        }
    }
}

/// Two rolls holding the same dice in any order have the same length,
/// counts, Chance sum and highest non-wild value.
proof fn lemma_same_dice(p: Seq<u8>, q: Seq<u8>)
    requires
        p.to_multiset() == q.to_multiset(),
    ensures
        p.len() == q.len(),
        forall|v: int| #[trigger] count(p, v) == count(q, v),
        chance_sum(p) == chance_sum(q),
        max_non_wild(p) == max_non_wild(q),
    decreases p.len(),
{
    broadcast use vstd::seq_lib::group_to_multiset_ensures;
    broadcast use vstd::multiset::group_multiset_axioms;

    assert(p.len() == p.to_multiset().len());
    assert(q.len() == q.to_multiset().len());
    if p.len() > 0 {
        let x = p.last();
        let init = p.drop_last();
        assert(p =~= init.push(x));
        assert(p.to_multiset() == init.to_multiset().insert(x));
        assert(q.to_multiset().count(x) > 0);
        assert(q.contains(x));
        let j = choose|j: int| 0 <= j < q.len() && q[j] == x;
        let rest = q.remove(j);
        assert(rest.to_multiset() == q.to_multiset().remove(x));
        assert(rest.to_multiset() =~= init.to_multiset());
        lemma_same_dice(init, rest);
        lemma_remove_die(q, j);
        assert(p.remove(p.len() - 1) =~= init);
        lemma_remove_die(p, p.len() - 1);
        assert forall|v: int| #[trigger] count(p, v) == count(q, v) by {
            assert(count(init, v) == count(rest, v));
        }
    }
}

/// Some die of the roll shows `v` exactly when the count of `v` is not 0.
proof fn lemma_count_shown(s: Seq<u8>, v: int)
    ensures
        count(s, v) > 0 <==> exists|i: int| 0 <= i < s.len() && s[i] as int == v,
    decreases s.len(),
{
    if s.len() > 0 {
        let init = s.drop_last();
        lemma_count_shown(init, v);
        if count(init, v) > 0 {
            let i = choose|i: int| 0 <= i < init.len() && init[i] as int == v;
            assert(s[i] == init[i]);
        }
        if exists|i: int| 0 <= i < s.len() && s[i] as int == v {
            let i = choose|i: int| 0 <= i < s.len() && s[i] as int == v;
            if i < s.len() - 1 {
                assert(init[i] == s[i]);
            }
        }
    }
}

/// Two rolls holding the same dice agree on whether all dice are alike.
proof fn lemma_same_dice_alike(p: Seq<u8>, q: Seq<u8>)
    requires
        p.to_multiset() == q.to_multiset(),
    ensures
        all_alike(p) ==> all_alike(q),
{
    lemma_same_dice(p, q);
    if all_alike(p) {
        assert forall|i: int| 0 <= i < q.len() implies (#[trigger] q[i]) == WILD || q[i] as nat
            == max_non_wild(q) by {
            let v = q[i] as int;
            lemma_count_shown(q, v);
            lemma_count_shown(p, v);
            let k = choose|k: int| 0 <= k < p.len() && p[k] as int == v;
            assert(p[k] == WILD || p[k] as nat == max_non_wild(p));
        }
    }
}

/// How many of `start .. start + k` are missing depends only on the counts.
proof fn lemma_same_missing(p: Seq<u8>, q: Seq<u8>, start: int, k: nat)
    requires
        forall|v: int| #[trigger] count(p, v) == count(q, v),
    ensures
        missing(p, start, k) == missing(q, start, k),
    decreases k,
{
    if k > 0 {
        lemma_same_missing(p, q, start, (k - 1) as nat);
        assert(count(p, start + k - 1) == count(q, start + k - 1));
    }
}

proof fn lemma_fullhouse_transfer(p: Seq<u8>, q: Seq<u8>, r: Option<usize>)
    requires
        forall|a: int, b: int| #[trigger] fullhouse_fits(p, a, b) == fullhouse_fits(q, a, b),
        best_fullhouse(p, r),
    ensures
        best_fullhouse(q, r),
{
    match r {
        None => {
            assert forall|a: int, b: int| !fullhouse_fits(q, a, b) by {
                assert(!fullhouse_fits(p, a, b));
            }
        },
        Some(v) => {
            let (a, b) = choose|a: int, b: int| fullhouse_fits(p, a, b) && v == fullhouse_value(a, b);
            assert(fullhouse_fits(q, a, b));
            assert forall|x: int, y: int| fullhouse_fits(q, x, y) implies fullhouse_value(x, y)
                <= v by {
                assert(fullhouse_fits(p, x, y));
            }
        },
    }
}

proof fn lemma_straight_transfer(p: Seq<u8>, q: Seq<u8>, len: nat, bonus: nat, r: Option<usize>)
    requires
        forall|st: int| #[trigger] straight_fits(p, len, st) == straight_fits(q, len, st),
        best_straight(p, len, bonus, r),
    ensures
        best_straight(q, len, bonus, r),
{
    match r {
        None => {
            assert forall|st: int| !straight_fits(q, len, st) by {
                assert(!straight_fits(p, len, st));
            }
        },
        Some(v) => {
            let st = choose|st: int| straight_fits(p, len, st) && v == straight_value(len, st, bonus);
            assert(straight_fits(q, len, st));
            assert forall|x: int| straight_fits(q, len, x) implies straight_value(len, x, bonus)
                <= v by {
                assert(straight_fits(p, len, x));
            }
        },
    }
}

/// Reordering a roll never changes its score: the results that
/// `calculate_for` gives for two rolls with the same dice are equal.
pub proof fn law_reordered_roll_scores_same(
    category: ScoreCategory,
    p: Seq<u8>,
    q: Seq<u8>,
    rp: Option<usize>,
    rq: Option<usize>,
)
    requires
        p.to_multiset() == q.to_multiset(),
        is_category_score(category, p, rp),
        is_category_score(category, q, rq),
    ensures
        rp == rq,
{
    law_score_ignores_order(category, p, q, rp);
    law_category_score_unique(category, q, rp, rq);
}

/// The order of the dice does not matter: two rolls holding the same dice
/// score the same in every category.
pub proof fn law_score_ignores_order(
    category: ScoreCategory,
    p: Seq<u8>,
    q: Seq<u8>,
    r: Option<usize>,
)
    requires
        p.to_multiset() == q.to_multiset(),
    ensures
        is_category_score(category, p, r) <==> is_category_score(category, q, r),
{
    lemma_same_dice(p, q);
    lemma_same_dice_alike(p, q);
    lemma_same_dice_alike(q, p);
    assert forall|a: int, b: int|
        #[trigger] fullhouse_fits(p, a, b) == fullhouse_fits(q, a, b) by {
        assert(count(p, a) == count(q, a));
        assert(count(p, b) == count(q, b));
        assert(count(p, WILD as int) == count(q, WILD as int));
    }
    assert forall|st: int| #[trigger] straight_fits(p, 4, st) == straight_fits(q, 4, st) by {
        lemma_same_missing(p, q, st, 4);
        assert(count(p, WILD as int) == count(q, WILD as int));
    }
    assert forall|st: int| #[trigger] straight_fits(p, 5, st) == straight_fits(q, 5, st) by {
        lemma_same_missing(p, q, st, 5);
        assert(count(p, WILD as int) == count(q, WILD as int));
    }
    assert(wilds(p) == wilds(q));
    assert(all_alike(p) == all_alike(q));
    if best_fullhouse(p, r) {
        lemma_fullhouse_transfer(p, q, r);
    }
    if best_fullhouse(q, r) {
        lemma_fullhouse_transfer(q, p, r);
    }
    if best_straight(p, 4, 30, r) {
        lemma_straight_transfer(p, q, 4, 30, r);
    }
    if best_straight(q, 4, 30, r) {
        lemma_straight_transfer(q, p, 4, 30, r);
    }
    if best_straight(p, 5, 40, r) {
        lemma_straight_transfer(p, q, 5, 40, r);
    }
    if best_straight(q, 5, 40, r) {
        lemma_straight_transfer(q, p, 5, 40, r);
    }
    match category {
        ScoreCategory::HighDie => {},
        ScoreCategory::Chance => {},
        ScoreCategory::FullHouse => {},
        ScoreCategory::SmallStraight => {},
        ScoreCategory::LargeStraight => {},
        ScoreCategory::Yahtzee => {},
        _ => {
            let f = upper_face(category).unwrap();
            assert(count(p, f as int) == count(q, f as int));
        },
    }
}


/// The score of a roll in a category is a function of the dice: two values
/// that both meet the description of the category score are the same.
pub proof fn law_category_score_unique(
    category: ScoreCategory,
    dice: Seq<u8>,
    r1: Option<usize>,
    r2: Option<usize>,
)
    requires
        is_category_score(category, dice, r1),
        is_category_score(category, dice, r2),
    ensures
        r1 == r2,
{
    match category {
        ScoreCategory::FullHouse => {
            match (r1, r2) {
                (Some(s1), Some(s2)) => {
                    let (a1, b1) = choose|a: int, b: int|
                        fullhouse_fits(dice, a, b) && s1 == fullhouse_value(a, b);
                    let (a2, b2) = choose|a: int, b: int|
                        fullhouse_fits(dice, a, b) && s2 == fullhouse_value(a, b);
                    assert(fullhouse_value(a1, b1) <= s2);
                    assert(fullhouse_value(a2, b2) <= s1);
                },
                (Some(s1), None) => {
                    let (a1, b1) = choose|a: int, b: int|
                        fullhouse_fits(dice, a, b) && s1 == fullhouse_value(a, b);
                    assert(!fullhouse_fits(dice, a1, b1));
                },
                (None, Some(s2)) => {
                    let (a2, b2) = choose|a: int, b: int|
                        fullhouse_fits(dice, a, b) && s2 == fullhouse_value(a, b);
                    assert(!fullhouse_fits(dice, a2, b2));
                },
                _ => {},
            }
        },
        ScoreCategory::SmallStraight => {
            lemma_best_straight_unique(dice, 4, 30, r1, r2);
        },
        ScoreCategory::LargeStraight => {
            lemma_best_straight_unique(dice, 5, 40, r1, r2);
        },
        _ => {},
    }
}

/// How many dice of a roll show `v` is the multiplicity of `v` in the roll.
proof fn lemma_count_is_multiplicity(s: Seq<u8>, v: u8)
    ensures
        count(s, v as int) == s.to_multiset().count(v),
    decreases s.len(),
{
    broadcast use vstd::seq_lib::group_to_multiset_ensures;
    broadcast use vstd::multiset::group_multiset_axioms;

    if s.len() == 0 {
        assert(s.to_multiset() =~= vstd::multiset::Multiset::empty());
    } else {
        let init = s.drop_last();
        assert(s =~= init.push(s.last()));
        lemma_count_is_multiplicity(init, v);
    }
}

/// The bonus of the upper section at `n` counting dice.
pub open spec fn upper_bonus(n: nat) -> nat {
    if n >= 4 {
        15
    } else if n >= 3 {
        10
    } else {
        0
    }
}

/// Upper section (`Ones` .. `Sixes`): every Wild face counts as the target
/// face whatever the other dice show. With `n` the number of dice showing
/// the face plus the number showing a Wild face, the score is `n` times the
/// face, plus 10 when `n` is 3 and 15 when `n` is 4 or more.
pub proof fn law_upper_section_counts_wild_faces(
    category: ScoreCategory,
    dice: Seq<u8>,
    r: Option<usize>,
)
    requires
        upper_face(category) is Some,
        dice.len() <= MAX_SCORED_DICE,
        is_category_score(category, dice, r),
    ensures
        ({
            let f = upper_face(category).unwrap();
            let n = dice.to_multiset().count(f) + dice.to_multiset().count(WILD);
            r == Some((n * f + upper_bonus(n)) as usize)
        }),
{
    let f = upper_face(category).unwrap();
    lemma_count_is_multiplicity(dice, f);
    lemma_count_is_multiplicity(dice, WILD);
}

/// Turning a die that shows neither the target face nor a Wild face into a
/// Wild face raises an upper-section score by at least the face: the Wild
/// face always joins the target, whatever the other dice show.
pub proof fn law_wild_face_raises_upper_score(
    category: ScoreCategory,
    dice: Seq<u8>,
    i: int,
    before: Option<usize>,
    after: Option<usize>,
)
    requires
        upper_face(category) is Some,
        dice.len() <= MAX_SCORED_DICE,
        0 <= i < dice.len(),
        dice[i] != upper_face(category).unwrap(),
        dice[i] != WILD,
        is_category_score(category, dice, before),
        is_category_score(category, dice.update(i, WILD), after),
    ensures
        before is Some,
        after is Some,
        after.unwrap() >= before.unwrap() + upper_face(category).unwrap(),
{
    let f = upper_face(category).unwrap();
    let d2 = dice.update(i, WILD);
    lemma_remove_die(dice, i);
    lemma_remove_die(d2, i);
    assert(d2.remove(i) =~= dice.remove(i));
    assert(count(d2, f as int) == count(dice, f as int));
    assert(count(d2, WILD as int) == count(dice, WILD as int) + 1);
    lemma_count_le_len(dice, f as int);
    lemma_count_le_len(dice, WILD as int);
    lemma_count_le_len(d2, f as int);
    lemma_count_le_len(d2, WILD as int);
    let n = wilds(dice) + count(dice, f as int);
    let n2 = wilds(d2) + count(d2, f as int);
    assert(n2 == n + 1);
    assert(n2 * f == n * f + f) by (nonlinear_arith)
        requires
            n2 == n + 1,
    ;
    assert(n2 * f <= 2 * MAX_SCORED_DICE * 6 + 6) by (nonlinear_arith)
        requires
            n2 <= 2 * MAX_SCORED_DICE + 1,
            f <= 6,
    ;
    assert(n * f >= 0) by (nonlinear_arith)
        requires
            n >= 0,
            f >= 0,
    ;
}

proof fn lemma_best_straight_unique(
    dice: Seq<u8>,
    len: nat,
    bonus: nat,
    r1: Option<usize>,
    r2: Option<usize>,
)
    requires
        best_straight(dice, len, bonus, r1),
        best_straight(dice, len, bonus, r2),
    ensures
        r1 == r2,
{
    match (r1, r2) {
        (Some(v1), Some(v2)) => {
            let s1 = choose|s: int| straight_fits(dice, len, s) && v1 == straight_value(len, s, bonus);
            let s2 = choose|s: int| straight_fits(dice, len, s) && v2 == straight_value(len, s, bonus);
            assert(straight_value(len, s1, bonus) <= v2);
            assert(straight_value(len, s2, bonus) <= v1);
        },
        (Some(v1), None) => {
            let s1 = choose|s: int| straight_fits(dice, len, s) && v1 == straight_value(len, s, bonus);
            assert(!straight_fits(dice, len, s1));
        },
        (None, Some(v2)) => {
            let s2 = choose|s: int| straight_fits(dice, len, s) && v2 == straight_value(len, s, bonus);
            assert(!straight_fits(dice, len, s2));
        },
        _ => {},
    }
}

// ─── Lemmas on the model ──────────────────────────────────────────────────────

proof fn lemma_prefix_step(dice: Seq<u8>, i: int)
    requires
        0 <= i < dice.len(),
    ensures
        dice.take(i + 1).drop_last() == dice.take(i),
        dice.take(i + 1).last() == dice[i],
        dice.take(i + 1).len() > 0,
{
    assert(dice.take(i + 1).drop_last() =~= dice.take(i));
}

proof fn lemma_whole_prefix(dice: Seq<u8>)
    ensures
        dice.take(dice.len() as int) == dice,
{
    assert(dice.take(dice.len() as int) =~= dice);
}

proof fn lemma_count_le_len(dice: Seq<u8>, v: int)
    ensures
        count(dice, v) <= dice.len(),
    decreases dice.len(),
{
    if dice.len() > 0 {
        lemma_count_le_len(dice.drop_last(), v);
    }
}

proof fn lemma_max_non_wild_le(dice: Seq<u8>)
    ensures
        max_non_wild(dice) <= 255,
    decreases dice.len(),
{
    if dice.len() > 0 {
        lemma_max_non_wild_le(dice.drop_last());
    }
}

proof fn lemma_max_non_wild_is_max(dice: Seq<u8>, i: int)
    requires
        0 <= i < dice.len(),
        dice[i] != WILD,
    ensures
        dice[i] as nat <= max_non_wild(dice),
        max_non_wild(dice) > 0,
    decreases dice.len(),
{
    if i < dice.len() - 1 {
        lemma_max_non_wild_is_max(dice.drop_last(), i);
    }
}

// ─── Calculation helpers ──────────────────────────────────────────────────────

/// Count the occurrences of each face value: entry `v` is the number of dice
/// showing `v`.
fn counts(dice: &[u8]) -> (c: Vec<usize>)
    requires
        dice@.len() <= MAX_SCORED_DICE,
    ensures
        c@.len() == 256,
        forall|v: int| 0 <= v < 256 ==> #[trigger] c@[v] == count(dice@, v),
{
    let mut c: Vec<usize> = vec![0usize; 256];
    let mut i: usize = 0;
    while i < dice.len()
        invariant
            i <= dice@.len(),
            dice@.len() <= MAX_SCORED_DICE,
            c@.len() == 256,
            forall|v: int| 0 <= v < 256 ==> #[trigger] c@[v] == count(dice@.take(i as int), v),
        decreases dice@.len() - i,
    {
        let d = dice[i] as usize;
        proof {
            lemma_prefix_step(dice@, i as int);
            lemma_count_le_len(dice@.take(i as int), d as int);
        }
        let n = c[d];
        c.set(d, n + 1);
        i = i + 1;
    }
    proof {
        lemma_whole_prefix(dice@);
    }
    c
}

/// The highest non-wild value shown (0 when all dice are wild).
fn max_non_wild_of(dice: &[u8]) -> (m: usize)
    ensures
        m == max_non_wild(dice@),
        m <= 255,
{
    let mut m: usize = 0;
    let mut i: usize = 0;
    while i < dice.len()
        invariant
            i <= dice@.len(),
            m == max_non_wild(dice@.take(i as int)),
        decreases dice@.len() - i,
    {
        proof {
            lemma_prefix_step(dice@, i as int);
        }
        let x = dice[i];
        if x != WILD && x as usize > m {
            m = x as usize;
        }
        i = i + 1;
    }
    proof {
        lemma_whole_prefix(dice@);
        lemma_max_non_wild_le(dice@);
    }
    m
}

/// Best upper-section / N-of-a-kind score for `target`, every Wild face
/// joining the target value.
fn score_counts(dice_sums: &Vec<usize>, target: u8, dice: Ghost<Seq<u8>>) -> (r: Option<usize>)
    requires
        1 <= target <= 6,
        dice@.len() <= MAX_SCORED_DICE,
        dice_sums@.len() == 256,
        forall|v: int| 0 <= v < 256 ==> #[trigger] dice_sums@[v] == count(dice@, v),
    ensures
        r == Some(upper_score(dice@, target) as usize),
{
    let bonus_three: usize = 10;
    let bonus_four: usize = 15;
    proof {
        lemma_count_le_len(dice@, WILD as int);
        lemma_count_le_len(dice@, target as int);
    }
    let count = dice_sums[WILD as usize] + dice_sums[target as usize];
    assert(count * target <= 2 * MAX_SCORED_DICE * 6) by (nonlinear_arith)
        requires
            count <= 2 * MAX_SCORED_DICE,
            target <= 6,
    ;
    if count >= 4 {
        Some(count * target as usize + bonus_four)
    } else if count >= 3 {
        Some(count * target as usize + bonus_three)
    } else {
        Some(count * target as usize)
    }
}

/// Whether pair (`a`, `b`) comes before (`a0`, `b0`) in the search order.
spec fn searched(a0: int, b0: int, a: int, b: int) -> bool {
    a < a0 || (a == a0 && b < b0)
}

/// `best` is the best full house among the pairs searched so far.
spec fn fullhouse_so_far(dice: Seq<u8>, best: Option<usize>, a0: int, b0: int) -> bool {
    match best {
        None => forall|a: int, b: int| fullhouse_fits(dice, a, b) ==> !searched(a0, b0, a, b),
        Some(s) => {
            &&& exists|a: int, b: int|
                fullhouse_fits(dice, a, b) && searched(a0, b0, a, b) && s == fullhouse_value(a, b)
            &&& forall|a: int, b: int|
                fullhouse_fits(dice, a, b) && searched(a0, b0, a, b) ==> fullhouse_value(a, b) <= s
        },
    }
}

proof fn lemma_fullhouse_step(
    d: Seq<u8>,
    old_best: Option<usize>,
    new_best: Option<usize>,
    a: int,
    b: int,
)
    requires
        search_max(d) <= 255,
        fullhouse_so_far(d, old_best, a, b),
        !fullhouse_fits(d, a, b) ==> new_best == old_best,
        fullhouse_fits(d, a, b) ==> new_best == Some(
            match old_best {
                None => fullhouse_value(a, b) as usize,
                Some(o) => if o > fullhouse_value(a, b) {
                    o
                } else {
                    fullhouse_value(a, b) as usize
                },
            },
        ),
    ensures
        fullhouse_so_far(d, new_best, a, b + 1),
{
    assert forall|x: int, y: int| #[trigger]
        fullhouse_fits(d, x, y) implies searched(a, b + 1, x, y) == (searched(a, b, x, y) || (x
        == a && y == b)) by {}
    if fullhouse_fits(d, a, b) {
        let s = new_best.unwrap();
        match old_best {
            None => {
                assert(searched(a, b + 1, a, b));
            },
            Some(o) => {
                if o > fullhouse_value(a, b) {
                    let (x, y) = choose|x: int, y: int|
                        fullhouse_fits(d, x, y) && searched(a, b, x, y) && o == fullhouse_value(x, y);
                    assert(searched(a, b + 1, x, y));
                } else {
                    assert(searched(a, b + 1, a, b));
                }
            },
        }
    } else {
        if let Some(o) = old_best {
            let (x, y) = choose|x: int, y: int|
                fullhouse_fits(d, x, y) && searched(a, b, x, y) && o == fullhouse_value(x, y);
            assert(searched(a, b + 1, x, y));
        }
    }
}

/// Best full house: three of one value and two of another, Wild faces
/// filling the gaps; the three-of slot and the two-of slot are searched over
/// every value up to `search_max`, so the result is the maximum.
fn score_fullhouse(dice: &[u8]) -> (r: Option<usize>)
    requires
        dice@.len() <= MAX_SCORED_DICE,
    ensures
        best_fullhouse(dice@, r),
{
    let bonus: usize = 25;
    let dice_sums = counts(dice);
    let wild_count = dice_sums[WILD as usize];
    let top = max_non_wild_of(dice);
    let top_face: usize = if top > 6 {
        top
    } else {
        6
    };
    let ghost d = dice@;
    let mut best: Option<usize> = None;
    let mut a: usize = 1;
    while a <= top_face
        invariant
            1 <= a <= top_face + 1,
            bonus == 25,
            top_face == search_max(d),
            top_face <= 255,
            wild_count == wilds(d),
            dice_sums@.len() == 256,
            forall|v: int| 0 <= v < 256 ==> #[trigger] dice_sums@[v] == count(d, v),
            fullhouse_so_far(d, best, a as int, 1),
            best matches Some(s) ==> s <= 3 * 255 + 2 * 255 + 25,
        decreases top_face + 1 - a,
    {
        let ca = dice_sums[a];
        let need_a: usize = if ca >= 3 {
            0
        } else {
            3 - ca
        };
        if need_a <= wild_count {
            let mut b: usize = 1;
            while b <= top_face
                invariant
                    1 <= a <= top_face,
                    bonus == 25,
                    1 <= b <= top_face + 1,
                    top_face == search_max(d),
                    top_face <= 255,
                    wild_count == wilds(d),
                    need_a == need(d, a as int, 3),
                    dice_sums@.len() == 256,
                    forall|v: int| 0 <= v < 256 ==> #[trigger] dice_sums@[v] == count(d, v),
                    fullhouse_so_far(d, best, a as int, b as int),
                    best matches Some(s) ==> s <= 3 * 255 + 2 * 255 + 25,
                decreases top_face + 1 - b,
            {
                let ghost old_best = best;
                if b != a {
                    let cb = dice_sums[b];
                    let need_b: usize = if cb >= 2 {
                        0
                    } else {
                        2 - cb
                    };
                    if need_a + need_b <= wild_count {
                        let s = 3 * a + 2 * b + bonus;
                        assert(fullhouse_fits(d, a as int, b as int));
                        assert(s == fullhouse_value(a as int, b as int));
                        best = match best {
                            None => Some(s),
                            Some(x) => Some(
                                if x > s {
                                    x
                                } else {
                                    s
                                },
                            ),
                        };
                    } else {
                        assert(!fullhouse_fits(d, a as int, b as int));
                    }
                }
                proof {
                    lemma_fullhouse_step(d, old_best, best, a as int, b as int);
                }
                b = b + 1;
            }
            assert(fullhouse_so_far(d, best, a + 1, 1)) by {
                assert forall|x: int, y: int| #[trigger]
                    fullhouse_fits(d, x, y) implies searched(a + 1, 1, x, y) == searched(
                    a as int,
                    top_face + 1,
                    x,
                    y,
                ) by {}
                if let Some(s) = best {
                    let (x, y) = choose|x: int, y: int|
                        fullhouse_fits(d, x, y) && searched(a as int, top_face + 1, x, y) && s
                            == fullhouse_value(x, y);
                    assert(searched(a + 1, 1, x, y));
                }
            }
        } else {
            assert(fullhouse_so_far(d, best, a + 1, 1)) by {
                assert forall|x: int, y: int| #[trigger]
                    fullhouse_fits(d, x, y) implies searched(a + 1, 1, x, y) == searched(
                    a as int,
                    1,
                    x,
                    y,
                ) by {}
                if let Some(s) = best {
                    let (x, y) = choose|x: int, y: int|
                        fullhouse_fits(d, x, y) && searched(a as int, 1, x, y) && s
                            == fullhouse_value(x, y);
                    assert(searched(a + 1, 1, x, y));
                }
            }
        }
        a = a + 1;
    }
    assert(best_fullhouse(d, best)) by {
        assert forall|x: int, y: int| #[trigger]
            fullhouse_fits(d, x, y) implies searched(top_face + 1, 1, x, y) by {}
    }
    best
}

/// `best` is the best straight among the starts below `s0`.
spec fn straight_so_far(dice: Seq<u8>, len: nat, bonus: nat, best: Option<usize>, s0: int) -> bool {
    match best {
        None => forall|s: int| straight_fits(dice, len, s) ==> s >= s0,
        Some(v) => {
            &&& exists|s: int| straight_fits(dice, len, s) && s < s0 && v == straight_value(len, s, bonus)
            &&& forall|s: int| straight_fits(dice, len, s) && s < s0 ==> straight_value(len, s, bonus) <= v
        },
    }
}

proof fn lemma_straight_step(
    d: Seq<u8>,
    len: nat,
    bonus: nat,
    old_best: Option<usize>,
    new_best: Option<usize>,
    st: int,
)
    requires
        straight_so_far(d, len, bonus, old_best, st),
        !straight_fits(d, len, st) ==> new_best == old_best,
        straight_fits(d, len, st) ==> new_best == Some(
            match old_best {
                None => straight_value(len, st, bonus) as usize,
                Some(o) => if o > straight_value(len, st, bonus) {
                    o
                } else {
                    straight_value(len, st, bonus) as usize
                },
            },
        ),
        0 <= straight_value(len, st, bonus) <= usize::MAX,
    ensures
        straight_so_far(d, len, bonus, new_best, st + 1),
{
    if let Some(o) = old_best {
        let x = choose|x: int| straight_fits(d, len, x) && x < st && o == straight_value(len, x, bonus);
        assert(x < st + 1);
    }
}

proof fn lemma_missing_step(dice: Seq<u8>, start: int, k: nat)
    ensures
        missing(dice, start, k + 1) == missing(dice, start, k) + if count(dice, start + k) == 0 {
            1nat
        } else {
            0nat
        },
{
}

proof fn lemma_run_sum_step(start: int, k: nat)
    ensures
        run_sum(start, k + 1) == run_sum(start, k) + start + k,
{
}

/// Best straight of exactly `len` consecutive values, Wild faces filling the
/// gaps: every start up to `search_max - len + 1` is tried, so the result is
/// the highest reachable run plus `bonus`, or `None` when none is reachable.
fn score_straight(dice: &[u8], len: usize, bonus: usize) -> (r: Option<usize>)
    requires
        dice@.len() <= MAX_SCORED_DICE,
        1 <= len,
        bonus + 255 * 255 <= usize::MAX,
    ensures
        best_straight(dice@, len as nat, bonus as nat, r),
{
    let dice_sums = counts(dice);
    let wild_count = dice_sums[WILD as usize];
    let top = max_non_wild_of(dice);
    let top_face: usize = if top > 6 {
        top
    } else {
        6
    };
    let ghost d = dice@;
    if len > top_face {
        assert forall|x: int| !straight_fits(d, len as nat, x) by {}
        return None;
    }
    let mut best: Option<usize> = None;
    let mut start: usize = 1;
    while start + len - 1 <= top_face
        invariant
            1 <= len <= top_face,
            bonus + 255 * 255 <= usize::MAX,
            1 <= start <= top_face + 1,
            top_face == search_max(d),
            top_face <= 255,
            wild_count == wilds(d),
            dice_sums@.len() == 256,
            forall|v: int| 0 <= v < 256 ==> #[trigger] dice_sums@[v] == count(d, v),
            straight_so_far(d, len as nat, bonus as nat, best, start as int),
        decreases top_face + 1 - start,
    {
        let mut miss: usize = 0;
        let mut run: usize = 0;
        let mut k: usize = 0;
        while k < len
            invariant
                1 <= len <= top_face,
                k <= len,
                1 <= start,
                start + len - 1 <= top_face,
                top_face <= 255,
                dice_sums@.len() == 256,
                forall|v: int| 0 <= v < 256 ==> #[trigger] dice_sums@[v] == count(d, v),
                miss == missing(d, start as int, k as nat),
                run == run_sum(start as int, k as nat),
                miss <= k,
                run <= k * 255,
            decreases len - k,
        {
            proof {
                lemma_missing_step(d, start as int, k as nat);
                lemma_run_sum_step(start as int, k as nat);
            }
            if dice_sums[start + k] == 0 {
                miss = miss + 1;
            }
            run = run + start + k;
            k = k + 1;
        }
        let ghost old_best = best;
        if miss <= wild_count {
            let v = run + bonus;
            best = match best {
                None => Some(v),
                Some(x) => Some(
                    if x > v {
                        x
                    } else {
                        v
                    },
                ),
            };
        }
        proof {
            lemma_straight_step(d, len as nat, bonus as nat, old_best, best, start as int);
        }
        start = start + 1;
    }
    assert(best_straight(d, len as nat, bonus as nat, best)) by {
        assert forall|x: int| #[trigger] straight_fits(d, len as nat, x) implies x < start by {}
    }
    best
}

/// Yahtzee: every die shows one value, Wild faces joining in; a pool of
/// only Wild faces counts as all 6s.
fn score_yahtzee(dice: &[u8]) -> (r: Option<usize>)
    requires
        dice@.len() <= MAX_SCORED_DICE,
    ensures
        r == match yahtzee_score(dice@) {
            Some(v) => Some(v as usize),
            None => None::<usize>,
        },
{
    let bonus: usize = 100;
    if dice.len() == 0 {
        return None;
    }
    let top = max_non_wild_of(dice);
    let mut i: usize = 0;
    while i < dice.len()
        invariant
            i <= dice@.len(),
            top == max_non_wild(dice@),
            forall|j: int| 0 <= j < i ==> (#[trigger] dice@[j]) == WILD || dice@[j] as nat == top,
        decreases dice@.len() - i,
    {
        if dice[i] != WILD && dice[i] as usize != top {
            return None;
        }
        i = i + 1;
    }
    let face: usize = if top == 0 {
        6
    } else {
        top
    };
    let total = dice.len();
    assert(total * face <= MAX_SCORED_DICE * 255) by (nonlinear_arith)
        requires
            total <= MAX_SCORED_DICE,
            face <= 255,
    ;
    Some(total * face + bonus)
}

/// Sum of all dice, a Wild face counting as 6.
fn chance_total(dice: &[u8]) -> (t: usize)
    requires
        dice@.len() <= MAX_SCORED_DICE,
    ensures
        t == chance_sum(dice@),
{
    let mut t: usize = 0;
    let mut i: usize = 0;
    while i < dice.len()
        invariant
            i <= dice@.len(),
            dice@.len() <= MAX_SCORED_DICE,
            t == chance_sum(dice@.take(i as int)),
            t <= 255 * i,
        decreases dice@.len() - i,
    {
        proof {
            lemma_prefix_step(dice@, i as int);
        }
        let x = dice[i];
        if x == WILD {
            t = t + 6;
        } else {
            t = t + x as usize;
        }
        i = i + 1;
    }
    proof {
        lemma_whole_prefix(dice@);
    }
    t
}

// ─── Core scoring ─────────────────────────────────────────────────────────────

/// Calculate the maximum score of the dice in `category` (`None` when the
/// category cannot be made with these dice).
pub fn calculate_for(category: &ScoreCategory, dice: &[u8]) -> (r: Option<usize>)
    requires
        dice@.len() <= MAX_SCORED_DICE,
    ensures
        is_category_score(*category, dice@, r),
{
    let c = counts(dice);
    let ghost d = dice@;
    match category {
        ScoreCategory::HighDie => Some(max_non_wild_of(dice)),
        ScoreCategory::Chance => Some(chance_total(dice)),
        ScoreCategory::Ones => score_counts(&c, 1, Ghost(d)),
        ScoreCategory::Twos => score_counts(&c, 2, Ghost(d)),
        ScoreCategory::Threes => score_counts(&c, 3, Ghost(d)),
        ScoreCategory::Fours => score_counts(&c, 4, Ghost(d)),
        ScoreCategory::Fives => score_counts(&c, 5, Ghost(d)),
        ScoreCategory::Sixes => score_counts(&c, 6, Ghost(d)),
        ScoreCategory::FullHouse => score_fullhouse(dice),
        ScoreCategory::SmallStraight => score_straight(dice, 4, 30),
        ScoreCategory::LargeStraight => score_straight(dice, 5, 40),
        ScoreCategory::Yahtzee => score_yahtzee(dice),
    }
}

} // verus!
